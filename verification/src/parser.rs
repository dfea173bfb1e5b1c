use vstd::prelude::*;

use crate::text::{begins_with, chars_of, tag_at};

verus! {

/// The tag that opens a song suggestion: `<SONG>`.
pub open spec fn open_tag() -> Seq<char> {
    seq!['<', 'S', 'O', 'N', 'G', '>']
}

/// The tag that closes a song suggestion: `</SONG>`.
pub open spec fn close_tag() -> Seq<char> {
    seq!['<', '/', 'S', 'O', 'N', 'G', '>']
}

/// Adds `d` to an optional count.
pub open spec fn shift(o: Option<nat>, d: nat) -> Option<nat> {
    match o {
        Some(n) => Some(n + d),
        None => None,
    }
}

/// Where the first closing tag of `t` starts, provided no line break
/// comes before it: a song title is one line.
pub open spec fn close_offset(t: Seq<char>) -> Option<nat>
    decreases t.len(),
{
    if t.len() < 7 {
        None
    } else if begins_with(t, close_tag()) {
        Some(0)
    } else if t[0] == '\n' {
        None
    } else {
        shift(close_offset(t.skip(1)), 1)
    }
}

/// The length of the title of a tagged song that starts right at the
/// beginning of `s`, if one does.
pub open spec fn song_at(s: Seq<char>) -> Option<nat> {
    if begins_with(s, open_tag()) {
        close_offset(s.skip(6))
    } else {
        None
    }
}

/// A closing tag found by `close_offset` lies inside `t`, and the title
/// before it holds neither a line break nor a closing tag.
pub proof fn lemma_close_offset(t: Seq<char>)
    ensures
        close_offset(t) matches Some(n) ==> {
            &&& n + 7 <= t.len()
            &&& begins_with(t.skip(n as int), close_tag())
            &&& forall|k: int| 0 <= k < n ==> t[k] != '\n'
            &&& forall|k: int| 0 <= k < n ==> !begins_with(#[trigger] t.skip(k), close_tag())
        },
    decreases t.len(),
{
    assert(t.skip(0) =~= t);
    if t.len() >= 7 && !begins_with(t, close_tag()) && t[0] != '\n' {
        lemma_close_offset(t.skip(1));
        if let Some(n) = close_offset(t) {
            assert(t.skip(n as int) =~= t.skip(1).skip(n - 1));
            assert forall|k: int| 0 <= k < n implies t[k] != '\n' by {
                if k > 0 {
                    assert(t[k] == t.skip(1)[k - 1]);
                }
            }
            assert forall|k: int| 0 <= k < n implies !begins_with(
                #[trigger] t.skip(k),
                close_tag(),
            ) by {
                if k > 0 {
                    assert(t.skip(k) =~= t.skip(1).skip(k - 1));
                } else {
                    assert(t.skip(k) =~= t);
                }
            }
        }
    }
}

/// A tagged song found by `song_at` lies inside `s`.
pub proof fn lemma_song_at(s: Seq<char>)
    ensures
        song_at(s) matches Some(n) ==> n + 13 <= s.len(),
{
    if begins_with(s, open_tag()) {
        lemma_close_offset(s.skip(6));
    }
}

/// The titles of the tagged songs of `s`, in order. Scanning from the
/// left, a song starts at the first `<SONG>` that is followed on the same
/// line by `</SONG>`; it ends at the first such `</SONG>`, and scanning
/// goes on after it. This is what `<SONG>(.*?)</SONG>` finds.
pub open spec fn songs(s: Seq<char>) -> Seq<Seq<char>>
    decreases s.len(),
{
    if s.len() == 0 {
        seq![]
    } else {
        match song_at(s) {
            Some(n) => {
                proof {
                    lemma_song_at(s);
                }
                seq![s.subrange(6, 6 + n as int)] + songs(s.skip(13 + n as int))
            },
            None => songs(s.skip(1)),
        }
    }
}

/// `s` with the tags of each song of `songs(s)` taken out and its title
/// left in place.
pub open spec fn untagged(s: Seq<char>) -> Seq<char>
    decreases s.len(),
{
    if s.len() == 0 {
        seq![]
    } else {
        match song_at(s) {
            Some(n) => {
                proof {
                    lemma_song_at(s);
                }
                s.subrange(6, 6 + n as int) + untagged(s.skip(13 + n as int))
            },
            None => seq![s[0]] + untagged(s.skip(1)),
        }
    }
}

/// The views of a vector of strings.
pub open spec fn string_views(v: Seq<String>) -> Seq<Seq<char>> {
    v.map_values(|x: String| x@)
}

/// The length of the title of the tagged song that starts at position
/// `i` of `cs`, if one does.
fn song_len_at(cs: &Vec<char>, i: usize, open: &Vec<char>, close: &Vec<char>) -> (r: Option<usize>)
    requires
        i <= cs.len(),
        open@ == open_tag(),
        close@ == close_tag(),
    ensures
        r matches Some(n) ==> song_at(cs@.skip(i as int)) == Some(n as nat),
        r is None ==> song_at(cs@.skip(i as int)) is None,
{
    if !tag_at(cs, i, open) {
        return None;
    }
    let start: usize = i + 6;
    assert(cs@.skip(i as int).skip(6) =~= cs@.skip(start as int));
    let mut k: usize = start;
    while 7 <= cs.len() - k
        invariant
            i <= cs.len(),
            start <= k <= cs.len(),
            song_at(cs@.skip(i as int)) == close_offset(cs@.skip(start as int)),
            start == i + 6,
            close@ == close_tag(),
            close_offset(cs@.skip(start as int)) == shift(
                close_offset(cs@.skip(k as int)),
                (k - start) as nat,
            ),
        decreases cs.len() - k,
    {
        if tag_at(cs, k, close) {
            return Some(k - start);
        }
        if cs[k] == '\n' {
            return None;
        }
        assert(cs@.skip(k as int).skip(1) =~= cs@.skip(k + 1));
        k = k + 1;
    }
    None
}

/// Unfolds `songs` and `untagged` one step at position `i` of `s`.
proof fn lemma_unfold_at(s: Seq<char>, i: int)
    requires
        0 <= i < s.len(),
    ensures
        song_at(s.skip(i)) matches Some(n) ==> {
            &&& i + 13 + n <= s.len()
            &&& songs(s.skip(i)) == seq![s.subrange(i + 6, i + 6 + n as int)] + songs(
                s.skip(i + 13 + n),
            )
            &&& untagged(s.skip(i)) == s.subrange(i + 6, i + 6 + n as int) + untagged(
                s.skip(i + 13 + n),
            )
        },
        song_at(s.skip(i)) is None ==> {
            &&& songs(s.skip(i)) == songs(s.skip(i + 1))
            &&& untagged(s.skip(i)) == seq![s[i]] + untagged(s.skip(i + 1))
        },
{
    let t = s.skip(i);
    lemma_song_at(t);
    match song_at(t) {
        Some(n) => {
            assert(t.skip(13 + n as int) =~= s.skip(i + 13 + n));
            assert(t.subrange(6, 6 + n as int) =~= s.subrange(i + 6, i + 6 + n as int));
        },
        None => {
            assert(t.skip(1) =~= s.skip(i + 1));
        },
    }
}

/// Splits a chat reply into the titles of the songs it suggests and the
/// reply's text with the song tags taken out.
///
/// A suggestion is written `<SONG>title</SONG>` on one line; the title
/// stays in the text, the tags go.
pub fn parse_songs_from_string(input: &str) -> (r: (Vec<String>, String))
    ensures
        string_views(r.0@) == songs(input@),
        r.1@ == untagged(input@),
{
    let cs = chars_of(input);
    let open: Vec<char> = vec!['<', 'S', 'O', 'N', 'G', '>'];
    let close: Vec<char> = vec!['<', '/', 'S', 'O', 'N', 'G', '>'];
    assert(open@ =~= open_tag());
    assert(close@ =~= close_tag());
    let n = cs.len();
    let mut found: Vec<String> = Vec::new();
    let mut text = String::new();
    let mut last: usize = 0;
    let mut i: usize = 0;
    assert(input@.skip(0) =~= input@);
    while i < n
        invariant
            cs@ == input@,
            n == cs.len(),
            open@ == open_tag(),
            close@ == close_tag(),
            last <= i <= n,
            string_views(found@) + songs(input@.skip(i as int)) == songs(input@),
            text@ + input@.subrange(last as int, i as int) + untagged(input@.skip(i as int))
                == untagged(input@),
        decreases n - i,
    {
        proof {
            lemma_unfold_at(input@, i as int);
        }
        match song_len_at(&cs, i, &open, &close) {
            Some(len) => {
                let before = input.substring_char(last, i);
                text.append(before);
                let title = input.substring_char(i + 6, i + 6 + len);
                text.append(title);
                let ghost old_found = found@;
                found.push(String::from_str(title));
                assert(string_views(found@) =~= string_views(old_found) + seq![title@]);
                i = i + 13 + len;
                last = i;
                assert(input@.subrange(last as int, i as int) =~= Seq::<char>::empty());
            },
            None => {
                assert(input@.subrange(last as int, i + 1) =~= input@.subrange(
                    last as int,
                    i as int,
                ) + seq![input@[i as int]]);
                i = i + 1;
            },
        }
    }
    let rest = input.substring_char(last, n);
    text.append(rest);
    assert(input@.skip(n as int) =~= Seq::<char>::empty());
    assert(string_views(found@) + songs(input@.skip(n as int)) =~= string_views(found@));
    (found, text)
}


/// `t` occurs in `s` at position `k`.
pub open spec fn occurs_at(s: Seq<char>, t: Seq<char>, k: int) -> bool {
    0 <= k && k + t.len() <= s.len() && s.subrange(k, k + t.len()) == t
}

/// No occurrence of `t` lies anywhere inside `s`.
pub open spec fn free_of(s: Seq<char>, t: Seq<char>) -> bool {
    forall|k: int| !#[trigger] occurs_at(s, t, k)
}

proof fn lemma_songs_shape(s: Seq<char>)
    ensures
        untagged(s).len() + 13 * songs(s).len() == s.len(),
        forall|j: int|
            0 <= j < songs(s).len() ==> !(#[trigger] songs(s)[j]).contains('\n') && free_of(
                songs(s)[j],
                close_tag(),
            ),
    decreases s.len(),
{
    if s.len() > 0 {
        lemma_song_at(s);
        match song_at(s) {
            Some(n) => {
                lemma_songs_shape(s.skip(13 + n as int));
                let t = s.skip(6);
                lemma_close_offset(t);
                let title = s.subrange(6, 6 + n as int);
                assert forall|k: int| 0 <= k < title.len() implies title[k] != '\n' by {
                    assert(title[k] == t[k]);
                }
                assert forall|k: int| !#[trigger] occurs_at(title, close_tag(), k) by {
                    if 0 <= k && k + 7 <= title.len() {
                        assert(t.skip(k).take(7) =~= title.subrange(k, k + 7));
                        assert(!begins_with(t.skip(k), close_tag()));
                    }
                }
                let rest = songs(s.skip(13 + n as int));
                assert forall|j: int|
                    0 <= j < songs(s).len() implies !(#[trigger] songs(s)[j]).contains('\n')
                    && free_of(songs(s)[j], close_tag()) by {
                    if j == 0 {
                        assert(songs(s)[j] == title);
                    } else {
                        assert(songs(s)[j] == rest[j - 1]);
                    }
                }
            },
            None => {
                lemma_songs_shape(s.skip(1));
            },
        }
    }
}

/// Each song title found is one line and holds no closing tag, and the
/// text left after the tags are taken out is shorter than the reply by
/// exactly the thirteen characters of the two tags of each song.
pub proof fn law_song_titles_and_length(s: Seq<char>)
    ensures
        untagged(s).len() + 13 * songs(s).len() == s.len(),
        forall|j: int|
            0 <= j < songs(s).len() ==> !(#[trigger] songs(s)[j]).contains('\n') && free_of(
                songs(s)[j],
                close_tag(),
            ),
{
    lemma_songs_shape(s);
}

/// A reply in which `<SONG>` never occurs suggests no song and is left
/// as it is.
pub proof fn law_untagged_reply_unchanged(s: Seq<char>)
    requires
        free_of(s, open_tag()),
    ensures
        songs(s) == Seq::<Seq<char>>::empty(),
        untagged(s) == s,
    decreases s.len(),
{
    if s.len() > 0 {
        assert(!begins_with(s, open_tag())) by {
            assert(!occurs_at(s, open_tag(), 0));
            if s.len() >= 6 {
                assert(s.take(6) =~= s.subrange(0, 6));
            }
        }
        let r = s.skip(1);
        assert forall|k: int| !#[trigger] occurs_at(r, open_tag(), k) by {
            assert(!occurs_at(s, open_tag(), k + 1));
            if 0 <= k && k + 6 <= r.len() {
                assert(r.subrange(k, k + 6) =~= s.subrange(k + 1, k + 7));
            }
        }
        law_untagged_reply_unchanged(r);
        assert(seq![s[0]] + r =~= s);
    }
}

/// Where `u` starts with `title` followed by a closing tag, the closing
/// tag is found right after the title.
proof fn lemma_close_after_title(u: Seq<char>, title: Seq<char>, j: int)
    requires
        0 <= j <= title.len(),
        title.len() + 7 <= u.len(),
        u.take(title.len() + 7int) == title + close_tag(),
        !title.contains('\n'),
        free_of(title, close_tag()),
    ensures
        close_offset(u.skip(j)) == Some((title.len() - j) as nat),
    decreases title.len() - j,
{
    let v = u.skip(j);
    if j == title.len() {
        assert(v.take(7) =~= close_tag()) by {
            assert forall|k: int| 0 <= k < 7 implies v.take(7)[k] == close_tag()[k] by {
                assert(v.take(7)[k] == u.take(title.len() + 7int)[j + k]);
            }
        }
    } else {
        lemma_close_after_title(u, title, j + 1);
        assert(v.skip(1) =~= u.skip(j + 1));
        assert(v[0] == title[j]) by {
            assert(u.take(title.len() + 7int)[j] == title[j]);
        }
        assert(!begins_with(v, close_tag())) by {
            if j + 7 <= title.len() {
                assert(!occurs_at(title, close_tag(), j));
                assert forall|k: int| 0 <= k < 7 implies v.take(7)[k] == title.subrange(
                    j,
                    j + 7,
                )[k] by {
                    assert(u.take(title.len() + 7int)[j + k] == title[j + k]);
                }
                assert(v.take(7) =~= title.subrange(j, j + 7));
            } else {
                // The closing tag would have to start inside the title and
                // run into the real closing tag, whose '<' then stands at
                // a place where the tag has another character.
                let m = title.len() - j;
                assert(1 <= m < 7);
                assert(v.take(7)[m] == '<') by {
                    assert(u.take(title.len() + 7int)[j + m] == close_tag()[0]);
                }
                assert(close_tag()[m] != '<');
            }
        }
    }
}

/// Unfolding `songs` and `untagged` over a prefix in which no song can
/// start.
proof fn lemma_skip_prefix(s: Seq<char>, p: int, k: int)
    requires
        0 <= k <= p,
        p + 6 <= s.len(),
        s.skip(p).take(6) == open_tag(),
        free_of(s.take(p), open_tag()),
    ensures
        songs(s.skip(k)) == songs(s.skip(p)),
        untagged(s.skip(k)) == s.subrange(k, p) + untagged(s.skip(p)),
    decreases p - k,
{
    if k < p {
        lemma_skip_prefix(s, p, k + 1);
        let v = s.skip(k);
        assert(!begins_with(v, open_tag())) by {
            if k + 6 <= p {
                assert(!occurs_at(s.take(p), open_tag(), k));
                assert(s.take(p).subrange(k, k + 6) =~= v.take(6));
            } else {
                let m = p - k;
                assert(1 <= m < 6);
                assert(v.take(6)[m] == s.skip(p).take(6)[0]);
                assert(open_tag()[m] != '<');
            }
        }
        assert(v.skip(1) =~= s.skip(k + 1));
        assert(s.subrange(k, p) =~= seq![s[k]] + s.subrange(k + 1, p));
    } else {
        assert(s.subrange(k, p) =~= Seq::<char>::empty());
    }
}

/// A song suggested as `<SONG>title</SONG>` after a text in which no song
/// starts is found, first, and its tags are taken out: the title must be
/// one line and hold no closing tag.
pub proof fn law_tagged_song_found(
    pre: Seq<char>,
    title: Seq<char>,
    post: Seq<char>,
)
    requires
        free_of(pre, open_tag()),
        !title.contains('\n'),
        free_of(title, close_tag()),
    ensures
        songs(pre + open_tag() + title + close_tag() + post) == seq![title] + songs(post),
        untagged(pre + open_tag() + title + close_tag() + post) == pre + title + untagged(
            post,
        ),
{
    let s = pre + open_tag() + title + close_tag() + post;
    let p = pre.len() as int;
    assert(s.skip(p).take(6) =~= open_tag());
    assert(s.take(p) =~= pre);
    lemma_skip_prefix(s, p, 0);
    assert(s.skip(0) =~= s);
    assert(s.subrange(0, p) =~= pre);
    let v = s.skip(p);
    let u = v.skip(6);
    assert(u.take(title.len() + 7int) =~= title + close_tag());
    lemma_close_after_title(u, title, 0);
    assert(u.skip(0) =~= u);
    assert(v.take(6) =~= open_tag());
    let n = title.len();
    assert(song_at(v) == Some(n));
    assert(v.subrange(6, 6 + n as int) =~= title);
    assert(v.skip(13 + n as int) =~= post);
}

/// A closing tag cannot be found across a line break: searching
/// `x`, a line break and `y` is searching `x`.
proof fn lemma_close_offset_line(x: Seq<char>, y: Seq<char>)
    ensures
        close_offset(x + seq!['\n'] + y) == close_offset(x),
    decreases x.len(),
{
    let t = x + seq!['\n'] + y;
    if t.len() >= 7 {
        if x.len() < 7 {
            assert(!begins_with(t, close_tag())) by {
                assert(t.take(7)[x.len() as int] == '\n');
            }
        } else {
            assert(t.take(7) =~= x.take(7));
        }
        if x.len() > 0 {
            assert(t[0] == x[0]);
            if x[0] != '\n' && !begins_with(t, close_tag()) {
                lemma_close_offset_line(x.skip(1), y);
                assert(t.skip(1) =~= x.skip(1) + seq!['\n'] + y);
            }
        }
    }
}

/// Lines are read one by one: no song runs across a line break.
proof fn lemma_lines(x: Seq<char>, y: Seq<char>)
    ensures
        songs(x + seq!['\n'] + y) == songs(x) + songs(y),
        untagged(x + seq!['\n'] + y) == untagged(x) + seq!['\n'] + untagged(y),
    decreases x.len(),
{
    let t = x + seq!['\n'] + y;
    if x.len() == 0 {
        assert(t =~= seq!['\n'] + y);
        assert(!begins_with(t, open_tag())) by {
            if t.len() >= 6 {
                assert(t.take(6)[0] == '\n');
            }
        }
        assert(t.skip(1) =~= y);
        assert(songs(x) =~= Seq::<Seq<char>>::empty());
        assert(songs(t) =~= songs(x) + songs(y));
        assert(untagged(x) =~= Seq::<char>::empty());
        assert(untagged(t) =~= untagged(x) + seq!['\n'] + untagged(y));
    } else {
        assert(begins_with(t, open_tag()) == begins_with(x, open_tag())) by {
            if x.len() >= 6 {
                assert(t.take(6) =~= x.take(6));
            } else if t.len() >= 6 {
                assert(t.take(6)[x.len() as int] == '\n');
            }
        }
        if begins_with(x, open_tag()) {
            assert(t.skip(6) =~= x.skip(6) + seq!['\n'] + y);
            lemma_close_offset_line(x.skip(6), y);
        }
        assert(song_at(t) == song_at(x));
        lemma_song_at(x);
        match song_at(x) {
            Some(n) => {
                let m = 13 + n as int;
                lemma_lines(x.skip(m), y);
                assert(t.skip(m) =~= x.skip(m) + seq!['\n'] + y);
                assert(t.subrange(6, 6 + n as int) =~= x.subrange(6, 6 + n as int));
                assert(songs(t) =~= songs(x) + songs(y));
                assert(untagged(t) =~= untagged(x) + seq!['\n'] + untagged(y));
            },
            None => {
                lemma_lines(x.skip(1), y);
                assert(t.skip(1) =~= x.skip(1) + seq!['\n'] + y);
                assert(songs(t) =~= songs(x) + songs(y));
                assert(untagged(t) =~= untagged(x) + seq!['\n'] + untagged(y));
            },
        }
    }
}

/// A reply is read line by line: the songs of two lines joined by a line
/// break are the songs of the first followed by those of the second, and
/// the tags are taken out of each line on its own.
pub proof fn law_lines_read_independently(x: Seq<char>, y: Seq<char>)
    ensures
        songs(x + seq!['\n'] + y) == songs(x) + songs(y),
        untagged(x + seq!['\n'] + y) == untagged(x) + seq!['\n'] + untagged(y),
{
    lemma_lines(x, y);
}

/// Text in which no `<` stands suggests no song and, put before a reply,
/// changes nothing in what the reply suggests.
proof fn lemma_prefix_without_open(p: Seq<char>, t: Seq<char>)
    requires
        !p.contains('<'),
    ensures
        songs(p + t) == songs(t),
        untagged(p + t) == p + untagged(t),
    decreases p.len(),
{
    if p.len() == 0 {
        assert(p + t =~= t);
        assert(p + untagged(t) =~= untagged(t));
    } else {
        let s = p + t;
        assert(s[0] == p[0]);
        assert(p[0] != '<');
        assert(!begins_with(s, open_tag())) by {
            if s.len() >= 6 {
                assert(s.take(6)[0] == p[0]);
            }
        }
        let r = p.skip(1);
        assert(!r.contains('<')) by {
            assert forall|i: int| 0 <= i < r.len() implies r[i] != '<' by {
                assert(r[i] == p[i + 1]);
            }
        }
        lemma_prefix_without_open(r, t);
        assert(s.skip(1) =~= r + t);
        assert(p + untagged(t) =~= seq![p[0]] + (r + untagged(t)));
    }
}

/// A text in which no `>` stands holds no closing tag.
proof fn lemma_no_close_without_gt(q: Seq<char>)
    requires
        !q.contains('>'),
    ensures
        close_offset(q) is None,
    decreases q.len(),
{
    if q.len() >= 7 {
        assert(!begins_with(q, close_tag())) by {
            assert(q[6] != '>');
            assert(q.take(7)[6] == q[6]);
        }
        let r = q.skip(1);
        assert(!r.contains('>')) by {
            assert forall|i: int| 0 <= i < r.len() implies r[i] != '>' by {
                assert(r[i] == q[i + 1]);
            }
        }
        lemma_no_close_without_gt(r);
    }
}

/// A closing tag cannot end in text without `>`: searching `x` followed
/// by such text is searching `x`.
proof fn lemma_close_offset_suffix(x: Seq<char>, q: Seq<char>)
    requires
        !q.contains('>'),
    ensures
        close_offset(x + q) == close_offset(x),
    decreases x.len(),
{
    let t = x + q;
    if x.len() == 0 {
        assert(t =~= q);
        lemma_no_close_without_gt(q);
    } else if t.len() >= 7 {
        if x.len() < 7 {
            assert(!begins_with(t, close_tag())) by {
                assert(t[6] == q[6 - x.len()]);
                assert(t.take(7)[6] == t[6]);
            }
        } else {
            assert(t.take(7) =~= x.take(7));
        }
        assert(t[0] == x[0]);
        if x[0] != '\n' && !begins_with(t, close_tag()) {
            lemma_close_offset_suffix(x.skip(1), q);
            assert(t.skip(1) =~= x.skip(1) + q);
        }
    }
}

/// Text in which no `>` stands suggests no song and, put after a reply,
/// changes nothing in what the reply suggests.
proof fn lemma_suffix_without_gt(x: Seq<char>, q: Seq<char>)
    requires
        !q.contains('>'),
    ensures
        songs(x + q) == songs(x),
        untagged(x + q) == untagged(x) + q,
    decreases x.len() + q.len(),
{
    let t = x + q;
    if x.len() == 0 {
        assert(t =~= q);
        if q.len() > 0 {
            assert(!begins_with(q, open_tag())) by {
                if q.len() >= 6 {
                    assert(q[5] != '>');
                    assert(q.take(6)[5] == q[5]);
                }
            }
            let r = q.skip(1);
            assert(!r.contains('>')) by {
                assert forall|i: int| 0 <= i < r.len() implies r[i] != '>' by {
                    assert(r[i] == q[i + 1]);
                }
            }
            let e = Seq::<char>::empty();
            lemma_suffix_without_gt(e, r);
            assert(e + r =~= r);
            assert(songs(x) =~= Seq::<Seq<char>>::empty());
            assert(untagged(x) =~= e);
            assert(untagged(q) =~= seq![q[0]] + untagged(r));
            assert(untagged(r) =~= r);
            assert(untagged(t) =~= untagged(x) + q);
        } else {
            assert(untagged(x) + q =~= untagged(x));
        }
    } else {
        assert(begins_with(t, open_tag()) == begins_with(x, open_tag())) by {
            if x.len() >= 6 {
                assert(t.take(6) =~= x.take(6));
            } else if t.len() >= 6 {
                assert(t[5] == q[5 - x.len()]);
                assert(t.take(6)[5] == t[5]);
            }
        }
        if begins_with(x, open_tag()) {
            assert(t.skip(6) =~= x.skip(6) + q);
            lemma_close_offset_suffix(x.skip(6), q);
        }
        assert(song_at(t) == song_at(x));
        lemma_song_at(x);
        match song_at(x) {
            Some(n) => {
                let m = 13 + n as int;
                lemma_suffix_without_gt(x.skip(m), q);
                assert(t.skip(m) =~= x.skip(m) + q);
                assert(t.subrange(6, 6 + n as int) =~= x.subrange(6, 6 + n as int));
                assert(untagged(t) =~= untagged(x) + q);
            },
            None => {
                lemma_suffix_without_gt(x.skip(1), q);
                assert(t.skip(1) =~= x.skip(1) + q);
                assert(untagged(t) =~= untagged(x) + q);
            },
        }
    }
}

/// Text without `<` before a reply and text without `>` after it are
/// left as they are and add no song: no tag can start in the first or
/// end in the second.
pub proof fn law_bracket_free_ends_untouched(p: Seq<char>, s: Seq<char>, q: Seq<char>)
    requires
        !p.contains('<'),
        !q.contains('>'),
    ensures
        songs(p + s + q) == songs(s),
        untagged(p + s + q) == p + untagged(s) + q,
{
    lemma_suffix_without_gt(s, q);
    lemma_prefix_without_open(p, s + q);
    assert(p + s + q =~= p + (s + q));
    assert(p + (untagged(s) + q) =~= p + untagged(s) + q);
}

} // verus!
