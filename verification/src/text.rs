use vstd::prelude::*;

verus! {

/// `t` is a prefix of `s`.
pub open spec fn begins_with(s: Seq<char>, t: Seq<char>) -> bool {
    t.len() <= s.len() && s.take(t.len() as int) == t
}

/// The text of an optional string.
pub open spec fn opt_view(o: Option<String>) -> Option<Seq<char>> {
    match o {
        Some(s) => Some(s@),
        None => None,
    }
}

/// The characters of `s`, in order.
pub fn chars_of(s: &str) -> (r: Vec<char>)
    ensures
        r@ == s@,
{
    let mut out: Vec<char> = Vec::new();
    for c in it: s.chars()
        invariant
            out@ == it.seq().take(it.index() as int),
    {
        out.push(c);
    }
    out
}

/// Whether `tag` occurs in `cs` at position `i`.
pub fn tag_at(cs: &Vec<char>, i: usize, tag: &Vec<char>) -> (r: bool)
    requires
        i <= cs.len(),
    ensures
        r == begins_with(cs@.skip(i as int), tag@),
{
    if tag.len() > cs.len() - i {
        return false;
    }
    let mut j: usize = 0;
    while j < tag.len()
        invariant
            j <= tag.len(),
            i + tag.len() <= cs.len(),
            forall|k: int| 0 <= k < j ==> cs@[i + k] == tag@[k],
        decreases tag.len() - j,
    {
        if cs[i + j] != tag[j] {
            assert(cs@.skip(i as int).take(tag.len() as int)[j as int] != tag@[j as int]);
            return false;
        }
        j = j + 1;
    }
    assert(cs@.skip(i as int).take(tag.len() as int) =~= tag@);
    true
}


/// `s` with every occurrence of `w` taken out, the occurrences found from
/// the left without overlapping, as `str::replace(w, "")` does.
pub open spec fn remove_all(s: Seq<char>, w: Seq<char>) -> Seq<char>
    decreases s.len(),
{
    if s.len() == 0 {
        seq![]
    } else if w.len() > 0 && begins_with(s, w) {
        remove_all(s.skip(w.len() as int), w)
    } else {
        seq![s[0]] + remove_all(s.skip(1), w)
    }
}

/// Whether `c` has the Unicode `White_Space` property, which is what
/// `char::is_whitespace` answers: the tab, line feed, vertical tab, form
/// feed and carriage return (U+0009 to U+000D), the space, U+0085,
/// U+00A0, U+1680, U+2000 to U+200A, U+2028, U+2029, U+202F, U+205F and
/// U+3000.
pub open spec fn is_white_space(c: char) -> bool {
    let u = c as u32;
    ||| 0x09 <= u <= 0x0D
    ||| u == 0x20
    ||| u == 0x85
    ||| u == 0xA0
    ||| u == 0x1680
    ||| 0x2000 <= u <= 0x200A
    ||| u == 0x2028
    ||| u == 0x2029
    ||| u == 0x202F
    ||| u == 0x205F
    ||| u == 0x3000
}

/// Calls `char::is_whitespace`, which the standard library documents as
/// true exactly for the characters with the Unicode `White_Space`
/// property, listed in `is_white_space`.
#[verifier::external_body]
fn char_is_whitespace(c: char) -> (r: bool)
    ensures
        r == is_white_space(c),
{
    c.is_whitespace()
}

/// `s` without its leading white space.
pub open spec fn trim_start(s: Seq<char>) -> Seq<char>
    decreases s.len(),
{
    if s.len() > 0 && is_white_space(s[0]) {
        trim_start(s.skip(1))
    } else {
        s
    }
}

/// `s` without its trailing white space.
pub open spec fn trim_end(s: Seq<char>) -> Seq<char>
    decreases s.len(),
{
    if s.len() > 0 && is_white_space(s.last()) {
        trim_end(s.drop_last())
    } else {
        s
    }
}

/// `s` without white space at either end, as `str::trim` gives it.
pub open spec fn trim(s: Seq<char>) -> Seq<char> {
    trim_end(trim_start(s))
}

/// `s` without `w` at its start, where it starts with `w`.
pub open spec fn strip_prefix(s: Seq<char>, w: Seq<char>) -> Seq<char> {
    if begins_with(s, w) {
        s.skip(w.len() as int)
    } else {
        s
    }
}

/// `s` without `w` at its start, where it starts with `w`.
pub fn strip_prefix_of(s: &str, w: &str) -> (r: String)
    ensures
        r@ == strip_prefix(s@, w@),
{
    let cs = chars_of(s);
    let ws = chars_of(w);
    assert(s@.skip(0) =~= s@);
    if tag_at(&cs, 0, &ws) {
        let n = cs.len();
        let rest = s.substring_char(ws.len(), n);
        assert(s@.subrange(w@.len() as int, n as int) =~= s@.skip(w@.len() as int));
        String::from_str(rest)
    } else {
        String::from_str(s)
    }
}

/// `s` with every occurrence of `w` taken out.
pub fn remove_all_of(s: &str, w: &str) -> (r: String)
    ensures
        r@ == remove_all(s@, w@),
{
    let cs = chars_of(s);
    let ws = chars_of(w);
    let n = cs.len();
    let mut out = String::new();
    let mut last: usize = 0;
    let mut i: usize = 0;
    assert(s@.skip(0) =~= s@);
    while i < n
        invariant
            cs@ == s@,
            ws@ == w@,
            n == cs.len(),
            last <= i <= n,
            out@ + s@.subrange(last as int, i as int) + remove_all(s@.skip(i as int), w@)
                == remove_all(s@, w@),
        decreases n - i,
    {
        let t = Ghost(s@.skip(i as int));
        if ws.len() > 0 && tag_at(&cs, i, &ws) {
            let before = s.substring_char(last, i);
            out.append(before);
            assert(t@.skip(ws.len() as int) =~= s@.skip(i + ws.len()));
            i = i + ws.len();
            last = i;
            assert(s@.subrange(last as int, i as int) =~= Seq::<char>::empty());
        } else {
            assert(t@.skip(1) =~= s@.skip(i + 1));
            assert(s@.subrange(last as int, i + 1) =~= s@.subrange(last as int, i as int) + seq![
                s@[i as int],
            ]);
            i = i + 1;
        }
    }
    let rest = s.substring_char(last, n);
    out.append(rest);
    assert(s@.skip(n as int) =~= Seq::<char>::empty());
    out
}

/// `s` without white space at either end.
pub fn trim_of(s: &str) -> (r: String)
    ensures
        r@ == trim(s@),
{
    let cs = chars_of(s);
    let n = cs.len();
    let mut a: usize = 0;
    assert(s@.skip(0) =~= s@);
    while a < n && char_is_whitespace(cs[a])
        invariant
            cs@ == s@,
            n == cs.len(),
            a <= n,
            trim_start(s@) == trim_start(s@.skip(a as int)),
        decreases n - a,
    {
        assert(s@.skip(a as int).skip(1) =~= s@.skip(a + 1));
        a = a + 1;
    }
    assert(trim_start(s@) == s@.skip(a as int));
    let mut b: usize = n;
    assert(s@.skip(a as int) =~= s@.subrange(a as int, n as int));
    while b > a && char_is_whitespace(cs[b - 1])
        invariant
            cs@ == s@,
            n == cs.len(),
            a <= b <= n,
            trim(s@) == trim_end(s@.subrange(a as int, b as int)),
        decreases b - a,
    {
        assert(s@.subrange(a as int, b as int).drop_last() =~= s@.subrange(a as int, b - 1));
        b = b - 1;
    }
    let r = s.substring_char(a, b);
    String::from_str(r)
}

/// Taking `w` out of a text in which it never occurs changes nothing;
/// an occurrence at the start goes; a first character that starts no
/// occurrence stays.
pub proof fn law_remove_all_steps(s: Seq<char>, w: Seq<char>, c: char)
    requires
        w.len() > 0,
    ensures
        remove_all(w + s, w) == remove_all(s, w),
        !begins_with(seq![c] + s, w) ==> remove_all(seq![c] + s, w) == seq![c] + remove_all(s, w),
        (forall|k: int| 0 <= k <= s.len() ==> !begins_with(#[trigger] s.skip(k), w)) ==> remove_all(
            s,
            w,
        ) == s,
{
    assert((w + s).take(w.len() as int) =~= w);
    assert((w + s).skip(w.len() as int) =~= s);
    assert((seq![c] + s).skip(1) =~= s);
    lemma_remove_absent(s, w);
}

proof fn lemma_remove_absent(s: Seq<char>, w: Seq<char>)
    requires
        w.len() > 0,
    ensures
        (forall|k: int| 0 <= k <= s.len() ==> !begins_with(#[trigger] s.skip(k), w)) ==> remove_all(
            s,
            w,
        ) == s,
    decreases s.len(),
{
    if s.len() > 0 && forall|k: int| 0 <= k <= s.len() ==> !begins_with(#[trigger] s.skip(k), w) {
        assert(s.skip(0) =~= s);
        let r = s.skip(1);
        assert forall|k: int| 0 <= k <= r.len() implies !begins_with(#[trigger] r.skip(k), w) by {
            assert(r.skip(k) =~= s.skip(k + 1));
        }
        lemma_remove_absent(r, w);
        assert(seq![s[0]] + r =~= s);
    }
}

/// Trimming drops white space, and only white space, from both ends: a
/// white-space character at the start or end goes, any other stays.
pub proof fn law_trim_steps(s: Seq<char>, c: char)
    ensures
        is_white_space(c) ==> trim_start(seq![c] + s) == trim_start(s),
        !is_white_space(c) ==> trim_start(seq![c] + s) == seq![c] + s,
        is_white_space(c) ==> trim_end(s + seq![c]) == trim_end(s),
        !is_white_space(c) ==> trim_end(s + seq![c]) == s + seq![c],
        is_white_space(' ') && is_white_space('\t') && is_white_space('\n') && is_white_space('\r'),
        !is_white_space('a') && !is_white_space('Z') && !is_white_space('0') && !is_white_space(
            ':',
        ) && !is_white_space('/'),
{
    assert((seq![c] + s).skip(1) =~= s);
    assert((s + seq![c]).drop_last() =~= s);
}

} // verus!
