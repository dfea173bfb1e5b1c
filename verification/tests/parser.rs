use cringe_radio::parser::parse_songs_from_string;
use regex::Regex;

#[test]
fn test_parse_songs_from_string() {
    let input = "Here's a song that might help you feel less lonely:\n\n<SONG>Maroon 5 - Memories</SONG>\n\nCongratulations on coming out! Here are a few songs that celebrate love and LGBTQ+ pride:\n\n<SONG>Madonna - Vogue</SONG>\n<SONG>Lady Gaga - Born This Way</SONG>\n<SONG>Frank Ocean - Thinkin Bout You</SONG>";
    let (songs, modified_text) = parse_songs_from_string(input);

    assert_eq!(songs, vec![
        "Maroon 5 - Memories",
        "Madonna - Vogue",
        "Lady Gaga - Born This Way",
        "Frank Ocean - Thinkin Bout You",
    ]);

    let expected_modified_text = "Here's a song that might help you feel less lonely:\n\nMaroon 5 - Memories\n\nCongratulations on coming out! Here are a few songs that celebrate love and LGBTQ+ pride:\n\nMadonna - Vogue\nLady Gaga - Born This Way\nFrank Ocean - Thinkin Bout You";
    assert_eq!(modified_text, expected_modified_text);
}

#[test]
fn reply_without_tags_is_unchanged() {
    let (songs, text) = parse_songs_from_string("Just some words, no <song> here.");
    assert!(songs.is_empty());
    assert_eq!(text, "Just some words, no <song> here.");
}

#[test]
fn empty_reply() {
    let (songs, text) = parse_songs_from_string("");
    assert!(songs.is_empty());
    assert_eq!(text, "");
}

#[test]
fn unclosed_tag_is_left_alone() {
    let (songs, text) = parse_songs_from_string("Try <SONG>Toto - Africa");
    assert!(songs.is_empty());
    assert_eq!(text, "Try <SONG>Toto - Africa");
}

#[test]
fn title_spanning_lines_is_no_song() {
    let (songs, text) = parse_songs_from_string("<SONG>Toto\nAfrica</SONG> <SONG>Abba</SONG>");
    assert_eq!(songs, vec!["Abba"]);
    assert_eq!(text, "<SONG>Toto\nAfrica</SONG> Abba");
}

#[test]
fn empty_title_is_a_song() {
    let (songs, text) = parse_songs_from_string("a<SONG></SONG>b");
    assert_eq!(songs, vec![""]);
    assert_eq!(text, "ab");
}

#[test]
fn shortest_title_wins() {
    let (songs, text) = parse_songs_from_string("<SONG>a</SONG>b</SONG>");
    assert_eq!(songs, vec!["a"]);
    assert_eq!(text, "ab</SONG>");
}

#[test]
fn nested_open_tag_stays_in_title() {
    let (songs, text) = parse_songs_from_string("<SONG><SONG>x</SONG></SONG>");
    assert_eq!(songs, vec!["<SONG>x"]);
    assert_eq!(text, "<SONG>x</SONG>");
}

#[test]
fn non_ascii_titles() {
    let (songs, text) = parse_songs_from_string("écoute <SONG>Édith Piaf – La Vie en rose 🌹</SONG> ✓");
    assert_eq!(songs, vec!["Édith Piaf – La Vie en rose 🌹"]);
    assert_eq!(text, "écoute Édith Piaf – La Vie en rose 🌹 ✓");
}

#[test]
fn tag_removal_shortens_by_thirteen_per_song() {
    let input = "x<SONG>one</SONG>y<SONG>two</SONG>z";
    let (songs, text) = parse_songs_from_string(input);
    assert_eq!(songs.len(), 2);
    assert_eq!(text.chars().count() + 13 * songs.len(), input.chars().count());
}

/// Small deterministic generator of replies built from pieces that stress
/// the tag grammar.
fn generated_replies() -> Vec<String> {
    let pieces = ["<SONG>", "</SONG>", "a", "\n", "é", "<", "SONG>", "</SONG", " ", "<S", "/", ">"];
    let mut out = Vec::new();
    let mut state: u64 = 0x2545_f491_4f6c_dd1d;
    for _ in 0..3000 {
        state = state.wrapping_mul(6364136223846793005).wrapping_add(1442695040888963407);
        let len = (state >> 60) as usize;
        let mut s = String::new();
        for _ in 0..len {
            state = state.wrapping_mul(6364136223846793005).wrapping_add(1442695040888963407);
            s.push_str(pieces[((state >> 33) as usize) % pieces.len()]);
        }
        out.push(s);
    }
    out
}

#[test]
fn agrees_with_the_regular_expression() {
    let re = Regex::new(r"<SONG>(.*?)</SONG>").unwrap();
    for input in generated_replies() {
        let expected_songs: Vec<String> =
            re.captures_iter(&input).map(|cap| cap[1].to_string()).collect();
        let expected_text = re.replace_all(&input, "$1").to_string();
        let (songs, text) = parse_songs_from_string(&input);
        assert_eq!(songs, expected_songs, "songs of {:?}", input);
        assert_eq!(text, expected_text, "text of {:?}", input);
    }
}

#[test]
fn lines_are_read_independently() {
    let a = "x <SONG>one</SONG> <SONG>open";
    let b = "close</SONG> <SONG>two</SONG>";
    let (sa, ta) = parse_songs_from_string(a);
    let (sb, tb) = parse_songs_from_string(b);
    let (s, t) = parse_songs_from_string(&format!("{}\n{}", a, b));
    let mut expected = sa.clone();
    expected.extend(sb);
    assert_eq!(s, expected);
    assert_eq!(t, format!("{}\n{}", ta, tb));
    assert_eq!(s, vec!["one", "two"]);
}

#[test]
fn bracket_free_ends_are_untouched() {
    let (s, t) = parse_songs_from_string("SONG> so: <SONG>Abba</SONG> <SONG");
    assert_eq!(s, vec!["Abba"]);
    assert_eq!(t, "SONG> so: Abba <SONG");
}
