use flicker::text::{contains_sub, decimal_string, lines, parse_i64, trim, trim_end_matches, words};
use flicker::util::{bar_cells, cut_to_width, human_eta, mount_hidden, redact, trunc};

#[test]
fn eta_formats_and_caps() {
    assert_eq!(human_eta(45), "45s");
    assert_eq!(human_eta(125), "2m 05s");
    assert_eq!(human_eta(4520), "1h 15m");
    assert_eq!(human_eta(8_640_000), "∞");
    assert_eq!(human_eta(-1), "∞");
}

#[test]
fn eta_edges() {
    assert_eq!(human_eta(0), "∞");
    assert_eq!(human_eta(60), "1m 00s");
    assert_eq!(human_eta(3600), "1h 00m");
    assert_eq!(human_eta(8_639_999), "2399h 59m");
    assert_eq!(human_eta(i64::MIN), "∞");
}

#[test]
fn redact_scrubs_the_secret() {
    let e = redact("http://x/api?apikey=SECRET failed", "SECRET");
    assert!(!e.contains("SECRET"));
    assert!(e.contains("•••"));
}

#[test]
fn redact_masks_every_occurrence_and_leaves_empty_secrets_alone() {
    assert_eq!(redact("a=SECRET&b=SECRET", "SECRET"), "a=•••&b=•••");
    assert_eq!(redact("nothing to hide", ""), "nothing to hide");
    assert_eq!(redact("no match here", "SECRET"), "no match here");
}

#[test]
fn trunc_is_char_safe() {
    assert_eq!(trunc("changeover", 20), "changeover");
    assert_eq!(trunc("the space between frames", 10), "the space…");
    // multi-byte chars must not split, and wide glyphs count 2 columns
    assert_eq!(trunc("🎬🎬🎬🎬", 3), "🎬…");
    assert_eq!(trunc("日本語のタイトル", 6), "日本…");
    assert_eq!(trunc("🎬🎬", 4), "🎬🎬");
}

#[test]
fn trunc_edges() {
    assert_eq!(trunc("", 5), "");
    assert_eq!(trunc("abc", 3), "abc");
    assert_eq!(trunc("abcd", 3), "ab…");
}

#[test]
fn bars_fill_from_the_left_and_clamp() {
    assert_eq!(bar_cells(0, 4), "░░░░");
    assert_eq!(bar_cells(2, 4), "██░░");
    assert_eq!(bar_cells(4, 4), "████");
    assert_eq!(bar_cells(9, 4), "████");
    assert_eq!(bar_cells(3, 0), "");
}

#[test]
fn system_mounts_are_hidden() {
    let skips: [&'static str; 2] = ["/boot", "/var/lib/docker"];
    assert!(mount_hidden("/boot/efi", &skips));
    assert!(mount_hidden("/var/lib/docker/overlay2", &skips));
    assert!(!mount_hidden("/pool", &skips));
    assert!(!mount_hidden("/", &skips));
}

#[test]
fn text_helpers_match_std() {
    assert_eq!(decimal_string(0), "0");
    assert_eq!(decimal_string(1234567890), "1234567890");
    assert_eq!(trim("  hi there \t"), "hi there");
    assert_eq!(trim_end_matches("44%%", '%'), "44");
    assert_eq!(words("  a  b\tc "), vec!["a", "b", "c"]);
    assert_eq!(lines("one\r\ntwo\n\nthree\n"), vec!["one", "two", "", "three"]);
    assert!(contains_sub("projector", "ject"));
    assert!(!contains_sub("projector", "reel"));
}

#[test]
fn integers_parse_as_std_does() {
    for s in ["0", "42", "-7", "+5", "007", "9223372036854775807", "-9223372036854775808"] {
        assert_eq!(parse_i64(s), s.parse::<i64>().ok(), "{}", s);
    }
    for s in ["", "-", "+", "4 2", "1.5", "9223372036854775808", "-9223372036854775809", "abc", "٣"] {
        assert_eq!(parse_i64(s), None, "{}", s);
        assert_eq!(s.parse::<i64>().ok(), None, "{}", s);
    }
}

#[test]
fn cutting_follows_the_given_widths() {
    assert_eq!(cut_to_width("abcd", &vec![2, 2, 2, 2], 5), "ab…");
    assert_eq!(cut_to_width("abcd", &vec![2, 2, 2, 2], 8), "abcd");
    assert_eq!(cut_to_width("abcd", &vec![0, 0, 0, 9], 3), "abc…");
    assert_eq!(cut_to_width("ab", &vec![1, 1], 0), "…");
}

#[test]
fn trunc_always_fits_when_given_a_column() {
    assert_eq!(trunc("projector", 1), "…");
    assert_eq!(trunc("projector", 4), "pro…");
    assert_eq!(trunc("映写機の光", 5), "映写…");
    assert_eq!(trunc("fits", 4), "fits");
    assert_eq!(trunc("anything", 0), "…");
}
