use kaizen::text::{chars_of, contains, replace, same_text};

#[test]
fn replace_single_placeholder() {
    assert_eq!(replace("/a/{uuid}/b", "{uuid}", "xyz"), "/a/xyz/b");
}

#[test]
fn replace_every_occurrence() {
    assert_eq!(replace("{x}-{x}-{x}", "{x}", "1"), "1-1-1");
}

#[test]
fn replace_does_not_rescan_inserted_text() {
    assert_eq!(replace("aaa", "a", "aa"), "aaaaaa");
    assert_eq!(replace("{uuid}", "{uuid}", "{uuid}{uuid}"), "{uuid}{uuid}");
}

#[test]
fn replace_non_overlapping_from_the_left() {
    assert_eq!(replace("aaaa", "aa", "b"), "bb");
    assert_eq!(replace("aaa", "aa", "b"), "ba");
}

#[test]
fn replace_absent_pattern_keeps_text() {
    assert_eq!(replace("/campaigns/new", "{uuid}", "id"), "/campaigns/new");
}

#[test]
fn replace_by_itself_keeps_text() {
    let s = "/x/{uuid}/y/{uuid}";
    assert_eq!(replace(s, "{uuid}", "{uuid}"), s);
}

#[test]
fn replace_empty_pattern_matches_between_characters() {
    assert_eq!(replace("abc", "", "x"), "abc".replace("", "x"));
    assert_eq!(replace("", "", "x"), "x");
}

#[test]
fn replace_agrees_with_std() {
    let cases = [
        ("héllo wörld ö", "ö", "oe"),
        ("", "a", "b"),
        ("abcabc", "abc", ""),
        ("ababab", "aba", "X"),
        ("/api/v1/feedback/{campaign_id}/rating", "{campaign_id}", "ü-1"),
    ];
    for (s, p, r) in cases {
        assert_eq!(replace(s, p, r), s.replace(p, r));
    }
}

#[test]
fn contains_finds_substrings() {
    assert!(contains("duplicate key violates \"kaizen_campaign_uuid_key\"", "kaizen_campaign_uuid_key"));
    assert!(!contains("kaizen_campaign_uuid", "kaizen_campaign_uuid_key"));
    assert!(contains("abc", ""));
    assert!(contains("abc", "c"));
    assert!(!contains("", "a"));
}

#[test]
fn same_text_compares_characters() {
    assert!(same_text("23505", "23505"));
    assert!(!same_text("23505", "2350"));
    assert!(!same_text("23505", "23506"));
}

#[test]
fn chars_of_keeps_order() {
    assert_eq!(chars_of("aö€"), vec!['a', 'ö', '€']);
}
