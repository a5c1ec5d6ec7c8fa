use druid::editable_text::EditableText;

#[test]
fn ascii_boundaries_are_single_bytes() {
    let s = String::from("abc");
    assert_eq!(s.next_grapheme_offset(0), Some(1));
    assert_eq!(s.next_grapheme_offset(2), Some(3));
    assert_eq!(s.next_grapheme_offset(3), None);
    assert_eq!(s.prev_grapheme_offset(3), Some(2));
    assert_eq!(s.prev_grapheme_offset(0), None);
}

#[test]
fn combining_marks_stay_with_their_base() {
    // "e" followed by a combining acute accent is one grapheme of three bytes.
    let s = String::from("e\u{301}x");
    assert_eq!(s.next_grapheme_offset(0), Some(3));
    assert_eq!(s.prev_grapheme_offset(3), Some(0));
    assert_eq!(s.next_grapheme_offset(3), Some(4));
}

#[test]
fn devanagari_clusters() {
    let s = String::from("हिन्दी");
    let first = s.next_grapheme_offset(0).unwrap();
    assert_eq!(first, 6);
    assert_eq!(s.prev_grapheme_offset(first), Some(0));
    assert_eq!(s.prev_grapheme_offset(s.len()).map(|b| b < s.len()), Some(true));
}
