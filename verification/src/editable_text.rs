use vstd::prelude::*;
use unicode_segmentation::GraphemeCursor;

verus! {

/// `offset` is a byte offset of `text` that lies on a character boundary.
pub open spec fn on_char_boundary(text: Seq<char>, offset: usize) -> bool {
    vstd::utf8::is_char_boundary(vstd::utf8::encode_utf8(text), offset as int)
}

/// The number of bytes of the UTF-8 encoding of `text`.
pub open spec fn byte_len(text: Seq<char>) -> int {
    vstd::utf8::encode_utf8(text).len() as int
}

/// The byte offset of the extended grapheme cluster boundary that follows
/// byte offset `from` in `text`, as `unicode_segmentation` finds it.
pub uninterp spec fn next_grapheme_boundary(text: Seq<char>, from: usize) -> Option<usize>;

/// The byte offset of the extended grapheme cluster boundary that precedes
/// byte offset `from` in `text`, as `unicode_segmentation` finds it.
pub uninterp spec fn prev_grapheme_boundary(text: Seq<char>, from: usize) -> Option<usize>;

/// Calls `unicode_segmentation::GraphemeCursor::next_boundary` on the whole
/// text, from a cursor at `from` over extended grapheme clusters. Claimed: the
/// result is `next_grapheme_boundary(text, from)`; it is `None` exactly when
/// `from` is the end of the text, and otherwise lies after `from` and within
/// the text. The cursor slices the text at `from`, so `from` must lie on a
/// character boundary; with the whole text as its only chunk the call does
/// not ask for more context.
#[verifier::external_body]
fn grapheme_next_boundary(text: &str, from: usize) -> (r: Option<usize>)
    requires
        on_char_boundary(text@, from),
    ensures
        r == next_grapheme_boundary(text@, from),
        r is None <==> from as int == byte_len(text@),
        r matches Some(b) ==> from < b <= byte_len(text@),
{
    let mut cursor = GraphemeCursor::new(from, text.len(), true);
    cursor.next_boundary(text, 0).unwrap()
}

/// Calls `unicode_segmentation::GraphemeCursor::prev_boundary` on the whole
/// text, from a cursor at `from` over extended grapheme clusters. Claimed: the
/// result is `prev_grapheme_boundary(text, from)`; it is `None` exactly when
/// `from` is 0, and otherwise lies before `from`. `from` must lie on a
/// character boundary.
#[verifier::external_body]
fn grapheme_prev_boundary(text: &str, from: usize) -> (r: Option<usize>)
    requires
        on_char_boundary(text@, from),
    ensures
        r == prev_grapheme_boundary(text@, from),
        r is None <==> from == 0,
        r matches Some(b) ==> b < from,
{
    let mut cursor = GraphemeCursor::new(from, text.len(), true);
    cursor.prev_boundary(text, 0).unwrap()
}

/// Text that can be edited grapheme by grapheme.
pub trait EditableText {
    /// `offset` is a valid cursor position in this text.
    spec fn is_cursor_position(&self, offset: usize) -> bool;

    /// Gets the previous grapheme boundary from the given offset.
    fn prev_grapheme_offset(&self, offset: usize) -> Option<usize>
        requires
            self.is_cursor_position(offset),
    ;

    /// Gets the next grapheme boundary from the given offset.
    fn next_grapheme_offset(&self, offset: usize) -> Option<usize>
        requires
            self.is_cursor_position(offset),
    ;
}

impl EditableText for String {
    open spec fn is_cursor_position(&self, offset: usize) -> bool {
        on_char_boundary(self@, offset)
    }

    /// Gets the next grapheme boundary from the given byte offset.
    fn next_grapheme_offset(&self, from: usize) -> (r: Option<usize>)
        ensures
            r == next_grapheme_boundary(self@, from),
            r is None <==> from as int == byte_len(self@),
            r matches Some(b) ==> from < b <= byte_len(self@),
    {
        grapheme_next_boundary(self.as_str(), from)
    }

    /// Gets the previous grapheme boundary from the given byte offset.
    fn prev_grapheme_offset(&self, from: usize) -> (r: Option<usize>)
        ensures
            r == prev_grapheme_boundary(self@, from),
            r is None <==> from == 0,
            r matches Some(b) ==> b < from,
    {
        grapheme_prev_boundary(self.as_str(), from)
    }
}

} // verus!
