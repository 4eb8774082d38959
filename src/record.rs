use vstd::prelude::*;
use crate::version::UnicodeVersion;

verus! {

/// One entry of the emoji catalog: the character itself, its display name,
/// and the Unicode version that first encoded it.
#[derive(Debug)]
pub struct EmojiRecord {
    pub glyph: String,
    pub name: String,
    pub unicode_version: UnicodeVersion,
}

/// What an `EmojiRecord` holds, as mathematical values.
pub struct RecordView {
    pub glyph: Seq<char>,
    pub name: Seq<char>,
    pub unicode_version: UnicodeVersion,
}

impl View for EmojiRecord {
    type V = RecordView;

    open spec fn view(&self) -> RecordView {
        RecordView { glyph: self.glyph@, name: self.name@, unicode_version: self.unicode_version }
    }
}

/// The views of a sequence of records, in the same order.
pub open spec fn views(s: Seq<EmojiRecord>) -> Seq<RecordView> {
    s.map_values(|r: EmojiRecord| r@)
}

impl EmojiRecord {
    pub fn new(glyph: &str, name: &str, unicode_version: UnicodeVersion) -> (r: EmojiRecord)
        ensures
            r.glyph@ == glyph@,
            r.name@ == name@,
            r.unicode_version == unicode_version,
    {
        EmojiRecord { glyph: glyph.to_owned(), name: name.to_owned(), unicode_version }
    }
}

impl Clone for EmojiRecord {
    fn clone(&self) -> (r: EmojiRecord)
        ensures
            r@ == self@,
    {
        EmojiRecord {
            glyph: self.glyph.clone(),
            name: self.name.clone(),
            unicode_version: self.unicode_version,
        }
    }
}

} // verus!
