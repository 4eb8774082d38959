use vstd::prelude::*;
use crate::record::{EmojiRecord, RecordView, views};
use crate::version::UnicodeVersion;

verus! {

/// The records of the compiled-in emoji table, in the table's order. The
/// table is fixed when the library is built, so it depends on nothing.
pub uninterp spec fn compiled_emoji_table(u: ()) -> Seq<RecordView>;

/// Relies on `emojis::iter`, with `Emoji::as_str`, `Emoji::name` and
/// `Emoji::unicode_version`, for the compiled-in emoji table: one record per
/// emoji in the table's order, the same records on every call.
#[verifier::external_body]
pub(crate) fn emoji_table() -> (r: Vec<EmojiRecord>)
    ensures
        views(r@) == compiled_emoji_table(()),
{
    emojis::iter().map(
        |e| EmojiRecord::new(
            e.as_str(),
            e.name(),
            UnicodeVersion::new(e.unicode_version().major(), e.unicode_version().minor()),
        ),
    ).collect()
}

} // verus!
