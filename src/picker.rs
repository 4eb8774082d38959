use vstd::prelude::*;
use crate::catalog::{compiled_emoji_table, emoji_table};
use crate::error::PickerError;
use crate::grid::{chunk, chunks_spec, row_views};
use crate::record::{EmojiRecord, RecordView, views};
use crate::search::{matches_spec, supported, supported_spec};
use crate::version::UnicodeVersion;

verus! {

/// The grid shown for `catalog`: the records before `max_version` whose name
/// contains `query`, cut into rows of `columns`.
pub open spec fn grid_spec(
    catalog: Seq<RecordView>,
    query: Seq<char>,
    max_version: UnicodeVersion,
    columns: nat,
) -> Seq<Seq<RecordView>> {
    chunks_spec(matches_spec(supported_spec(catalog, max_version), query), columns)
}

/// Lays out the part of `catalog` that the picker shows: the records before
/// `max_version` whose name contains `search_val`, in rows of `columns`.
pub fn show_content_grid(
    catalog: &Vec<EmojiRecord>,
    search_val: &str,
    max_version: UnicodeVersion,
    columns: usize,
) -> (r: Result<Vec<Vec<EmojiRecord>>, PickerError>)
    ensures
        columns == 0 <==> r == Err::<Vec<Vec<EmojiRecord>>, PickerError>(
            PickerError::ConfigurationError,
        ),
        columns > 0 ==> r is Ok,
        r matches Ok(rows) ==> row_views(rows@) == grid_spec(
            views(catalog@),
            search_val@,
            max_version,
            columns as nat,
        ),
{
    let minimum_moji = supported(catalog, max_version);
    let filtered_moji = crate::search::matches(&minimum_moji, search_val);
    chunk(&filtered_moji, columns)
}

/// An event that the picker reacts to.
#[derive(Clone, Debug)]
pub enum Message {
    /// The search text was replaced by this text.
    SearchInput(String),
    /// The emoji with this glyph was picked.
    EmojiPressed(String),
    /// The emoji font finished loading.
    FontLoaded,
}

/// What the host has to do after an event.
#[derive(Clone, Debug)]
pub enum Effect {
    Nothing,
    /// Put this text on the system clipboard, replacing what was there.
    CopyToClipboard(String),
}

/// The picker's state: the current search text and the grid's configuration.
#[derive(Debug)]
pub struct App {
    search_val: String,
    max_version: UnicodeVersion,
    columns: usize,
}

/// What an `App` holds, as mathematical values.
pub struct AppView {
    pub query: Seq<char>,
    pub max_version: UnicodeVersion,
    pub columns: nat,
}

impl View for App {
    type V = AppView;

    closed spec fn view(&self) -> AppView {
        AppView {
            query: self.search_val@,
            max_version: self.max_version,
            columns: self.columns as nat,
        }
    }
}

impl App {
    /// The grid has at least one column.
    pub open spec fn wf(&self) -> bool {
        self@.columns > 0
    }

    /// A picker with an empty search that shows the records before
    /// `max_version` in rows of `columns`; zero columns is a configuration
    /// error.
    pub fn init(max_version: UnicodeVersion, columns: usize) -> (r: Result<App, PickerError>)
        ensures
            columns == 0 <==> r == Err::<App, PickerError>(PickerError::ConfigurationError),
            columns > 0 ==> r is Ok,
            r matches Ok(app) ==> app.wf() && app@.query == Seq::<char>::empty()
                && app@.max_version == max_version && app@.columns == columns as nat,
    {
        if columns == 0 {
            return Err(PickerError::ConfigurationError);
        }
        Ok(App { search_val: String::new(), max_version, columns })
    }

    /// The current search text.
    pub fn search_val(&self) -> (r: &str)
        ensures
            r@ == self@.query,
    {
        self.search_val.as_str()
    }

    pub fn max_version(&self) -> (r: UnicodeVersion)
        ensures
            r == self@.max_version,
    {
        self.max_version
    }

    pub fn columns(&self) -> (r: usize)
        ensures
            r as nat == self@.columns,
    {
        self.columns
    }

    /// Reacts to one event. A new search text replaces the old one; a picked
    /// emoji leaves the state as it is and asks the host to copy its glyph to
    /// the clipboard; anything else changes nothing.
    pub fn update(&mut self, message: Message) -> (effect: Effect)
        requires
            old(self).wf(),
        ensures
            final(self).wf(),
            final(self)@.max_version == old(self)@.max_version,
            final(self)@.columns == old(self)@.columns,
            match message {
                Message::SearchInput(text) => final(self)@.query == text@ && effect
                    matches Effect::Nothing,
                Message::EmojiPressed(glyph) => final(self)@.query == old(self)@.query && (
                effect matches Effect::CopyToClipboard(t) && t@ == glyph@),
                Message::FontLoaded => final(self)@.query == old(self)@.query && effect
                    matches Effect::Nothing,
            },
    {
        match message {
            Message::SearchInput(input) => {
                self.search_val = input;
                Effect::Nothing
            },
            Message::EmojiPressed(input) => Effect::CopyToClipboard(input),
            Message::FontLoaded => Effect::Nothing,
        }
    }

    /// The grid for `catalog` under the current search and configuration.
    pub fn content_grid(&self, catalog: &Vec<EmojiRecord>) -> (rows: Vec<Vec<EmojiRecord>>)
        requires
            self.wf(),
        ensures
            row_views(rows@) == grid_spec(
                views(catalog@),
                self@.query,
                self@.max_version,
                self@.columns,
            ),
    {
        let r = show_content_grid(catalog, self.search_val.as_str(), self.max_version, self.columns);
        match r {
            Ok(rows) => rows,
            // A well-formed picker has at least one column, so this arm is never taken.
            Err(_) => Vec::new(),
        }
    }

    /// The grid for the compiled-in emoji table under the current search and
    /// configuration.
    pub fn emoji_grid(&self) -> (rows: Vec<Vec<EmojiRecord>>)
        requires
            self.wf(),
        ensures
            row_views(rows@) == grid_spec(
                compiled_emoji_table(()),
                self@.query,
                self@.max_version,
                self@.columns,
            ),
    {
        let table = emoji_table();
        self.content_grid(&table)
    }
}

} // verus!
