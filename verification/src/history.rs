//! The watch history: its entries and where it is stored.

use crate::platform::{join_path, join_spec, Os};
use crate::text::owned;
use vstd::prelude::*;

verus! {

/// A link that was watched, with the title it resolved to and when (seconds since the Unix
/// epoch).
#[derive(Clone, Debug)]
pub struct HistoryEntry {
    pub url: String,
    pub title: String,
    pub timestamp: u64,
}

/// A history entry as plain values.
pub struct EntryView {
    pub url: Seq<char>,
    pub title: Seq<char>,
    pub timestamp: u64,
}

impl View for HistoryEntry {
    type V = EntryView;

    open spec fn view(&self) -> EntryView {
        EntryView { url: self.url@, title: self.title@, timestamp: self.timestamp }
    }
}

/// The entries of a history as plain values.
pub open spec fn entries_view(h: Seq<HistoryEntry>) -> Seq<EntryView> {
    h.map_values(|e: HistoryEntry| e@)
}

/// The file the history is kept in, given the user's data directory (if there is one).
pub open spec fn history_file_spec(os: Os, data_dir: Option<Seq<char>>) -> Seq<char> {
    let dir = match data_dir {
        Some(d) => join_spec(os, d, "streamlink-video-launcher"@),
        None => "."@,
    };
    join_spec(os, dir, "history.json"@)
}

/// The history file: `history.json` in the launcher's folder of the data directory, or in
/// the current directory when there is no data directory.
pub fn history_file(os: Os, data_dir: Option<String>) -> (r: String)
    ensures
        r@ == history_file_spec(
            os,
            match data_dir {
                Some(d) => Some(d@),
                None => None,
            },
        ),
{
    let dir = match data_dir {
        Some(d) => join_path(os, d.as_str(), "streamlink-video-launcher"),
        None => owned("."),
    };
    join_path(os, dir.as_str(), "history.json")
}

} // verus!
