//! The list of past downloads, newest first.
use vstd::prelude::*;

verus! {

/// One finished download, as the history keeps it.
#[derive(Clone, Debug, PartialEq, Eq)]
pub struct HistoryEntry {
    pub id: String,
    pub title: String,
    pub url: String,
    pub format: String,
    pub output_path: String,
    pub timestamp: u64,
}

pub struct HistoryEntryView {
    pub id: Seq<char>,
    pub title: Seq<char>,
    pub url: Seq<char>,
    pub format: Seq<char>,
    pub output_path: Seq<char>,
    pub timestamp: u64,
}

impl View for HistoryEntry {
    type V = HistoryEntryView;

    open spec fn view(&self) -> HistoryEntryView {
        HistoryEntryView {
            id: self.id@,
            title: self.title@,
            url: self.url@,
            format: self.format@,
            output_path: self.output_path@,
            timestamp: self.timestamp,
        }
    }
}

/// The views of a list of entries.
pub open spec fn entries_view(v: Seq<HistoryEntry>) -> Seq<HistoryEntryView> {
    Seq::new(v.len(), |i: int| v[i]@)
}

/// The history that a stored document gives: its entries, or none where
/// it could not be read or understood.
pub open spec fn loaded(stored: Option<Seq<HistoryEntryView>>) -> Seq<HistoryEntryView> {
    match stored {
        Some(v) => v,
        None => Seq::empty(),
    }
}

pub open spec fn opt_entries_view(stored: Option<Vec<HistoryEntry>>) -> Option<
    Seq<HistoryEntryView>,
> {
    match stored {
        Some(v) => Some(entries_view(v@)),
        None => None,
    }
}

/// The history from what was read from disk: the stored entries, or an
/// empty history where the file is missing or does not parse.
pub fn load(stored: Option<Vec<HistoryEntry>>) -> (r: Vec<HistoryEntry>)
    ensures
        entries_view(r@) == loaded(opt_entries_view(stored)),
{
    match stored {
        Some(v) => v,
        None => {
            let r: Vec<HistoryEntry> = Vec::new();
            assert(entries_view(r@) =~= Seq::<HistoryEntryView>::empty());
            r
        },
    }
}

/// The history with `entry` added in front, as the newest.
pub fn add(entries: Vec<HistoryEntry>, entry: HistoryEntry) -> (r: Vec<HistoryEntry>)
    ensures
        entries_view(r@) == seq![entry@] + entries_view(entries@),
{
    let mut r = entries;
    let ghost e = entry@;
    r.insert(0, entry);
    assert(entries_view(r@) =~= seq![e] + entries_view(entries@));
    r
}

/// The history after clearing it: no entries.
pub fn clear() -> (r: Vec<HistoryEntry>)
    ensures
        r@.len() == 0,
{
    Vec::new()
}

/// Adding an entry and reading the history back gives that entry first,
/// followed by the history as it was, whatever was stored before.
pub proof fn law_add_then_load(stored: Option<Seq<HistoryEntryView>>, entry: HistoryEntryView)
    ensures
        loaded(Some(seq![entry] + loaded(stored)))[0] == entry,
        loaded(Some(seq![entry] + loaded(stored))).skip(1) == loaded(stored),
        loaded(Some(seq![entry] + loaded(stored))).len() == loaded(stored).len() + 1,
{
    assert((seq![entry] + loaded(stored)).skip(1) =~= loaded(stored));
}

} // verus!
