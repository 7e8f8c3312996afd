//! State shared between the foreground loop and the two background
//! refreshers: the current filter and the last snapshot of each dataset. The
//! caller guards one value of [`SharedState`] with a lock; every read or write
//! below is one step under that lock.
use vstd::prelude::*;
use crate::app::{Command, CommandView};
use crate::record::{dex_rows, mm_rows, DexVolumeTask, MmVolumeTask};
use crate::validation::DatasetKind;

verus! {

/// Seconds between two refreshes of the primary dataset.
pub const PRIMARY_REFRESH_SECS: u64 = 10;

/// Seconds between two refreshes of the secondary dataset.
pub const SECONDARY_REFRESH_SECS: u64 = 5;

/// The seconds that the refresher of `kind` waits between two fetches.
pub fn refresh_interval_secs(kind: DatasetKind) -> (r: u64)
    ensures
        kind == DatasetKind::Primary ==> r == PRIMARY_REFRESH_SECS,
        kind == DatasetKind::Secondary ==> r == SECONDARY_REFRESH_SECS,
{
    match kind {
        DatasetKind::Primary => PRIMARY_REFRESH_SECS,
        DatasetKind::Secondary => SECONDARY_REFRESH_SECS,
    }
}

/// A fetch to make: the rows of `kind` that match `filter`.
#[derive(Clone, Debug, PartialEq, Eq)]
pub struct FetchRequest {
    pub kind: DatasetKind,
    pub filter: String,
}

pub struct SharedView {
    pub filter: Seq<char>,
    pub mm_rows: Seq<Seq<Seq<char>>>,
    pub dex_rows: Seq<Seq<Seq<char>>>,
}

impl SharedView {
    pub open spec fn rows_of(self, kind: DatasetKind) -> Seq<Seq<Seq<char>>> {
        match kind {
            DatasetKind::Primary => self.mm_rows,
            DatasetKind::Secondary => self.dex_rows,
        }
    }

    /// A command takes effect here only by its new filter.
    pub open spec fn after_command(self, cmd: CommandView) -> SharedView {
        match cmd {
            CommandView::Refilter { filter, .. } => SharedView { filter, ..self },
            _ => self,
        }
    }

    /// A new snapshot of `kind` replaces the cached one; nothing else changes.
    pub open spec fn published(self, kind: DatasetKind, rows: Seq<Seq<Seq<char>>>) -> SharedView {
        match kind {
            DatasetKind::Primary => SharedView { mm_rows: rows, ..self },
            DatasetKind::Secondary => SharedView { dex_rows: rows, ..self },
        }
    }
}

pub struct SharedState {
    filter: String,
    mm_cache: Vec<MmVolumeTask>,
    dex_cache: Vec<DexVolumeTask>,
}

impl View for SharedState {
    type V = SharedView;

    closed spec fn view(&self) -> SharedView {
        SharedView {
            filter: self.filter@,
            mm_rows: mm_rows(self.mm_cache@),
            dex_rows: dex_rows(self.dex_cache@),
        }
    }
}

impl SharedState {
    /// Shared state holding the first snapshots, with no filter.
    pub fn new(mm: Vec<MmVolumeTask>, dex: Vec<DexVolumeTask>) -> (r: SharedState)
        ensures
            r@ == (SharedView { filter: Seq::empty(), mm_rows: mm_rows(mm@), dex_rows: dex_rows(dex@) }),
    {
        SharedState { filter: String::new(), mm_cache: mm, dex_cache: dex }
    }

    pub fn filter(&self) -> (r: &String)
        ensures
            r@ == self@.filter,
    {
        &self.filter
    }

    pub fn mm_cache(&self) -> (r: &Vec<MmVolumeTask>)
        ensures
            mm_rows(r@) == self@.mm_rows,
    {
        &self.mm_cache
    }

    pub fn dex_cache(&self) -> (r: &Vec<DexVolumeTask>)
        ensures
            dex_rows(r@) == self@.dex_rows,
    {
        &self.dex_cache
    }

    /// Makes `filter` the one that the next fetches use.
    pub fn set_filter(&mut self, filter: String)
        ensures
            final(self)@ == (SharedView { filter: filter@, ..old(self)@ }),
    {
        self.filter = filter;
    }

    /// Takes the part of a foreground command that concerns the shared
    /// state: a new filter.
    pub fn apply_command(&mut self, cmd: &Command)
        ensures
            final(self)@ == old(self)@.after_command(cmd@),
    {
        if let Command::Refilter { filter, .. } = cmd {
            self.set_filter(filter.clone());
        }
    }

    /// What a refresher of `kind` fetches now: its kind, with the current filter.
    pub fn refresh_request(&self, kind: DatasetKind) -> (r: FetchRequest)
        ensures
            r.kind == kind,
            r.filter@ == self@.filter,
    {
        FetchRequest { kind, filter: self.filter.clone() }
    }

    /// Stores a fresh primary snapshot.
    pub fn publish_mm(&mut self, rows: Vec<MmVolumeTask>)
        ensures
            final(self)@ == old(self)@.published(DatasetKind::Primary, mm_rows(rows@)),
    {
        self.mm_cache = rows;
    }

    /// Stores a fresh secondary snapshot.
    pub fn publish_dex(&mut self, rows: Vec<DexVolumeTask>)
        ensures
            final(self)@ == old(self)@.published(DatasetKind::Secondary, dex_rows(rows@)),
    {
        self.dex_cache = rows;
    }
}

/// The pattern that matches every text holding `filter`: `%filter%`, for a
/// `LIKE` test.
pub fn search_pattern(filter: &str) -> (r: String)
    ensures
        r@ == seq!['%'] + filter@ + seq!['%'],
{
    let percent = "%";
    proof {
        reveal_strlit("%");
    }
    let mut r = String::from_str(percent);
    r.append(filter);
    r.append(percent);
    r
}

} // verus!
