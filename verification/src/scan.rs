//! One scan of the tree, as a machine that a driver feeds.
//!
//! The scan never touches the file system. It asks for one thing at a time,
//! the next entry of the traversal or the size of the file it has just
//! selected, and the driver reports back what it found. The first failure
//! that is reported ends the scan, and nothing of what was collected before
//! it survives.

use crate::config::{name_matches, ScanConfig};
use vstd::prelude::*;

verus! {

/// One file of the listing: its base name, without any directory, and its
/// size in bytes.
#[derive(Clone, Debug, PartialEq, Eq)]
pub struct FileEntry {
    pub filename: String,
    pub size: u64,
}

/// A `FileEntry` as contracts see it.
pub struct Listed {
    pub filename: Seq<char>,
    pub size: u64,
}

impl View for FileEntry {
    type V = Listed;

    open spec fn view(&self) -> Listed {
        Listed { filename: self.filename@, size: self.size }
    }
}

/// The listing that a vector of entries stands for, in the same order.
pub open spec fn listed(entries: Seq<FileEntry>) -> Seq<Listed> {
    entries.map_values(|entry: FileEntry| entry@)
}

/// Why a scan was given up.
#[derive(Clone, Copy, Debug, PartialEq, Eq, Structural)]
pub enum ScanError {
    /// The traversal met an entry that it could not read.
    Traversal,
    /// The size of a selected file could not be read.
    Metadata,
}

/// What the driver reports to the scan.
#[derive(Clone, Debug, PartialEq, Eq)]
pub enum Observation {
    /// The traversal reached an entry. `base_name` is the final component of
    /// its path, or `None` where the path has none.
    Entry { is_file: bool, base_name: Option<String> },
    /// The traversal met an entry that it could not read.
    WalkFailed,
    /// The traversal has no more entries.
    WalkEnded,
    /// The size of the selected file, in bytes.
    Size(u64),
    /// The size of the selected file could not be read.
    SizeFailed,
}

/// An `Observation` as contracts see it.
pub enum Report {
    Entry { is_file: bool, base_name: Option<Seq<char>> },
    WalkFailed,
    WalkEnded,
    Size(u64),
    SizeFailed,
}

impl View for Observation {
    type V = Report;

    open spec fn view(&self) -> Report {
        match *self {
            Observation::Entry { is_file, base_name } => Report::Entry {
                is_file,
                base_name: match base_name {
                    Some(name) => Some(name@),
                    None => None,
                },
            },
            Observation::WalkFailed => Report::WalkFailed,
            Observation::WalkEnded => Report::WalkEnded,
            Observation::Size(size) => Report::Size(size),
            Observation::SizeFailed => Report::SizeFailed,
        }
    }
}

/// What the scan asks of the driver next.
#[derive(Clone, Copy, Debug, PartialEq, Eq, Structural)]
pub enum Request {
    /// Advance the traversal and report the entry it reaches.
    NextEntry,
    /// Read the size of the entry reported last.
    FileSize,
    /// Nothing more: the listing is complete.
    Finish,
    /// Nothing more: the scan has failed.
    Abort(ScanError),
}

/// Where a scan stands.
pub enum Stage {
    /// Waiting for the next entry of the traversal.
    Walking,
    /// Waiting for the size of the selected file of this name.
    Measuring(Seq<char>),
    /// The traversal ended and the listing is complete.
    Finished,
    /// The scan was given up.
    Failed(ScanError),
}

/// A scan as contracts see it: the entries collected so far and the stage.
pub struct ScanState {
    pub found: Seq<Listed>,
    pub stage: Stage,
}

/// Whether an entry belongs in the listing: it is a regular file, it has a
/// base name, and the pattern matches somewhere in that name.
pub open spec fn selects(pattern: Seq<char>, is_file: bool, base_name: Option<Seq<char>>) -> bool {
    &&& is_file
    &&& base_name matches Some(name)
    &&& name_matches(pattern, name)
}

/// The state of a scan that has seen nothing yet.
pub open spec fn initial() -> ScanState {
    ScanState { found: Seq::empty(), stage: Stage::Walking }
}

/// The state that a scan in state `state` is in after the driver's `report`.
///
/// While walking, an entry that is selected makes the scan wait for its
/// size, any other entry changes nothing, and the end of the traversal
/// completes the listing. The size of a selected file appends its entry.
/// A failure of either kind ends the scan and empties what it had
/// collected. A report that does not answer the pending request is
/// ignored; so is every report once the scan has finished or failed.
pub open spec fn advance(pattern: Seq<char>, state: ScanState, report: Report) -> ScanState {
    match state.stage {
        Stage::Walking => match report {
            Report::Entry { is_file, base_name } => if selects(pattern, is_file, base_name) {
                ScanState { found: state.found, stage: Stage::Measuring(base_name->0) }
            } else {
                state
            },
            Report::WalkFailed => ScanState {
                found: Seq::empty(),
                stage: Stage::Failed(ScanError::Traversal),
            },
            Report::WalkEnded => ScanState { found: state.found, stage: Stage::Finished },
            _ => state,
        },
        Stage::Measuring(filename) => match report {
            Report::Size(size) => ScanState {
                found: state.found.push(Listed { filename, size }),
                stage: Stage::Walking,
            },
            Report::SizeFailed => ScanState {
                found: Seq::empty(),
                stage: Stage::Failed(ScanError::Metadata),
            },
            _ => state,
        },
        Stage::Finished => state,
        Stage::Failed(_) => state,
    }
}

/// The request that a scan in state `state` is waiting on.
pub open spec fn pending(state: ScanState) -> Request {
    match state.stage {
        Stage::Walking => Request::NextEntry,
        Stage::Measuring(_) => Request::FileSize,
        Stage::Finished => Request::Finish,
        Stage::Failed(error) => Request::Abort(error),
    }
}

enum Phase {
    Walking,
    Measuring(String),
    Finished,
    Failed(ScanError),
}

/// One scan in progress.
pub struct Scan {
    found: Vec<FileEntry>,
    phase: Phase,
}

impl View for Scan {
    type V = ScanState;

    closed spec fn view(&self) -> ScanState {
        ScanState {
            found: listed(self.found@),
            stage: match self.phase {
                Phase::Walking => Stage::Walking,
                Phase::Measuring(name) => Stage::Measuring(name@),
                Phase::Finished => Stage::Finished,
                Phase::Failed(error) => Stage::Failed(error),
            },
        }
    }
}

impl Scan {
    /// Starts a scan: nothing collected, waiting for the first entry.
    pub fn new() -> (scan: Scan)
        ensures
            scan@ == initial(),
    {
        let scan = Scan { found: Vec::new(), phase: Phase::Walking };
        assert(listed(scan.found@) =~= Seq::<Listed>::empty());
        scan
    }

    /// What the scan is waiting on.
    pub fn request(&self) -> (request: Request)
        ensures
            request == pending(self@),
    {
        match &self.phase {
            Phase::Walking => Request::NextEntry,
            Phase::Measuring(_) => Request::FileSize,
            Phase::Finished => Request::Finish,
            Phase::Failed(error) => Request::Abort(*error),
        }
    }

    /// Takes the driver's report, moves the scan on as `advance` says, and
    /// returns what the scan waits on next.
    pub fn step(&mut self, config: &ScanConfig, report: Observation) -> (request: Request)
        ensures
            final(self)@ == advance(config.pattern(), old(self)@, report@),
            request == pending(final(self)@),
    {
        let mut phase = Phase::Walking;
        core::mem::swap(&mut self.phase, &mut phase);
        match phase {
            Phase::Walking => match report {
                Observation::Entry { is_file, base_name } => match base_name {
                    Some(name) => {
                        if is_file && config.matches(name.as_str()) {
                            self.phase = Phase::Measuring(name);
                            Request::FileSize
                        } else {
                            Request::NextEntry
                        }
                    },
                    None => Request::NextEntry,
                },
                Observation::WalkFailed => {
                    self.found.clear();
                    self.phase = Phase::Failed(ScanError::Traversal);
                    assert(listed(self.found@) =~= Seq::<Listed>::empty());
                    Request::Abort(ScanError::Traversal)
                },
                Observation::WalkEnded => {
                    self.phase = Phase::Finished;
                    Request::Finish
                },
                _ => Request::NextEntry,
            },
            Phase::Measuring(filename) => match report {
                Observation::Size(size) => {
                    let ghost before = self.found@;
                    let entry = FileEntry { filename, size };
                    self.found.push(entry);
                    assert(listed(self.found@) =~= listed(before).push(entry@));
                    Request::NextEntry
                },
                Observation::SizeFailed => {
                    self.found.clear();
                    self.phase = Phase::Failed(ScanError::Metadata);
                    assert(listed(self.found@) =~= Seq::<Listed>::empty());
                    Request::Abort(ScanError::Metadata)
                },
                _ => {
                    self.phase = Phase::Measuring(filename);
                    Request::FileSize
                },
            },
            Phase::Finished => {
                self.phase = Phase::Finished;
                Request::Finish
            },
            Phase::Failed(error) => {
                self.phase = Phase::Failed(error);
                Request::Abort(error)
            },
        }
    }

    /// The listing, once the scan has finished: the selected files in the
    /// order in which the traversal reached them. `None` while the scan is
    /// still running and after it has failed.
    pub fn listing(&self) -> (listing: Option<&Vec<FileEntry>>)
        ensures
            listing is Some <==> self@.stage is Finished,
            listing matches Some(entries) ==> listed(entries@) == self@.found,
    {
        match &self.phase {
            Phase::Finished => Some(&self.found),
            _ => None,
        }
    }
}

/// The state of a scan after a sequence of reports, taken in turn from
/// `state`, whatever the driver chose to report.
pub open spec fn run(pattern: Seq<char>, state: ScanState, reports: Seq<Report>) -> ScanState
    decreases reports.len(),
{
    if reports.len() == 0 {
        state
    } else {
        advance(pattern, run(pattern, state, reports.drop_last()), reports.last())
    }
}

/// What holds of a scan at every moment: the pattern matches the name of
/// every entry collected and of the file whose size is awaited, and a scan
/// that failed holds no entry.
pub open spec fn coherent(pattern: Seq<char>, state: ScanState) -> bool {
    &&& forall|j: int|
        0 <= j < state.found.len() ==> name_matches(pattern, #[trigger] state.found[j].filename)
    &&& state.stage matches Stage::Measuring(name) ==> name_matches(pattern, name)
    &&& state.stage is Failed ==> state.found.len() == 0
}

/// Whatever is reported to a scan and in whatever order, the scan stays
/// coherent: it never lists a name that the pattern does not match, and it
/// keeps no partial listing once it has failed.
pub proof fn law_scan_stays_coherent(pattern: Seq<char>, reports: Seq<Report>)
    ensures
        coherent(pattern, run(pattern, initial(), reports)),
    decreases reports.len(),
{
    if reports.len() > 0 {
        law_scan_stays_coherent(pattern, reports.drop_last());
    }
}

/// A scan that has finished or failed stays as it is: no later report
/// changes its listing, revives it or replaces its error.
pub proof fn law_end_is_final(pattern: Seq<char>, state: ScanState, reports: Seq<Report>)
    requires
        state.stage is Finished || state.stage is Failed,
    ensures
        run(pattern, state, reports) == state,
    decreases reports.len(),
{
    if reports.len() > 0 {
        law_end_is_final(pattern, state, reports.drop_last());
    }
}

} // verus!
