use vstd::prelude::*;
use crate::config::{Config, ConfigView};
use crate::dialect::{opt_string_view, same_text};

verus! {

/// The size from which a file without an index draws an advisory.
pub const NO_INDEX_WARNING_FILESIZE: u64 = 100_000_000;

/// The companion index of a data file: its path with `.idx` appended.
pub open spec fn companion_of(p: Seq<char>) -> Seq<char> {
    p + ".idx"@
}

/// The path of the companion index of the data file `p`.
pub fn companion_path(p: &str) -> (r: String)
    ensures
        r@ == companion_of(p@),
{
    let mut r = String::from_str(p);
    r.append(".idx");
    r
}

/// Records, once in a process, the data file whose index was built automatically;
/// that index is trusted to be fresh from then on.
#[derive(Debug)]
pub struct AutoIndexFlag {
    indexed: Option<String>,
}

impl View for AutoIndexFlag {
    type V = Option<Seq<char>>;

    closed spec fn view(&self) -> Option<Seq<char>> {
        opt_string_view(self.indexed)
    }
}

impl AutoIndexFlag {
    pub fn new() -> (r: AutoIndexFlag)
        ensures
            r@ is None,
    {
        AutoIndexFlag { indexed: None }
    }

    /// Whether the flag was set, by the data file `p`.
    pub fn is_set_for(&self, p: &str) -> (r: bool)
        ensures
            r == (self@ == Some(p@)),
    {
        match &self.indexed {
            Some(q) => same_text(q.as_str(), p),
            None => false,
        }
    }

    /// Sets the flag for the data file `p`, unless it is set already.
    pub fn record(&mut self, p: &str)
        ensures
            final(self)@ == recorded(old(self)@, p@),
    {
        if self.indexed.is_none() {
            self.indexed = Some(String::from_str(p));
        }
    }
}

pub open spec fn recorded(flag: Option<Seq<char>>, p: Seq<char>) -> Option<Seq<char>> {
    match flag {
        Some(q) => Some(q),
        None => Some(p),
    }
}

/// Which index file a pair is opened with.
#[derive(Clone, Copy, Debug, PartialEq, Eq, Structural)]
pub enum IndexFile {
    /// The one set in the configuration.
    Explicit,
    /// The one beside the data file.
    Companion,
}

/// Where the discovery of an index stands.
#[derive(Clone, Copy, Debug, PartialEq, Eq, Structural)]
pub enum IndexPhase {
    /// Waiting for the size and modification time of the data file.
    AwaitStat,
    /// Waiting to learn whether the companion index exists, and when it was changed.
    AwaitProbe { size: u64, modified: u64 },
    /// Waiting for the companion index to be built.
    AwaitBuild,
    Finished,
}

/// What the caller observed after performing the last action.
#[derive(Clone, Copy, Debug, PartialEq, Eq, Structural)]
pub enum IndexEvent {
    DataStat { size: u64, modified: u64 },
    CompanionMissing,
    CompanionFound { modified: u64 },
    /// The creation procedure ended, successfully where `ok` holds.
    Built { ok: bool },
}

/// What the caller is to do next.
#[derive(Clone, Copy, Debug, PartialEq, Eq, Structural)]
pub enum IndexAction {
    /// Open the data file and the given index, and hand both out; a failure to open
    /// either is an error.
    OpenPair(IndexFile),
    /// Read the size and modification time of the data file; a failure is an error.
    StatData,
    /// Try to open the companion index and read when it was last changed.
    ProbeCompanion,
    /// Run the creation procedure on the companion index.
    Build,
    /// Open the data file, a failure being an error, and the index just built, a
    /// failure leaving no index.
    OpenRebuilt,
    /// Hand out no index, after an advisory where `advise` holds.
    NoIndex { advise: bool },
    /// Fail: standard input cannot be indexed.
    RejectStdin,
}

/// The first step of discovery.
pub open spec fn start_spec(c: ConfigView, flag: Option<Seq<char>>) -> (IndexPhase, IndexAction) {
    match (c.path, c.index_path) {
        (None, None) => (IndexPhase::Finished, IndexAction::NoIndex { advise: false }),
        (None, Some(_)) => (IndexPhase::Finished, IndexAction::RejectStdin),
        (Some(_), Some(_)) => (IndexPhase::Finished, IndexAction::OpenPair(IndexFile::Explicit)),
        (Some(p), None) => if flag == Some(p) {
            (IndexPhase::Finished, IndexAction::OpenPair(IndexFile::Companion))
        } else {
            (IndexPhase::AwaitStat, IndexAction::StatData)
        },
    }
}

/// The step of discovery that follows `event` in `phase`. An event that the phase
/// does not wait for ends discovery with no index.
pub open spec fn next_spec(c: ConfigView, phase: IndexPhase, event: IndexEvent) -> (
    IndexPhase,
    IndexAction,
) {
    let none = (IndexPhase::Finished, IndexAction::NoIndex { advise: false });
    match phase {
        IndexPhase::AwaitStat => match event {
            IndexEvent::DataStat { size, modified } => (
                IndexPhase::AwaitProbe { size, modified },
                IndexAction::ProbeCompanion,
            ),
            _ => none,
        },
        IndexPhase::AwaitProbe { size, modified } => match event {
            IndexEvent::CompanionMissing => if c.compressed {
                none
            } else if c.autoindex_size > 0 && size >= c.autoindex_size {
                (IndexPhase::AwaitBuild, IndexAction::Build)
            } else if size >= NO_INDEX_WARNING_FILESIZE {
                (IndexPhase::Finished, IndexAction::NoIndex { advise: true })
            } else {
                none
            },
            IndexEvent::CompanionFound { modified: index_modified } => if modified > index_modified {
                (IndexPhase::AwaitBuild, IndexAction::Build)
            } else {
                (IndexPhase::Finished, IndexAction::OpenPair(IndexFile::Companion))
            },
            _ => none,
        },
        IndexPhase::AwaitBuild => match event {
            IndexEvent::Built { ok } => if ok {
                (IndexPhase::Finished, IndexAction::OpenRebuilt)
            } else {
                none
            },
            _ => none,
        },
        IndexPhase::Finished => none,
    }
}

/// The flag after `event` in `phase`: a successful build records the data file.
pub open spec fn flag_after(
    c: ConfigView,
    flag: Option<Seq<char>>,
    phase: IndexPhase,
    event: IndexEvent,
) -> Option<Seq<char>> {
    if phase == IndexPhase::AwaitBuild && event == (IndexEvent::Built { ok: true }) && c.path is Some {
        recorded(flag, c.path->Some_0)
    } else {
        flag
    }
}

/// A data file of size `size` at or above a positive threshold, with no companion
/// index, gets one built and handed out; the flag then records the file, and the
/// next discovery in the process opens the pair at once, without reading metadata.
pub proof fn lemma_auto_index_then_short_circuit(
    c: ConfigView,
    flag: Option<Seq<char>>,
    size: u64,
    modified: u64,
)
    requires
        c.path is Some,
        c.index_path is None,
        !c.compressed,
        0 < c.autoindex_size <= size,
        flag is None,
    ensures
        ({
            let s0 = start_spec(c, flag);
            let s1 = next_spec(c, s0.0, IndexEvent::DataStat { size, modified });
            let s2 = next_spec(c, s1.0, IndexEvent::CompanionMissing);
            let s3 = next_spec(c, s2.0, IndexEvent::Built { ok: true });
            let f3 = flag_after(c, flag, s2.0, IndexEvent::Built { ok: true });
            &&& s0.1 == IndexAction::StatData
            &&& s1.1 == IndexAction::ProbeCompanion
            &&& s2.1 == IndexAction::Build
            &&& s3.1 == IndexAction::OpenRebuilt
            &&& f3 == c.path
            &&& start_spec(c, f3) == (
                IndexPhase::Finished,
                IndexAction::OpenPair(IndexFile::Companion),
            )
        }),
{
}

/// A companion index older than its data file is rebuilt, and the rebuilt index is
/// handed out; one not older is handed out as it is.
pub proof fn lemma_stale_index_rebuilt(c: ConfigView, size: u64, modified: u64, index_modified: u64)
    ensures
        ({
            let p = IndexPhase::AwaitProbe { size, modified };
            let s = next_spec(c, p, IndexEvent::CompanionFound { modified: index_modified });
            &&& index_modified < modified ==> s == (IndexPhase::AwaitBuild, IndexAction::Build)
                && next_spec(c, s.0, IndexEvent::Built { ok: true }).1 == IndexAction::OpenRebuilt
            &&& index_modified >= modified ==> s == (
                IndexPhase::Finished,
                IndexAction::OpenPair(IndexFile::Companion),
            )
        }),
{
}

/// With automatic indexing off, a file under the advisory size and without an index
/// gets none, nothing built and no advisory.
pub proof fn lemma_small_file_no_index(c: ConfigView, size: u64, modified: u64)
    requires
        c.autoindex_size == 0,
        size < NO_INDEX_WARNING_FILESIZE,
    ensures
        next_spec(c, IndexPhase::AwaitProbe { size, modified }, IndexEvent::CompanionMissing) == (
            IndexPhase::Finished,
            IndexAction::NoIndex { advise: false },
        ),
{
}

/// With automatic indexing off, an uncompressed file at or above the advisory size
/// and without an index gets none and one advisory, and discovery ends there.
pub proof fn lemma_large_file_advisory(c: ConfigView, size: u64, modified: u64)
    requires
        c.autoindex_size == 0,
        !c.compressed,
        size >= NO_INDEX_WARNING_FILESIZE,
    ensures
        next_spec(c, IndexPhase::AwaitProbe { size, modified }, IndexEvent::CompanionMissing) == (
            IndexPhase::Finished,
            IndexAction::NoIndex { advise: true },
        ),
{
}

/// Standard input with an explicit index path is an error, not a missing index,
/// whatever the flag holds.
pub proof fn lemma_stdin_with_index_rejected(c: ConfigView, flag: Option<Seq<char>>)
    requires
        c.path is None,
        c.index_path is Some,
    ensures
        start_spec(c, flag) == (IndexPhase::Finished, IndexAction::RejectStdin),
{
}

impl Config {
    /// Starts the discovery of this configuration's index.
    pub fn discover_start(&self, flag: &AutoIndexFlag) -> (r: (IndexPhase, IndexAction))
        ensures
            r == start_spec(self@, flag@),
    {
        let explicit = self.get_index_path();
        match self.get_path() {
            None => {
                if explicit.is_none() {
                    (IndexPhase::Finished, IndexAction::NoIndex { advise: false })
                } else {
                    (IndexPhase::Finished, IndexAction::RejectStdin)
                }
            },
            Some(p) => {
                if explicit.is_some() {
                    (IndexPhase::Finished, IndexAction::OpenPair(IndexFile::Explicit))
                } else if flag.is_set_for(p.as_str()) {
                    (IndexPhase::Finished, IndexAction::OpenPair(IndexFile::Companion))
                } else {
                    (IndexPhase::AwaitStat, IndexAction::StatData)
                }
            },
        }
    }

    /// Takes discovery one step on from `phase`, given what the caller observed.
    pub fn discover_next(&self, flag: &mut AutoIndexFlag, phase: IndexPhase, event: IndexEvent) -> (r: (
        IndexPhase,
        IndexAction,
    ))
        ensures
            r == next_spec(self@, phase, event),
            final(flag)@ == flag_after(self@, old(flag)@, phase, event),
    {
        let none = (IndexPhase::Finished, IndexAction::NoIndex { advise: false });
        match phase {
            IndexPhase::AwaitStat => match event {
                IndexEvent::DataStat { size, modified } => (
                    IndexPhase::AwaitProbe { size, modified },
                    IndexAction::ProbeCompanion,
                ),
                _ => none,
            },
            IndexPhase::AwaitProbe { size, modified } => match event {
                IndexEvent::CompanionMissing => {
                    let threshold = self.get_autoindex_size();
                    if self.is_compressed() {
                        none
                    } else if threshold > 0 && size >= threshold {
                        (IndexPhase::AwaitBuild, IndexAction::Build)
                    } else if size >= NO_INDEX_WARNING_FILESIZE {
                        (IndexPhase::Finished, IndexAction::NoIndex { advise: true })
                    } else {
                        none
                    }
                },
                IndexEvent::CompanionFound { modified: index_modified } => {
                    if modified > index_modified {
                        (IndexPhase::AwaitBuild, IndexAction::Build)
                    } else {
                        (IndexPhase::Finished, IndexAction::OpenPair(IndexFile::Companion))
                    }
                },
                _ => none,
            },
            IndexPhase::AwaitBuild => match event {
                IndexEvent::Built { ok } => {
                    if ok {
                        if let Some(p) = self.get_path() {
                            flag.record(p.as_str());
                        }
                        (IndexPhase::Finished, IndexAction::OpenRebuilt)
                    } else {
                        none
                    }
                },
                _ => none,
            },
            IndexPhase::Finished => none,
        }
    }

    /// The index file that `which` names for this configuration, where there is one.
    pub fn index_file_path(&self, which: IndexFile) -> (r: Option<String>)
        ensures
            opt_string_view(r) == (match which {
                IndexFile::Explicit => self@.index_path,
                IndexFile::Companion => match self@.path {
                    Some(p) => Some(companion_of(p)),
                    None => None,
                },
            }),
    {
        match which {
            IndexFile::Explicit => self.get_index_path(),
            IndexFile::Companion => match self.get_path() {
                Some(p) => Some(companion_path(p.as_str())),
                None => None,
            },
        }
    }

    /// The index that the creation procedure builds: none for a compressed stream
    /// or for standard input, else the companion of the data file.
    pub fn autoindex_target(&self) -> (r: Option<String>)
        ensures
            opt_string_view(r) == (if self@.compressed || self@.path is None {
                None
            } else {
                Some(companion_of(self@.path->Some_0))
            }),
    {
        if self.is_compressed() {
            return None;
        }
        match self.get_path() {
            Some(p) => Some(companion_path(p.as_str())),
            None => None,
        }
    }
}

} // verus!
