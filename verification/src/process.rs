use crate::error::{outcome, ErrorKind, ErrorView};
use vstd::prelude::*;

verus! {

/// Identifier that the operating system gives to a live process.
#[derive(Clone, Copy, Debug, PartialEq, Eq, Structural)]
pub struct Pid {
    pub raw: i32,
}

impl Pid {
    /// Wraps a raw process number.
    pub fn from_raw(raw: i32) -> (pid: Pid)
        ensures
            pid == (Pid { raw }),
    {
        Pid { raw }
    }

    /// The raw process number.
    pub fn as_raw(self) -> (raw: i32)
        ensures
            raw == self.raw,
    {
        self.raw
    }
}

/// What `std::path::Path::file_name` gives for a path, read as text: the
/// final component, extension included, or nothing where the path has no
/// final component.
pub uninterp spec fn file_name(path: Seq<char>) -> Option<Seq<char>>;

/// Calls `std::path::Path::file_name` on `path`. The contract only names the
/// result: the final component that the standard library finds, as text,
/// and `None` exactly where it finds none.
#[verifier::external_body]
fn path_file_name(path: &str) -> (name: Option<String>)
    ensures
        match name {
            Some(text) => file_name(path@) == Some(text@),
            None => file_name(path@) is None,
        },
{
    std::path::Path::new(path).file_name().map(|name| name.to_string_lossy().into_owned())
}

/// One row of a process table: a live process and the base name of its
/// executable, where that could be told.
#[derive(Debug, PartialEq, Eq)]
pub struct ProcessEntry {
    pub pid: Pid,
    pub name: Option<String>,
}

impl ProcessEntry {
    /// The base name of the executable, as text.
    pub open spec fn base_name(&self) -> Option<Seq<char>> {
        match self.name {
            Some(name) => Some(name@),
            None => None,
        }
    }

    /// Whether this process runs the executable called `name`.
    pub open spec fn runs(&self, name: Seq<char>) -> bool {
        self.base_name() == Some(name)
    }

    /// The row for process `pid` whose executable lies at `exe`; `None` for a
    /// process whose executable cannot be told. The row is named by the
    /// final component of the path, and has no name where there is none.
    pub fn new(pid: Pid, exe: Option<&str>) -> (entry: ProcessEntry)
        ensures
            entry.pid == pid,
            entry.base_name() == match exe {
                Some(path) => file_name(path@),
                None => None,
            },
    {
        let name = match exe {
            Some(path) => path_file_name(path),
            None => None,
        };
        ProcessEntry { pid, name }
    }
}

/// The identifier of the first of `entries` that runs `name`.
pub open spec fn first_running(entries: Seq<ProcessEntry>, name: Seq<char>) -> Option<Pid>
    decreases entries.len(),
{
    if entries.len() == 0 {
        None
    } else if entries[0].runs(name) {
        Some(entries[0].pid)
    } else {
        first_running(entries.drop_first(), name)
    }
}

/// A lookup returns the identifier of the first entry whose executable base
/// name equals `name`, and nothing when no entry matches.
pub proof fn lemma_first_running(entries: Seq<ProcessEntry>, name: Seq<char>)
    ensures
        match first_running(entries, name) {
            Some(pid) => exists|i: int|
                0 <= i < entries.len() && #[trigger] entries[i].runs(name) && entries[i].pid == pid
                    && forall|j: int| 0 <= j < i ==> !#[trigger] entries[j].runs(name),
            None => forall|i: int| 0 <= i < entries.len() ==> !#[trigger] entries[i].runs(name),
        },
    decreases entries.len(),
{
    if entries.len() == 0 {
    } else if entries[0].runs(name) {
        assert(forall|j: int| 0 <= j < 0 ==> !#[trigger] entries[j].runs(name));
    } else {
        let rest = entries.drop_first();
        lemma_first_running(rest, name);
        assert(forall|i: int| 0 <= i < rest.len() ==> rest[i] == entries[i + 1]);
        match first_running(rest, name) {
            Some(pid) => {
                let i = choose|i: int|
                    0 <= i < rest.len() && #[trigger] rest[i].runs(name) && rest[i].pid == pid
                        && forall|j: int| 0 <= j < i ==> !#[trigger] rest[j].runs(name);
                assert forall|j: int| 0 <= j < i + 1 implies !#[trigger] entries[j].runs(name) by {
                    if j > 0 {
                        assert(rest[j - 1] == entries[j]);
                    }
                }
                assert(entries[i + 1].runs(name) && entries[i + 1].pid == pid);
            },
            None => {
                assert forall|i: int| 0 <= i < entries.len() implies !#[trigger] entries[i].runs(
                    name,
                ) by {
                    if i > 0 {
                        assert(rest[i - 1] == entries[i]);
                    }
                }
            },
        }
    }
}

/// No entry before the first match matters: where none of the first `skip`
/// entries runs `name`, the lookup is that of the entries behind them.
proof fn lemma_first_running_skip(entries: Seq<ProcessEntry>, name: Seq<char>, skip: int)
    requires
        0 <= skip <= entries.len(),
        forall|j: int| 0 <= j < skip ==> !#[trigger] entries[j].runs(name),
    ensures
        first_running(entries, name) == first_running(entries.skip(skip), name),
    decreases skip,
{
    if skip == 0 {
        assert(entries.skip(0) =~= entries);
    } else {
        let rest = entries.drop_first();
        assert(forall|j: int| 0 <= j < rest.len() ==> rest[j] == entries[j + 1]);
        lemma_first_running_skip(rest, name, skip - 1);
        assert(rest.skip(skip - 1) =~= entries.skip(skip));
    }
}

/// A point-in-time reading of the operating system's process table. It is
/// either whole or unavailable: a table of which any part could not be read
/// counts as not read.
#[derive(Debug, PartialEq, Eq)]
pub enum ProcessTable {
    /// The table could not be read.
    Unavailable,
    /// The live processes, in the order in which the system listed them.
    Listed(Vec<ProcessEntry>),
}

impl ProcessTable {
    /// What a lookup of `name` in this reading gives.
    pub open spec fn lookup(&self, name: Seq<char>) -> Result<Option<Pid>, ErrorView> {
        match self {
            ProcessTable::Unavailable => Err(ErrorView::ProcListErr),
            ProcessTable::Listed(entries) => Ok(first_running(entries@, name)),
        }
    }

    /// The reading that lists nothing yet.
    pub fn new() -> (table: ProcessTable)
        ensures
            table matches ProcessTable::Listed(entries) && entries@.len() == 0,
    {
        ProcessTable::Listed(Vec::new())
    }

    /// Adds the next row to a reading: `None` stands for a row that the
    /// system listed and that could not be read. A reading with such a row
    /// is no reading: the table is unavailable from then on.
    pub fn record(self, row: Option<ProcessEntry>) -> (table: ProcessTable)
        ensures
            match (self, row) {
                (ProcessTable::Listed(before), Some(entry)) => table matches ProcessTable::Listed(
                    entries,
                ) && entries@ == before@.push(entry),
                _ => table is Unavailable,
            },
    {
        match self {
            ProcessTable::Listed(mut entries) => match row {
                Some(entry) => {
                    entries.push(entry);
                    ProcessTable::Listed(entries)
                },
                None => ProcessTable::Unavailable,
            },
            ProcessTable::Unavailable => ProcessTable::Unavailable,
        }
    }

    /// Whether this reading lists a process that runs `name`.
    pub open spec fn shows(&self, name: Seq<char>) -> bool {
        self matches ProcessTable::Listed(entries) && exists|i: int|
            0 <= i < entries@.len() && (#[trigger] entries@[i]).runs(name)
    }

    /// Whether this reading was made and lists no process that runs `name`.
    pub open spec fn lists_none(&self, name: Seq<char>) -> bool {
        self matches ProcessTable::Listed(entries) && forall|i: int|
            0 <= i < entries@.len() ==> !(#[trigger] entries@[i]).runs(name)
    }

    /// A lookup finds a process exactly in a reading that lists one, finds
    /// nothing exactly in a reading that lists none, and fails exactly on a
    /// reading that was not made.
    pub proof fn lemma_lookup(&self, name: Seq<char>)
        ensures
            self.shows(name) <==> self.lookup(name) matches Ok(Some(_)),
            self.lists_none(name) <==> self.lookup(name) == Ok::<Option<Pid>, ErrorView>(None),
            self is Unavailable <==> self.lookup(name) is Err,
    {
        match self {
            ProcessTable::Listed(entries) => {
                lemma_first_running(entries@, name);
            },
            ProcessTable::Unavailable => {},
        }
    }
}

/// Looks for a running process by the base name of its executable: the
/// identifier of the first entry of `table` that runs `bin`, nothing when no
/// entry does, and an error when the table could not be read.
pub fn pgrep(table: &ProcessTable, bin: &str) -> (found: Result<Option<Pid>, ErrorKind>)
    ensures
        outcome(found) == table.lookup(bin@),
{
    match table {
        ProcessTable::Unavailable => Err(ErrorKind::ProcListErr),
        ProcessTable::Listed(entries) => {
            let wanted = bin.to_owned();
            let mut i: usize = 0;
            while i < entries.len()
                invariant
                    i <= entries.len(),
                    wanted@ == bin@,
                    *table == ProcessTable::Listed(*entries),
                    forall|j: int| 0 <= j < i ==> !#[trigger] entries@[j].runs(bin@),
                decreases entries.len() - i,
            {
                let entry = &entries[i];
                let hit = match &entry.name {
                    Some(name) => *name == wanted,
                    None => false,
                };
                if hit {
                    proof {
                        lemma_first_running_skip(entries@, bin@, i as int);
                        assert(entries@.skip(i as int)[0] == entries@[i as int]);
                    }
                    return Ok(Some(entry.pid));
                }
                i += 1;
            }
            proof {
                lemma_first_running_skip(entries@, bin@, entries@.len() as int);
            }
            Ok(None)
        },
    }
}

} // verus!
