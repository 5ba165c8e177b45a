//! The cache monitor's decisions: which directory entries count as staged
//! artifacts, the status line they make, and when the line is shown again.
use vstd::prelude::*;
use vstd::string::StringExecFns;

use crate::text::{chars_of, decimal, decimal_of, same_chars, string_of};

verus! {

broadcast use vstd::string::group_string_axioms;

/// How often the monitor samples, in milliseconds.
pub const POLL_INTERVAL_MS: u64 = 1000;

/// Index files of a package repository: metadata, not artifacts.
pub const EXCLUDED_NAMES: [&'static str; 3] = ["PACKAGES", "PACKAGES.gz", "PACKAGES.rds"];

/// One entry of a sampled directory.
pub struct DirEntry {
    pub name: String,
    /// Whether the entry is a regular file.
    pub is_file: bool,
}

pub open spec fn is_excluded(name: Seq<char>) -> bool {
    name == "PACKAGES"@ || name == "PACKAGES.gz"@ || name == "PACKAGES.rds"@
}

pub open spec fn is_artifact(e: DirEntry) -> bool {
    e.is_file && !is_excluded(e.name@)
}

/// The number of artifacts among `entries`.
pub open spec fn artifacts_in(entries: Seq<DirEntry>) -> nat
    decreases entries.len(),
{
    if entries.len() == 0 {
        0
    } else {
        artifacts_in(entries.drop_last()) + if is_artifact(entries.last()) {
            1nat
        } else {
            0nat
        }
    }
}

/// The artifact count of one sample; a directory that could not be read
/// (`None`: it does not exist yet) counts as empty.
pub open spec fn sample_count(sample: Option<Seq<DirEntry>>) -> nat {
    match sample {
        Some(entries) => artifacts_in(entries),
        None => 0,
    }
}

proof fn lemma_artifacts_bounded(entries: Seq<DirEntry>)
    ensures
        artifacts_in(entries) <= entries.len(),
    decreases entries.len(),
{
    if entries.len() > 0 {
        lemma_artifacts_bounded(entries.drop_last());
    }
}

fn is_excluded_name(name: &String) -> (r: bool)
    ensures
        r == is_excluded(name@),
{
    let n = chars_of(name.as_str());
    let mut i: usize = 0;
    while i < 3
        invariant
            i <= 3,
            n@ == name@,
            forall|k: int| 0 <= k < i ==> n@ != EXCLUDED_NAMES@[k]@,
        decreases 3 - i,
    {
        if same_chars(&n, &chars_of(EXCLUDED_NAMES[i])) {
            assert(EXCLUDED_NAMES@[i as int] == EXCLUDED_NAMES[i as int]);
            return true;
        }
        i += 1;
    }
    assert(EXCLUDED_NAMES@[0] == "PACKAGES");
    assert(EXCLUDED_NAMES@[1] == "PACKAGES.gz");
    assert(EXCLUDED_NAMES@[2] == "PACKAGES.rds");
    false
}

/// Counts the regular files of a sampled directory, leaving out the
/// excluded metadata names.
pub fn count_artifacts(sample: &Option<Vec<DirEntry>>) -> (r: usize)
    ensures
        r == sample_count(
            match sample {
                Some(v) => Some(v@),
                None => None,
            },
        ),
{
    match sample {
        None => 0,
        Some(entries) => {
            let mut count: usize = 0;
            for i in 0..entries.len()
                invariant
                    count == artifacts_in(entries@.subrange(0, i as int)),
            {
                assert(entries@.subrange(0, i + 1).drop_last() =~= entries@.subrange(0, i as int));
                proof {
                    lemma_artifacts_bounded(entries@.subrange(0, i as int));
                }
                if entries[i].is_file && !is_excluded_name(&entries[i].name) {
                    count += 1;
                }
            }
            assert(entries@.subrange(0, entries.len() as int) =~= entries@);
            count
        },
    }
}

/// The status line for `label` with `count` artifacts staged.
pub open spec fn status_text(label: Seq<char>, count: nat) -> Seq<char> {
    label + " ("@ + decimal(count) + " packages staged)"@
}

/// Formats the monitor's status line.
pub fn status_message(label: &str, count: usize) -> (r: String)
    ensures
        r@ == status_text(label@, count as nat),
{
    let mut s = String::from_str(label);
    s.append(" (");
    s.append(string_of(&decimal_of(count as u64)).as_str());
    s.append(" packages staged)");
    s
}

/// The status line last shown by a monitor.
pub struct MonitorState {
    pub shown: Option<String>,
}

impl MonitorState {
    pub fn new() -> (r: MonitorState)
        ensures
            r.shown is None,
    {
        MonitorState { shown: None }
    }

    /// Takes a freshly computed line; returns it when the task should show
    /// it, which is exactly when it differs from the line shown last.
    pub fn observe(&mut self, line: String) -> (r: Option<String>)
        ensures
            match old(self).shown {
                Some(s) if s@ == line@ => r is None && final(self).shown == old(self).shown,
                _ => r == Some(line) && final(self).shown == Some(line),
            },
    {
        let changed = match &self.shown {
            Some(s) => !same_chars(&chars_of(s.as_str()), &chars_of(line.as_str())),
            None => true,
        };
        if changed {
            self.shown = Some(line.clone());
            Some(line)
        } else {
            None
        }
    }
}

} // verus!
