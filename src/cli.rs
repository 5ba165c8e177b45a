//! The operator's request, as plain values.
use vstd::prelude::*;

verus! {

/// Command-line arguments for the `revdeprun` CLI.
pub struct Args {
    /// Git URL, local directory, or source package tarball (.tar.gz) for the target R package.
    pub repository: String,
    /// R version to install (e.g., release, 4.3.3, oldrel-1).
    pub r_version: String,
    /// Number of parallel workers for xfun::rev_check().
    pub num_workers: Option<usize>,
    /// Optional workspace directory where temporary files are created.
    pub work_dir: Option<String>,
    /// Skip installing R and reuse the system-wide installation.
    pub skip_r_install: bool,
}

/// Relies on `num_cpus::get`: the number of CPUs available to the process,
/// which its documentation promises is at least one.
#[verifier::external_body]
fn available_cpus() -> (r: usize)
    ensures
        r >= 1,
{
    num_cpus::get()
}

impl Args {
    /// The number of workers: the one requested, else one per available CPU.
    pub fn worker_count(&self) -> (r: usize)
        ensures
            match self.num_workers {
                Some(n) => r == n,
                None => r >= 1,
            },
    {
        match self.num_workers {
            Some(n) => n,
            None => available_cpus(),
        }
    }
}

} // verus!
