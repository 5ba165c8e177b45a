//! Job descriptors and what becomes of a phase once its process has run:
//! the outcome it is classified as, and the diagnostics forwarded from its
//! captured streams.
use vstd::prelude::*;
use vstd::string::StringExecFns;
use vstd::utf8::{decode_utf8, valid_utf8};

use crate::scripts::{
    build_revdep_install_script, build_revdep_run_script, build_sysreqs_script,
    install_script_text, run_script_text, sysreqs_script_text,
};
use crate::text::{chars_of, string_of, trim, trim_of};
use crate::util::{max_connections, optimal_max_connections};

verus! {

broadcast use vstd::string::group_string_axioms;

/// The phases of a run, in the order they run.
#[derive(Clone, Copy, PartialEq, Eq, Structural, Debug)]
pub enum Phase {
    /// Resolves the system requirements of the reverse dependencies.
    Setup,
    /// Installs the package and its reverse dependencies.
    Prepare,
    /// Runs the reverse dependency check.
    Run,
}

/// Facts about the machine and the package, gathered once at the start.
pub struct EnvironmentFacts {
    /// The package's name, from its manifest.
    pub package_name: String,
    /// The release codename of the Ubuntu host.
    pub ubuntu_codename: String,
}

/// One phase's job: the script to run, where to run it, and the connection
/// limit passed to `Rscript`, if any.
pub struct JobDescriptor {
    pub phase: Phase,
    pub payload: String,
    pub working_directory: String,
    pub max_connections: Option<usize>,
}

/// Builds the job of `phase` for the repository at `repo_path`.
pub fn build_job(
    phase: Phase,
    repo_path: &str,
    worker_count: usize,
    facts: &EnvironmentFacts,
) -> (job: JobDescriptor)
    ensures
        job.phase == phase,
        job.working_directory@ == repo_path@,
        job.payload@ == match phase {
            Phase::Setup => sysreqs_script_text(facts.package_name@, worker_count as int),
            Phase::Prepare => install_script_text(
                repo_path@,
                worker_count as int,
                facts.ubuntu_codename@,
            ),
            Phase::Run => run_script_text(repo_path@, worker_count as int),
        },
        job.max_connections == match phase {
            Phase::Setup => None,
            _ => Some(max_connections(worker_count as int) as usize),
        },
{
    let payload = match phase {
        Phase::Setup => build_sysreqs_script(facts.package_name.as_str(), worker_count),
        Phase::Prepare => build_revdep_install_script(
            repo_path,
            worker_count,
            facts.ubuntu_codename.as_str(),
        ),
        Phase::Run => build_revdep_run_script(repo_path, worker_count),
    };
    let max_connections = match phase {
        Phase::Setup => None,
        _ => Some(optimal_max_connections(worker_count)),
    };
    JobDescriptor { phase, payload, working_directory: String::from_str(repo_path), max_connections }
}

impl JobDescriptor {
    /// The arguments for `Rscript` once the payload is written to
    /// `script_path`: `--vanilla`, the connection limit when there is one,
    /// then the script.
    pub fn rscript_args(&self, script_path: &str) -> (r: Vec<String>)
        ensures
            r@.len() == if self.max_connections is Some {
                3int
            } else {
                2int
            },
            r@[0]@ == "--vanilla"@,
            r@.last()@ == script_path@,
            self.max_connections matches Some(n) ==> r@[1]@ == "--max-connections="@
                + crate::text::decimal(n as nat),
    {
        let mut args: Vec<String> = Vec::new();
        args.push(String::from_str("--vanilla"));
        match self.max_connections {
            Some(n) => {
                let mut flag = String::from_str("--max-connections=");
                flag.append(string_of(&crate::text::decimal_of(n as u64)).as_str());
                args.push(flag);
            },
            None => {},
        }
        args.push(String::from_str(script_path));
        args
    }
}

/// How a phase ended.
#[derive(PartialEq, Eq, Debug)]
pub enum PhaseOutcome {
    Succeeded,
    /// The process ran and exited with a failure; the code, when it has one.
    FailedWithStatus(Option<i32>),
    /// The process could not be started; the system's reason.
    FailedToLaunch(String),
}

impl PhaseOutcome {
    /// Classifies a process that ran by its exit code (none when a signal
    /// ended it): only code 0 is success.
    pub fn from_exit(code: Option<i32>) -> (r: PhaseOutcome)
        ensures
            r == (if code == Some(0i32) {
                PhaseOutcome::Succeeded
            } else {
                PhaseOutcome::FailedWithStatus(code)
            }),
    {
        match code {
            Some(0) => PhaseOutcome::Succeeded,
            _ => PhaseOutcome::FailedWithStatus(code),
        }
    }

    pub fn is_success(&self) -> (r: bool)
        ensures
            r == (*self is Succeeded),
    {
        matches!(self, PhaseOutcome::Succeeded)
    }
}

/// What `String::from_utf8_lossy` makes of `bytes`.
pub uninterp spec fn lossy_text(bytes: Seq<u8>) -> Seq<char>;

/// Relies on `String::from_utf8_lossy`: valid UTF-8 is decoded as it is,
/// other bytes get replacement characters; the result depends on the bytes
/// alone.
#[verifier::external_body]
fn utf8_lossy(bytes: &[u8]) -> (r: String)
    ensures
        r@ == lossy_text(bytes@),
        valid_utf8(bytes@) ==> r@ == decode_utf8(bytes@),
{
    String::from_utf8_lossy(bytes).into_owned()
}

/// The diagnostic line for one captured stream: none when the stream holds
/// nothing but white space.
pub open spec fn stream_report_text(label: Seq<char>, stream: Seq<char>, bytes: Seq<u8>) -> Option<
    Seq<char>,
> {
    let t = trim(lossy_text(bytes));
    if bytes.len() == 0 || t.len() == 0 {
        None
    } else {
        Some(label + " "@ + stream + ":\n"@ + t)
    }
}

/// Formats one captured stream for the operator.
pub fn stream_report(label: &str, stream: &str, bytes: &[u8]) -> (r: Option<String>)
    ensures
        (match r {
            Some(s) => Some(s@),
            None => None,
        }) == stream_report_text(label@, stream@, bytes@),
{
    if bytes.len() == 0 {
        return None;
    }
    let text = utf8_lossy(bytes);
    let t = trim_of(&chars_of(text.as_str()));
    if t.len() == 0 {
        return None;
    }
    let mut s = String::from_str(label);
    s.append(" ");
    s.append(stream);
    s.append(":\n");
    s.append(string_of(&t).as_str());
    Some(s)
}

/// The diagnostics forwarded for a failed command: its stdout, then its
/// stderr, each only when it holds something.
pub fn command_diagnostics(label: &str, stdout: &[u8], stderr: &[u8]) -> (r: Vec<String>)
    ensures
        r@.map_values(|s: String| s@) == (match stream_report_text(label@, "stdout"@, stdout@) {
            Some(t) => seq![t],
            None => Seq::empty(),
        }) + (match stream_report_text(label@, "stderr"@, stderr@) {
            Some(t) => seq![t],
            None => Seq::empty(),
        }),
{
    let mut r: Vec<String> = Vec::new();
    match stream_report(label, "stdout", stdout) {
        Some(s) => r.push(s),
        None => {},
    }
    let ghost first = r@.map_values(|s: String| s@);
    match stream_report(label, "stderr", stderr) {
        Some(s) => r.push(s),
        None => {},
    }
    assert(r@.map_values(|s: String| s@) =~= first + (match stream_report_text(
        label@,
        "stderr"@,
        stderr@,
    ) {
        Some(t) => seq![t],
        None => Seq::empty(),
    }));
    r
}

} // verus!
