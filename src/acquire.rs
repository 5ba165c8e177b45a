//! Repository acquisition as a state machine. The caller performs each
//! [`Action`] (probing the filesystem, running `tar` or `git`) and hands back
//! the [`Event`] it observed; every decision is taken here. An existing
//! directory is used in place, a `.tar.gz` archive is extracted under the
//! temporary directory, anything else is cloned under the clone root.
use vstd::prelude::*;
use vstd::string::StringExecFns;

use crate::revdep::{
    is_tarball, is_tarball_path, locate_package_root, package_dirs, package_root,
    PackageListing, RootError,
};
use crate::util::{guess_repo_name, repo_name};
use crate::workspace::{join_path, joined, Workspace};

verus! {

broadcast use vstd::string::group_string_axioms;

/// An external command to run with its output captured.
pub struct Command {
    pub program: String,
    pub args: Vec<String>,
    /// How diagnostics name the command.
    pub label: String,
    /// Whether the live display is suspended while it runs.
    pub suspend_display: bool,
}

pub open spec fn strings_view(v: Seq<String>) -> Seq<Seq<char>> {
    v.map_values(|s: String| s@)
}

impl Command {
    pub open spec fn view(&self) -> (Seq<char>, Seq<Seq<char>>, Seq<char>, bool) {
        (self.program@, strings_view(self.args@), self.label@, self.suspend_display)
    }
}

/// `tar -xzf <archive> -C <dir>`.
pub open spec fn extract_command(archive: Seq<char>, dir: Seq<char>) -> (
    Seq<char>,
    Seq<Seq<char>>,
    Seq<char>,
    bool,
) {
    (
        "tar"@,
        seq!["-xzf"@, archive, "-C"@, dir],
        "tar -xzf "@ + archive + " -C "@ + dir,
        true,
    )
}

/// `git clone --depth 1 <locator> <destination>`.
pub open spec fn clone_command(locator: Seq<char>, destination: Seq<char>) -> (
    Seq<char>,
    Seq<Seq<char>>,
    Seq<char>,
    bool,
) {
    (
        "git"@,
        seq!["clone"@, "--depth"@, "1"@, locator, destination],
        "git clone "@ + locator,
        false,
    )
}

fn extract(archive: &String, dir: &String) -> (c: Command)
    ensures
        c@ == extract_command(archive@, dir@),
{
    let mut args: Vec<String> = Vec::new();
    args.push(String::from_str("-xzf"));
    args.push(archive.clone());
    args.push(String::from_str("-C"));
    args.push(dir.clone());
    let mut label = String::from_str("tar -xzf ");
    label.append(archive.as_str());
    label.append(" -C ");
    label.append(dir.as_str());
    let c = Command { program: String::from_str("tar"), args, label, suspend_display: true };
    assert(strings_view(c.args@) =~= seq!["-xzf"@, archive@, "-C"@, dir@]);
    c
}

fn clone_into(locator: &String, destination: &String) -> (c: Command)
    ensures
        c@ == clone_command(locator@, destination@),
{
    let mut args: Vec<String> = Vec::new();
    args.push(String::from_str("clone"));
    args.push(String::from_str("--depth"));
    args.push(String::from_str("1"));
    args.push(locator.clone());
    args.push(destination.clone());
    let mut label = String::from_str("git clone ");
    label.append(locator.as_str());
    let c = Command { program: String::from_str("git"), args, label, suspend_display: false };
    assert(strings_view(c.args@) =~= seq!["clone"@, "--depth"@, "1"@, locator@, destination@]);
    c
}

/// Why acquisition failed.
#[derive(PartialEq, Eq, Debug)]
pub enum AcquireError {
    /// An existing file that is not a `.tar.gz` archive.
    UnsupportedLocalFile(String),
    /// An existing path that is neither a file nor a directory.
    UnsupportedInput(String),
    /// The path could not be made canonical.
    Unresolvable(String),
    /// No extraction directory could be made for the archive.
    NoExtractionDir(String),
    /// `tar` could not be started for the archive.
    ExtractNotStarted(String),
    /// `tar` failed on the archive.
    ExtractFailed(String),
    /// The extracted contents of the archive could not be read.
    UnreadableContents(String),
    /// The archive holds no manifest.
    NoManifest(String),
    /// The archive holds several package roots; they are listed.
    AmbiguousLayout(String, Vec<String>),
    /// The clone root could not be created.
    CloneRootUnavailable(String),
    /// No repository name can be taken from the locator.
    NoRepositoryName(String),
    /// The clone destination already exists; it is left as it is.
    DestinationExists(String),
    /// `git` could not be started for the locator.
    CloneNotStarted(String),
    /// `git clone` failed for the locator.
    CloneFailed(String),
    /// An event that the current stage does not wait for.
    UnexpectedEvent,
}

/// Where an acquisition stands, and what it waits for.
pub enum Stage {
    /// Waits for the probe of the input.
    Start,
    /// A local directory; waits for its canonical path.
    LocalDir,
    /// An archive; waits for its canonical path.
    ArchivePath,
    /// Waits for a fresh extraction directory.
    ExtractionDir { archive: String },
    /// Waits for `tar`.
    Extracting { archive: String, dir: String },
    /// Waits for the listing of the extraction directory.
    Listing { archive: String, dir: String },
    /// Waits for the canonical path of the package root.
    PackagePath { archive: String, dir: String },
    /// A remote locator; waits for the clone root to be created.
    CloneRoot,
    /// Waits to learn whether the destination exists.
    Destination { destination: String },
    /// Waits for `git clone`.
    Cloning { destination: String },
    /// Waits for the canonical path of the clone.
    ClonedPath { destination: String },
    /// The repository is at this canonical path.
    Done(String),
    Failed(AcquireError),
}

/// What the caller observed after an action.
pub enum Event {
    Probed { exists: bool, is_dir: bool, is_file: bool },
    /// The canonical path, or `None` when it could not be had.
    Canonical(Option<String>),
    /// Whether the directory could be created.
    Created(bool),
    /// The fresh directory, or `None` when none could be made.
    TempDir(Option<String>),
    Ran(RunResult),
    /// The listing, or `None` when the directory could not be read.
    Listed(Option<PackageListing>),
    Exists(bool),
}

/// How a command ended.
#[derive(Clone, Copy, PartialEq, Eq, Structural, Debug)]
pub enum RunResult {
    Succeeded,
    /// It ran and reported failure.
    Failed,
    /// It could not be started.
    NotStarted,
}

/// What the caller is asked to do next.
pub enum Action {
    /// Report whether the path exists, is a directory, is a file.
    Probe(String),
    /// Report the canonical form of the path.
    Canonicalize(String),
    /// Create the directory and its parents.
    CreateDirAll(String),
    /// Create a fresh directory inside this one and keep it.
    MakeTempDirIn(String),
    /// Run the command.
    Run(Command),
    /// Report whether the directory holds the manifest and which entries
    /// are directories that hold it.
    ListPackageRoots(String),
    /// Report whether the path exists.
    CheckExists(String),
    /// Nothing more: the acquisition has ended.
    Stop,
}

/// What the progress task of the acquisition should show.
pub enum TaskNote {
    Quiet,
    /// Open a task for this activity.
    Begin(Activity),
    /// The open task has succeeded with this path.
    Succeed(String),
    /// The open task has failed.
    Abort,
}

/// What a progress task is about.
pub enum Activity {
    LocalDirectory(String),
    Archive(String),
    Clone { locator: String, destination: String },
}

/// One acquisition of the repository that `spec` names.
pub struct Acquisition {
    pub spec: String,
    pub clone_root: String,
    pub temp_dir: String,
    pub stage: Stage,
}

pub open spec fn same_setup(a: Acquisition, b: Acquisition) -> bool {
    a.spec@ == b.spec@ && a.clone_root@ == b.clone_root@ && a.temp_dir@ == b.temp_dir@
}

pub open spec fn fails_with(a: Acquisition, act: Action, e: spec_fn(AcquireError) -> bool) -> bool {
    a.stage matches Stage::Failed(err) && e(err) && act is Stop
}

pub open spec fn asks_canonical(act: Action, p: Seq<char>) -> bool {
    act matches Action::Canonicalize(q) && q@ == p
}

pub open spec fn notes_success(note: TaskNote, p: Seq<char>) -> bool {
    note matches TaskNote::Succeed(q) && q@ == p
}

pub open spec fn is_done_at(a: Acquisition, p: Seq<char>) -> bool {
    a.stage matches Stage::Done(q) && q@ == p
}

/// One transition: `a` takes `ev` and becomes `b`, asking for `act` and
/// showing `note`.
pub open spec fn transition(a: Acquisition, ev: Event, b: Acquisition, act: Action, note: TaskNote) -> bool {
    &&& same_setup(a, b)
    &&& match (a.stage, ev) {
        (Stage::Start, Event::Probed { exists, is_dir, is_file }) => if exists && is_dir {
            &&& b.stage is LocalDir
            &&& asks_canonical(act, a.spec@)
            &&& note matches TaskNote::Begin(Activity::LocalDirectory(s)) && s@ == a.spec@
        } else if exists && is_file && is_tarball_path(a.spec@) {
            &&& b.stage is ArchivePath
            &&& asks_canonical(act, a.spec@)
            &&& note is Quiet
        } else if exists && is_file {
            &&& fails_with(b, act, |e: AcquireError| e matches AcquireError::UnsupportedLocalFile(s) && s@ == a.spec@)
            &&& note is Quiet
        } else if exists {
            &&& fails_with(b, act, |e: AcquireError| e matches AcquireError::UnsupportedInput(s) && s@ == a.spec@)
            &&& note is Quiet
        } else {
            &&& b.stage is CloneRoot
            &&& act matches Action::CreateDirAll(p) && p@ == a.clone_root@
            &&& note is Quiet
        },
        (Stage::LocalDir, Event::Canonical(Some(p))) => {
            &&& is_done_at(b, p@)
            &&& act is Stop
            &&& notes_success(note, p@)
        },
        (Stage::LocalDir, Event::Canonical(None)) => {
            &&& fails_with(b, act, |e: AcquireError| e matches AcquireError::Unresolvable(s) && s@ == a.spec@)
            &&& note is Abort
        },
        (Stage::ArchivePath, Event::Canonical(Some(p))) => {
            &&& b.stage matches Stage::ExtractionDir { archive } && archive@ == p@
            &&& act matches Action::MakeTempDirIn(t) && t@ == a.temp_dir@
            &&& note matches TaskNote::Begin(Activity::Archive(s)) && s@ == p@
        },
        (Stage::ArchivePath, Event::Canonical(None)) => {
            &&& fails_with(b, act, |e: AcquireError| e matches AcquireError::Unresolvable(s) && s@ == a.spec@)
            &&& note is Quiet
        },
        (Stage::ExtractionDir { archive }, Event::TempDir(Some(d))) => {
            &&& b.stage matches Stage::Extracting { archive: a2, dir } && a2@ == archive@ && dir@ == d@
            &&& act matches Action::Run(c) && c@ == extract_command(archive@, d@)
            &&& note is Quiet
        },
        (Stage::ExtractionDir { archive }, Event::TempDir(None)) => {
            &&& fails_with(b, act, |e: AcquireError| e matches AcquireError::NoExtractionDir(s) && s@ == archive@)
            &&& note is Quiet
        },
        (Stage::Extracting { archive, dir }, Event::Ran(r)) => match r {
            RunResult::Succeeded => {
                &&& b.stage matches Stage::Listing { archive: a2, dir: d2 } && a2@ == archive@ && d2@ == dir@
                &&& act matches Action::ListPackageRoots(p) && p@ == dir@
                &&& note is Quiet
            },
            RunResult::Failed => {
                &&& fails_with(b, act, |e: AcquireError| e matches AcquireError::ExtractFailed(s) && s@ == archive@)
                &&& note is Abort
            },
            RunResult::NotStarted => {
                &&& fails_with(b, act, |e: AcquireError| e matches AcquireError::ExtractNotStarted(s) && s@ == archive@)
                &&& note is Abort
            },
        },
        (Stage::Listing { archive, dir }, Event::Listed(None)) => {
            &&& fails_with(b, act, |e: AcquireError| e matches AcquireError::UnreadableContents(s) && s@ == archive@)
            &&& note is Abort
        },
        (Stage::Listing { archive, dir }, Event::Listed(Some(l))) => match package_root(
            dir@,
            l.root_has_manifest,
            package_dirs(l.entries@),
        ) {
            Ok(p) => {
                &&& b.stage matches Stage::PackagePath { archive: a2, dir: d2 } && a2@ == archive@ && d2@ == p
                &&& asks_canonical(act, p)
                &&& note is Quiet
            },
            Err(None) => {
                &&& fails_with(b, act, |e: AcquireError| e matches AcquireError::NoManifest(s) && s@ == archive@)
                &&& note is Abort
            },
            Err(Some(c)) => {
                &&& fails_with(
                    b,
                    act,
                    |e: AcquireError|
                        e matches AcquireError::AmbiguousLayout(s, v) && s@ == archive@ && strings_view(v@) == c,
                )
                &&& note is Abort
            },
        },
        (Stage::PackagePath { archive, dir }, Event::Canonical(Some(p))) => {
            &&& is_done_at(b, p@)
            &&& act is Stop
            &&& notes_success(note, p@)
        },
        (Stage::PackagePath { archive, dir }, Event::Canonical(None)) => {
            &&& fails_with(b, act, |e: AcquireError| e matches AcquireError::Unresolvable(s) && s@ == dir@)
            &&& note is Abort
        },
        (Stage::CloneRoot, Event::Created(false)) => {
            &&& fails_with(
                b,
                act,
                |e: AcquireError| e matches AcquireError::CloneRootUnavailable(s) && s@ == a.clone_root@,
            )
            &&& note is Quiet
        },
        (Stage::CloneRoot, Event::Created(true)) => match repo_name(a.spec@) {
            None => {
                &&& fails_with(b, act, |e: AcquireError| e matches AcquireError::NoRepositoryName(s) && s@ == a.spec@)
                &&& note is Quiet
            },
            Some(n) => {
                &&& b.stage matches Stage::Destination { destination } && destination@ == joined(a.clone_root@, n)
                &&& act matches Action::CheckExists(p) && p@ == joined(a.clone_root@, n)
                &&& note is Quiet
            },
        },
        (Stage::Destination { destination }, Event::Exists(true)) => {
            &&& fails_with(
                b,
                act,
                |e: AcquireError| e matches AcquireError::DestinationExists(s) && s@ == destination@,
            )
            &&& note is Quiet
        },
        (Stage::Destination { destination }, Event::Exists(false)) => {
            &&& b.stage matches Stage::Cloning { destination: d2 } && d2@ == destination@
            &&& act matches Action::Run(c) && c@ == clone_command(a.spec@, destination@)
            &&& note matches TaskNote::Begin(Activity::Clone { locator, destination: d3 }) && locator@ == a.spec@ && d3@ == destination@
        },
        (Stage::Cloning { destination }, Event::Ran(r)) => match r {
            RunResult::Succeeded => {
                &&& b.stage matches Stage::ClonedPath { destination: d2 } && d2@ == destination@
                &&& asks_canonical(act, destination@)
                &&& notes_success(note, destination@)
            },
            RunResult::Failed => {
                &&& fails_with(b, act, |e: AcquireError| e matches AcquireError::CloneFailed(s) && s@ == a.spec@)
                &&& note is Abort
            },
            RunResult::NotStarted => {
                &&& fails_with(b, act, |e: AcquireError| e matches AcquireError::CloneNotStarted(s) && s@ == a.spec@)
                &&& note is Abort
            },
        },
        (Stage::ClonedPath { destination }, Event::Canonical(Some(p))) => {
            &&& is_done_at(b, p@)
            &&& act is Stop
            &&& note is Quiet
        },
        (Stage::ClonedPath { destination }, Event::Canonical(None)) => {
            &&& fails_with(b, act, |e: AcquireError| e matches AcquireError::Unresolvable(s) && s@ == destination@)
            &&& note is Quiet
        },
        _ => {
            &&& fails_with(b, act, |e: AcquireError| e is UnexpectedEvent)
            &&& note is Quiet
        },
    }
}

fn failing(spec: String, clone_root: String, temp_dir: String, e: AcquireError, note: TaskNote) -> (r: (
    Acquisition,
    Action,
    TaskNote,
))
    ensures
        r.0.spec == spec,
        r.0.clone_root == clone_root,
        r.0.temp_dir == temp_dir,
        r.0.stage == Stage::Failed(e),
        r.1 is Stop,
        r.2 == note,
{
    (Acquisition { spec, clone_root, temp_dir, stage: Stage::Failed(e) }, Action::Stop, note)
}

impl Acquisition {
    /// Starts acquiring the repository that `spec` names into `workspace`;
    /// the first action probes `spec` on the filesystem.
    pub fn start(workspace: &Workspace, spec: &str) -> (r: (Acquisition, Action))
        ensures
            r.0.spec@ == spec@,
            r.0.clone_root@ == workspace.clone_root_spec(),
            r.0.temp_dir@ == workspace.temp_dir_spec(),
            r.0.stage is Start,
            r.1 matches Action::Probe(p) && p@ == spec@,
    {
        let a = Acquisition {
            spec: String::from_str(spec),
            clone_root: String::from_str(workspace.clone_root()),
            temp_dir: String::from_str(workspace.temp_dir()),
            stage: Stage::Start,
        };
        (a, Action::Probe(String::from_str(spec)))
    }

    /// Takes what the caller observed and decides what comes next.
    pub fn step(self, event: Event) -> (r: (Acquisition, Action, TaskNote))
        ensures
            transition(self, event, r.0, r.1, r.2),
    {
        let Acquisition { spec, clone_root, temp_dir, stage } = self;
        match (stage, event) {
            (Stage::Start, Event::Probed { exists, is_dir, is_file }) => {
                if exists && is_dir {
                    let note = TaskNote::Begin(Activity::LocalDirectory(spec.clone()));
                    let act = Action::Canonicalize(spec.clone());
                    (Acquisition { spec, clone_root, temp_dir, stage: Stage::LocalDir }, act, note)
                } else if exists && is_file && is_tarball(spec.as_str()) {
                    let act = Action::Canonicalize(spec.clone());
                    (
                        Acquisition { spec, clone_root, temp_dir, stage: Stage::ArchivePath },
                        act,
                        TaskNote::Quiet,
                    )
                } else if exists && is_file {
                    let e = AcquireError::UnsupportedLocalFile(spec.clone());
                    failing(spec, clone_root, temp_dir, e, TaskNote::Quiet)
                } else if exists {
                    let e = AcquireError::UnsupportedInput(spec.clone());
                    failing(spec, clone_root, temp_dir, e, TaskNote::Quiet)
                } else {
                    let act = Action::CreateDirAll(clone_root.clone());
                    (
                        Acquisition { spec, clone_root, temp_dir, stage: Stage::CloneRoot },
                        act,
                        TaskNote::Quiet,
                    )
                }
            },
            (Stage::LocalDir, Event::Canonical(Some(p))) => {
                let note = TaskNote::Succeed(p.clone());
                (
                    Acquisition { spec, clone_root, temp_dir, stage: Stage::Done(p) },
                    Action::Stop,
                    note,
                )
            },
            (Stage::LocalDir, Event::Canonical(None)) => {
                let e = AcquireError::Unresolvable(spec.clone());
                failing(spec, clone_root, temp_dir, e, TaskNote::Abort)
            },
            (Stage::ArchivePath, Event::Canonical(Some(p))) => {
                let note = TaskNote::Begin(Activity::Archive(p.clone()));
                let act = Action::MakeTempDirIn(temp_dir.clone());
                (
                    Acquisition {
                        spec,
                        clone_root,
                        temp_dir,
                        stage: Stage::ExtractionDir { archive: p },
                    },
                    act,
                    note,
                )
            },
            (Stage::ArchivePath, Event::Canonical(None)) => {
                let e = AcquireError::Unresolvable(spec.clone());
                failing(spec, clone_root, temp_dir, e, TaskNote::Quiet)
            },
            (Stage::ExtractionDir { archive }, Event::TempDir(Some(d))) => {
                let act = Action::Run(extract(&archive, &d));
                (
                    Acquisition {
                        spec,
                        clone_root,
                        temp_dir,
                        stage: Stage::Extracting { archive, dir: d },
                    },
                    act,
                    TaskNote::Quiet,
                )
            },
            (Stage::ExtractionDir { archive }, Event::TempDir(None)) => {
                failing(
                    spec,
                    clone_root,
                    temp_dir,
                    AcquireError::NoExtractionDir(archive),
                    TaskNote::Quiet,
                )
            },
            (Stage::Extracting { archive, dir }, Event::Ran(r)) => match r {
                RunResult::Succeeded => {
                    let act = Action::ListPackageRoots(dir.clone());
                    (
                        Acquisition {
                            spec,
                            clone_root,
                            temp_dir,
                            stage: Stage::Listing { archive, dir },
                        },
                        act,
                        TaskNote::Quiet,
                    )
                },
                RunResult::Failed => failing(
                    spec,
                    clone_root,
                    temp_dir,
                    AcquireError::ExtractFailed(archive),
                    TaskNote::Abort,
                ),
                RunResult::NotStarted => failing(
                    spec,
                    clone_root,
                    temp_dir,
                    AcquireError::ExtractNotStarted(archive),
                    TaskNote::Abort,
                ),
            },
            (Stage::Listing { archive, dir }, Event::Listed(None)) => failing(
                spec,
                clone_root,
                temp_dir,
                AcquireError::UnreadableContents(archive),
                TaskNote::Abort,
            ),
            (Stage::Listing { archive, dir }, Event::Listed(Some(l))) => {
                match locate_package_root(dir.as_str(), &l) {
                    Ok(p) => {
                        let act = Action::Canonicalize(p.clone());
                        (
                            Acquisition {
                                spec,
                                clone_root,
                                temp_dir,
                                stage: Stage::PackagePath { archive, dir: p },
                            },
                            act,
                            TaskNote::Quiet,
                        )
                    },
                    Err(RootError::NoManifest) => failing(
                        spec,
                        clone_root,
                        temp_dir,
                        AcquireError::NoManifest(archive),
                        TaskNote::Abort,
                    ),
                    Err(RootError::Ambiguous(v)) => failing(
                        spec,
                        clone_root,
                        temp_dir,
                        AcquireError::AmbiguousLayout(archive, v),
                        TaskNote::Abort,
                    ),
                }
            },
            (Stage::PackagePath { archive, dir }, Event::Canonical(Some(p))) => {
                let note = TaskNote::Succeed(p.clone());
                (
                    Acquisition { spec, clone_root, temp_dir, stage: Stage::Done(p) },
                    Action::Stop,
                    note,
                )
            },
            (Stage::PackagePath { archive, dir }, Event::Canonical(None)) => failing(
                spec,
                clone_root,
                temp_dir,
                AcquireError::Unresolvable(dir),
                TaskNote::Abort,
            ),
            (Stage::CloneRoot, Event::Created(false)) => {
                let e = AcquireError::CloneRootUnavailable(clone_root.clone());
                failing(spec, clone_root, temp_dir, e, TaskNote::Quiet)
            },
            (Stage::CloneRoot, Event::Created(true)) => match guess_repo_name(spec.as_str()) {
                None => {
                    let e = AcquireError::NoRepositoryName(spec.clone());
                    failing(spec, clone_root, temp_dir, e, TaskNote::Quiet)
                },
                Some(n) => {
                    let destination = join_path(clone_root.as_str(), n.as_str());
                    let act = Action::CheckExists(destination.clone());
                    (
                        Acquisition {
                            spec,
                            clone_root,
                            temp_dir,
                            stage: Stage::Destination { destination },
                        },
                        act,
                        TaskNote::Quiet,
                    )
                },
            },
            (Stage::Destination { destination }, Event::Exists(true)) => failing(
                spec,
                clone_root,
                temp_dir,
                AcquireError::DestinationExists(destination),
                TaskNote::Quiet,
            ),
            (Stage::Destination { destination }, Event::Exists(false)) => {
                let act = Action::Run(clone_into(&spec, &destination));
                let note = TaskNote::Begin(
                    Activity::Clone { locator: spec.clone(), destination: destination.clone() },
                );
                (
                    Acquisition { spec, clone_root, temp_dir, stage: Stage::Cloning { destination } },
                    act,
                    note,
                )
            },
            (Stage::Cloning { destination }, Event::Ran(r)) => match r {
                RunResult::Succeeded => {
                    let act = Action::Canonicalize(destination.clone());
                    let note = TaskNote::Succeed(destination.clone());
                    (
                        Acquisition {
                            spec,
                            clone_root,
                            temp_dir,
                            stage: Stage::ClonedPath { destination },
                        },
                        act,
                        note,
                    )
                },
                RunResult::Failed => {
                    let e = AcquireError::CloneFailed(spec.clone());
                    failing(spec, clone_root, temp_dir, e, TaskNote::Abort)
                },
                RunResult::NotStarted => {
                    let e = AcquireError::CloneNotStarted(spec.clone());
                    failing(spec, clone_root, temp_dir, e, TaskNote::Abort)
                },
            },
            (Stage::ClonedPath { destination }, Event::Canonical(Some(p))) => (
                Acquisition { spec, clone_root, temp_dir, stage: Stage::Done(p) },
                Action::Stop,
                TaskNote::Quiet,
            ),
            (Stage::ClonedPath { destination }, Event::Canonical(None)) => failing(
                spec,
                clone_root,
                temp_dir,
                AcquireError::Unresolvable(destination),
                TaskNote::Quiet,
            ),
            _ => failing(spec, clone_root, temp_dir, AcquireError::UnexpectedEvent, TaskNote::Quiet),
        }
    }

    /// The end of the acquisition: the repository's canonical path or the
    /// error; `None` while it is still under way.
    pub fn into_outcome(self) -> (r: Option<Result<String, AcquireError>>)
        ensures
            match self.stage {
                Stage::Done(p) => r == Some(Ok::<String, AcquireError>(p)),
                Stage::Failed(e) => r == Some(Err::<String, AcquireError>(e)),
                _ => r is None,
            },
    {
        match self.stage {
            Stage::Done(p) => Some(Ok(p)),
            Stage::Failed(e) => Some(Err(e)),
            _ => None,
        }
    }
}

/// A clone destination that already exists ends the acquisition: it fails
/// naming that destination and asks for nothing more, so `git` is never run
/// and the directory is left as it is (no action removes or writes a
/// directory that exists).
pub proof fn lemma_existing_destination_is_left_alone(
    a: Acquisition,
    b: Acquisition,
    act: Action,
    note: TaskNote,
)
    requires
        a.stage is Destination,
        transition(a, Event::Exists(true), b, act, note),
    ensures
        a.stage matches Stage::Destination { destination } && b.stage matches Stage::Failed(
            AcquireError::DestinationExists(d),
        ) && d@ == destination@,
        act is Stop,
{
}

/// `git` is asked to run only right after the destination was found not
/// to exist.
pub proof fn lemma_clone_only_into_fresh_destination(
    a: Acquisition,
    ev: Event,
    b: Acquisition,
    act: Action,
    note: TaskNote,
)
    requires
        transition(a, ev, b, act, note),
        act matches Action::Run(c) && c.program@ == "git"@,
    ensures
        a.stage is Destination,
        ev == Event::Exists(false),
{
    reveal_strlit("git");
    reveal_strlit("tar");
    match (a.stage, ev) {
        (Stage::ExtractionDir { archive }, Event::TempDir(Some(d))) => {
            let c = act->Run_0;
            assert(c@ == extract_command(archive@, d@));
            assert(c.program@[0] == 't');
            assert("git"@[0] == 'g');
        },
        _ => {},
    }
}

} // verus!
