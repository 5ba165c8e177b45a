use revdeprun::acquire::{AcquireError, Acquisition, Action, Activity, Event, RunResult, Stage, TaskNote};
use revdeprun::revdep::{is_tarball, locate_package_root, PackageListing, RootEntry, RootError};
use revdeprun::workspace::{join_path, prepare, Workspace, WorkspaceError};

fn workspace_at(root: &str) -> Workspace {
    prepare(Some(root.to_string()), None).expect("workspace")
}

fn probe(exists: bool, is_dir: bool, is_file: bool) -> Event {
    Event::Probed { exists, is_dir, is_file }
}

fn entry(path: &str, is_package_dir: bool) -> RootEntry {
    RootEntry { path: path.to_string(), is_package_dir }
}

#[test]
fn detects_tarball_filenames() {
    assert!(is_tarball("pkg_0.1.0.tar.gz"));
    assert!(is_tarball("pkg.TAR.GZ"));
    assert!(!is_tarball("pkg.zip"));
    assert!(!is_tarball("pkg.tar"));
    assert!(!is_tarball("pkg.tgz"));
}

#[test]
fn custom_workspace_uses_provided_path() {
    let base = join_path("/tmp/somewhere", "workspace");
    let workspace = prepare(Some(base.clone()), None).expect("prepare custom workspace");

    assert_eq!(workspace.clone_root(), base.as_str());
    assert_eq!(workspace.temp_dir(), base.as_str());
}

#[test]
fn default_workspace_lives_in_current_dir() {
    let w = prepare(None, Some("/home/me".to_string())).expect("workspace");
    assert_eq!(w.clone_root(), "/home/me");
    assert_eq!(w.temp_dir(), "/home/me/revdeprun-work");
    assert!(matches!(prepare(None, None), Err(WorkspaceError::NoCurrentDir)));
}

#[test]
fn root_with_one_package_dir() {
    let listing = PackageListing {
        root_has_manifest: false,
        entries: vec![entry("/x/notes.txt", false), entry("/x/pkg", true)],
    };
    assert_eq!(locate_package_root("/x", &listing), Ok("/x/pkg".to_string()));
}

#[test]
fn root_holding_the_manifest_itself() {
    let listing = PackageListing { root_has_manifest: true, entries: vec![entry("/x/a", true), entry("/x/b", true)] };
    assert_eq!(locate_package_root("/x", &listing), Ok("/x".to_string()));
}

#[test]
fn root_without_manifest() {
    let listing = PackageListing { root_has_manifest: false, entries: vec![entry("/x/src", false)] };
    assert_eq!(locate_package_root("/x", &listing), Err(RootError::NoManifest));
}

#[test]
fn root_with_two_candidates() {
    let listing = PackageListing {
        root_has_manifest: false,
        entries: vec![entry("/x/a", true), entry("/x/b", true)],
    };
    assert_eq!(
        locate_package_root("/x", &listing),
        Err(RootError::Ambiguous(vec!["/x/a".to_string(), "/x/b".to_string()]))
    );
}

#[test]
fn prepares_repository_from_tarball() {
    let workspace_root = "/tmp/t1/workspace";
    let workspace = workspace_at(workspace_root);
    let tarball = "/tmp/t1/mypkg_0.1.0.tar.gz";
    let (acq, action) = Acquisition::start(&workspace, tarball);
    assert!(matches!(&action, Action::Probe(p) if p == tarball));

    let (acq, action, _) = acq.step(probe(true, false, true));
    assert!(matches!(&action, Action::Canonicalize(p) if p == tarball));
    let (acq, action, note) = acq.step(Event::Canonical(Some(tarball.to_string())));
    assert!(matches!(&action, Action::MakeTempDirIn(p) if p == workspace_root));
    assert!(matches!(&note, TaskNote::Begin(Activity::Archive(p)) if p == tarball));

    let extraction = "/tmp/t1/workspace/.tmpAbC";
    let (acq, action, _) = acq.step(Event::TempDir(Some(extraction.to_string())));
    match &action {
        Action::Run(c) => {
            assert_eq!(c.program, "tar");
            assert_eq!(c.args, vec!["-xzf", tarball, "-C", extraction]);
            assert!(c.suspend_display);
        }
        _ => panic!("expected tar"),
    }
    let (acq, action, _) = acq.step(Event::Ran(RunResult::Succeeded));
    assert!(matches!(&action, Action::ListPackageRoots(p) if p == extraction));

    let package = "/tmp/t1/workspace/.tmpAbC/mypkg";
    let listing = PackageListing { root_has_manifest: false, entries: vec![entry(package, true)] };
    let (acq, action, _) = acq.step(Event::Listed(Some(listing)));
    assert!(matches!(&action, Action::Canonicalize(p) if p == package));
    let (acq, action, note) = acq.step(Event::Canonical(Some(package.to_string())));
    assert!(matches!(action, Action::Stop));
    assert!(matches!(&note, TaskNote::Succeed(p) if p == package));

    let path = acq.into_outcome().expect("ended").expect("prepared repository");
    assert!(path.ends_with("/mypkg"));
    assert!(path.starts_with(workspace_root));
}

#[test]
fn local_directory_is_used_in_place() {
    let workspace = workspace_at("/w");
    let (acq, _) = Acquisition::start(&workspace, "./pkg");
    let (acq, action, note) = acq.step(probe(true, true, false));
    assert!(matches!(&action, Action::Canonicalize(p) if p == "./pkg"));
    assert!(matches!(&note, TaskNote::Begin(Activity::LocalDirectory(p)) if p == "./pkg"));
    let (acq, _, _) = acq.step(Event::Canonical(Some("/abs/pkg".to_string())));
    assert_eq!(acq.into_outcome(), Some(Ok("/abs/pkg".to_string())));
}

#[test]
fn unsupported_local_inputs() {
    let workspace = workspace_at("/w");
    let (acq, _) = Acquisition::start(&workspace, "pkg.zip");
    let (acq, action, _) = acq.step(probe(true, false, true));
    assert!(matches!(action, Action::Stop));
    assert_eq!(acq.into_outcome(), Some(Err(AcquireError::UnsupportedLocalFile("pkg.zip".to_string()))));

    let (acq, _) = Acquisition::start(&workspace, "/dev/null");
    let (acq, _, _) = acq.step(probe(true, false, false));
    assert_eq!(acq.into_outcome(), Some(Err(AcquireError::UnsupportedInput("/dev/null".to_string()))));
}

#[test]
fn remote_locator_is_cloned() {
    let workspace = workspace_at("/w");
    let spec = "https://github.com/nanxstats/ggsci.git";
    let (acq, _) = Acquisition::start(&workspace, spec);
    let (acq, action, _) = acq.step(probe(false, false, false));
    assert!(matches!(&action, Action::CreateDirAll(p) if p == "/w"));
    let (acq, action, _) = acq.step(Event::Created(true));
    assert!(matches!(&action, Action::CheckExists(p) if p == "/w/ggsci"));
    let (acq, action, note) = acq.step(Event::Exists(false));
    match &action {
        Action::Run(c) => {
            assert_eq!(c.program, "git");
            assert_eq!(c.args, vec!["clone", "--depth", "1", spec, "/w/ggsci"]);
            assert_eq!(c.label, format!("git clone {spec}"));
        }
        _ => panic!("expected git"),
    }
    assert!(matches!(&note, TaskNote::Begin(Activity::Clone { .. })));
    let (acq, action, _) = acq.step(Event::Ran(RunResult::Succeeded));
    assert!(matches!(&action, Action::Canonicalize(p) if p == "/w/ggsci"));
    let (acq, _, _) = acq.step(Event::Canonical(Some("/w/ggsci".to_string())));
    assert_eq!(acq.into_outcome(), Some(Ok("/w/ggsci".to_string())));
}

#[test]
fn existing_clone_destination_is_refused() {
    let workspace = workspace_at("/w");
    let (acq, _) = Acquisition::start(&workspace, "git@host:org/pkg.git");
    let (acq, _, _) = acq.step(probe(false, false, false));
    let (acq, _, _) = acq.step(Event::Created(true));
    let (acq, action, note) = acq.step(Event::Exists(true));
    assert!(matches!(action, Action::Stop));
    assert!(matches!(note, TaskNote::Quiet));
    assert_eq!(acq.into_outcome(), Some(Err(AcquireError::DestinationExists("/w/pkg".to_string()))));
}

#[test]
fn acquisition_failures() {
    let workspace = workspace_at("/w");
    let (acq, _) = Acquisition::start(&workspace, "   ");
    let (acq, _, _) = acq.step(probe(false, false, false));
    let (acq, _, _) = acq.step(Event::Created(true));
    assert_eq!(acq.into_outcome(), Some(Err(AcquireError::NoRepositoryName("   ".to_string()))));

    let (acq, _) = Acquisition::start(&workspace, "https://h/o/p");
    let (acq, _, _) = acq.step(probe(false, false, false));
    let (acq, _, _) = acq.step(Event::Created(false));
    assert_eq!(acq.into_outcome(), Some(Err(AcquireError::CloneRootUnavailable("/w".to_string()))));

    let (acq, _) = Acquisition::start(&workspace, "https://h/o/p");
    let (acq, _, _) = acq.step(probe(false, false, false));
    let (acq, _, _) = acq.step(Event::Created(true));
    let (acq, _, _) = acq.step(Event::Exists(false));
    let (acq, _, note) = acq.step(Event::Ran(RunResult::Failed));
    assert!(matches!(note, TaskNote::Abort));
    assert_eq!(acq.into_outcome(), Some(Err(AcquireError::CloneFailed("https://h/o/p".to_string()))));

    let (acq, _) = Acquisition::start(&workspace, "a.tar.gz");
    let (acq, _, _) = acq.step(probe(true, false, true));
    let (acq, _, _) = acq.step(Event::Canonical(Some("/a.tar.gz".to_string())));
    let (acq, _, _) = acq.step(Event::TempDir(Some("/w/x".to_string())));
    let (acq, _, _) = acq.step(Event::Ran(RunResult::Succeeded));
    let listing = PackageListing { root_has_manifest: false, entries: vec![entry("/w/x/a", true), entry("/w/x/b", true)] };
    let (acq, _, note) = acq.step(Event::Listed(Some(listing)));
    assert!(matches!(note, TaskNote::Abort));
    assert_eq!(
        acq.into_outcome(),
        Some(Err(AcquireError::AmbiguousLayout(
            "/a.tar.gz".to_string(),
            vec!["/w/x/a".to_string(), "/w/x/b".to_string()]
        )))
    );

    let (acq, _) = Acquisition::start(&workspace, "a.tar.gz");
    let (acq, _, _) = acq.step(probe(true, false, true));
    let (acq, _, _) = acq.step(Event::Canonical(Some("/a.tar.gz".to_string())));
    let (acq, _, _) = acq.step(Event::TempDir(Some("/w/x".to_string())));
    let (acq, _, _) = acq.step(Event::Ran(RunResult::NotStarted));
    assert_eq!(acq.into_outcome(), Some(Err(AcquireError::ExtractNotStarted("/a.tar.gz".to_string()))));

    let (acq, _) = Acquisition::start(&workspace, "./d");
    let (acq, _, _) = acq.step(Event::Exists(true));
    assert!(matches!(acq.stage, Stage::Failed(AcquireError::UnexpectedEvent)));
}
