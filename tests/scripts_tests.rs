use revdeprun::phase::{build_job, command_diagnostics, stream_report, EnvironmentFacts, Phase, PhaseOutcome};
use revdeprun::revdep::{codename_override, library_dir, revlib_dir, ubuntu_codename_from_os_release};
use revdeprun::scripts::{build_revdep_install_script, build_revdep_run_script, build_sysreqs_script, script_prelude};
use revdeprun::sysreqs::{package_name_from_description, DescriptionError};

#[test]
fn build_install_script_uses_binary_repo() {
    let path = "/tmp/example";
    let script = build_revdep_install_script(path, 8, "noble");

    assert!(script.contains("https://packagemanager.posit.co/cran/__linux__/%s/latest"));
    assert!(script.contains(
        "sprintf(\"https://packagemanager.posit.co/cran/__linux__/%s/latest\", 'noble')"
    ));
    assert!(script.contains("install.packages("));
    assert!(script.contains("install_targets <- sort(unique(c(package_name, revdeps)))"));
    assert!(script.contains("dependency_map <- tools::package_dependencies("));
    assert!(script.contains("recursive = FALSE"));
    assert!(script.contains("repos = binary_repo"));
    assert!(script.contains("Skipping packages not available from repository"));
    assert!(script.contains("setwd('/tmp/example')"));
}

#[test]
fn build_run_script_invokes_xfun() {
    let path = "/tmp/example";
    let script = build_revdep_run_script(path, 8);

    assert!(script.contains("xfun::rev_check"));
    assert!(script.contains("src = \".\""));
    assert!(script.contains("mc.cores = install_workers"));
    assert!(script.contains("ensure_installed(\"markdown\")"));
    assert!(script.contains("ensure_installed(\"rmarkdown\")"));
    assert!(script.contains("options(xfun.rev_check.summary = TRUE)"));
    assert!(script.contains("setwd('/tmp/example')"));
    assert!(script.contains("library_dir <- file.path(revdep_dir, \"library\")"));
}

#[test]
fn build_script_contains_expected_fragments() {
    let script = build_sysreqs_script("ggsci", 4);
    assert!(script.contains("revdepcheck::cran_revdeps"));
    assert!(script.contains("pak::pkg_sysreqs"));
    assert!(script.contains("ensure_installed(\"pak\")"));
    assert!(script.contains("pak::pkg_install("));
    assert!(script.contains("available.packages"));
    assert!(script.contains("jsonlite::toJSON"));
    assert!(script.contains("Sys.setenv(NOT_CRAN = \"true\")"));
}

#[test]
fn scripts_escape_paths_and_clamp_workers() {
    let prelude = script_prelude("/tmp/it's", 0);
    assert!(prelude.contains("setwd('/tmp/it\\'s')"));
    assert!(prelude.contains("install_workers <- max(1, parallel::detectCores())"));
    let sysreqs = build_sysreqs_script("a'b", 12);
    assert!(sysreqs.contains("pkg_name <- 'a\\'b'"));
    assert!(sysreqs.contains("Ncpus = 12"));
    let install = build_revdep_install_script("/r", 2, "NOBLE");
    assert!(install.contains("latest\", 'noble')"));
}

#[test]
fn parses_codename_from_os_release() {
    let contents = r#"
NAME="Ubuntu"
VERSION="24.04 LTS (Noble Nimbus)"
VERSION_CODENAME=noble
UBUNTU_CODENAME=noble
"#;
    let codename = ubuntu_codename_from_os_release(contents);
    assert_eq!(codename.as_deref(), Some("noble"));
}

#[test]
fn codename_falls_back_and_lowercases() {
    let c = ubuntu_codename_from_os_release("UBUNTU_CODENAME=Jammy\nUBUNTU_CODENAME=\"Noble\"\n");
    assert_eq!(c.as_deref(), Some("noble"));
    let c = ubuntu_codename_from_os_release("VERSION_CODENAME=\nUBUNTU_CODENAME=focal\n");
    assert_eq!(c.as_deref(), Some("focal"));
    assert_eq!(ubuntu_codename_from_os_release("# VERSION_CODENAME=x\nID=debian\n"), None);
    assert_eq!(codename_override("  NOBLE \n").as_deref(), Some("noble"));
    assert_eq!(codename_override(" "), None);
}

#[test]
fn reads_package_name_from_description() {
    let name = package_name_from_description("Package: example\n").expect("package name");
    assert_eq!(name, "example");
}

#[test]
fn package_name_errors() {
    assert_eq!(
        package_name_from_description("Title: x\n"),
        Err(DescriptionError::MissingPackageField)
    );
    assert_eq!(
        package_name_from_description("Package:   \nPackage: y\n"),
        Err(DescriptionError::EmptyPackageField)
    );
    assert_eq!(package_name_from_description("A: b\r\nPackage: mypkg\r\n"), Ok("mypkg".to_string()));
}

#[test]
fn result_directories() {
    assert_eq!(revlib_dir("/repo"), "/repo/revdep");
    assert_eq!(revlib_dir("/repo/"), "/repo/revdep");
    assert_eq!(library_dir("/repo"), "/repo/revdep/library");
}

#[test]
fn builds_phase_jobs() {
    let facts = EnvironmentFacts { package_name: "pkg".to_string(), ubuntu_codename: "noble".to_string() };
    let setup = build_job(Phase::Setup, "/repo", 0, &facts);
    assert_eq!(setup.working_directory, "/repo");
    assert_eq!(setup.max_connections, None);
    assert!(setup.payload.contains("pkg_name <- 'pkg'"));
    assert_eq!(setup.rscript_args("/tmp/s.R"), vec!["--vanilla".to_string(), "/tmp/s.R".to_string()]);
    let prepare = build_job(Phase::Prepare, "/repo", 32, &facts);
    assert_eq!(prepare.max_connections, Some(256));
    assert_eq!(
        prepare.rscript_args("/tmp/i.R"),
        vec!["--vanilla".to_string(), "--max-connections=256".to_string(), "/tmp/i.R".to_string()]
    );
    let run = build_job(Phase::Run, "/repo", 8, &facts);
    assert!(run.payload.contains("xfun::rev_check"));
    assert_eq!(run.phase, Phase::Run);
}

#[test]
fn classifies_phase_outcomes() {
    assert_eq!(PhaseOutcome::from_exit(Some(0)), PhaseOutcome::Succeeded);
    assert_eq!(PhaseOutcome::from_exit(Some(2)), PhaseOutcome::FailedWithStatus(Some(2)));
    assert_eq!(PhaseOutcome::from_exit(None), PhaseOutcome::FailedWithStatus(None));
    assert!(!PhaseOutcome::FailedToLaunch("no such file".to_string()).is_success());
}

#[test]
fn forwards_trimmed_streams() {
    assert_eq!(stream_report("git clone x", "stdout", b""), None);
    assert_eq!(stream_report("git clone x", "stdout", b"  \n "), None);
    assert_eq!(
        stream_report("git clone x", "stderr", b"\n fatal: nope \n"),
        Some("git clone x stderr:\nfatal: nope".to_string())
    );
    assert_eq!(
        stream_report("t", "stdout", b"a\xffb"),
        Some("t stdout:\na\u{fffd}b".to_string())
    );
    assert_eq!(
        command_diagnostics("tar", b"", b"oops"),
        vec!["tar stderr:\noops".to_string()]
    );
}
