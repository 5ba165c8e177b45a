use revdeprun::cli::Args;
use revdeprun::r_version::{
    api_arch, normalize_spec, parse_os_release, platform_from_os_release, platform_override,
    resolve_url, PlatformError, ResolvedRVersion,
};
use revdeprun::summary::DecodeError;
use revdeprun::toolchain::{
    file_name_from_url, r_binary_path, reports_version, tinytex_installed_from_listing, UrlError,
};

#[test]
fn normalises_version_spec() {
    assert_eq!(normalize_spec("latest"), "release");
    assert_eq!(normalize_spec("4.x"), "release");
    assert_eq!(normalize_spec("3.x"), "3.6.3");
    assert_eq!(normalize_spec("4.2.x"), "4.2");
    assert_eq!(normalize_spec("oldrel-1"), "oldrel/1");
    assert_eq!(normalize_spec(" 4.3.2 "), "4.3.2");
}

#[test]
fn normalises_other_version_specs() {
    assert_eq!(normalize_spec("4"), "release");
    assert_eq!(normalize_spec("4.x.x"), "release");
    assert_eq!(normalize_spec("3"), "3.6.3");
    assert_eq!(normalize_spec("3.x.x"), "3.6.3");
    assert_eq!(normalize_spec("4.1.x.x"), "4.1");
    assert_eq!(normalize_spec("devel"), "devel");
    assert_eq!(normalize_spec("oldrel-oldrel-2"), "oldrel/oldrel-2");
}

#[test]
fn parses_os_release() {
    let sample = r#"NAME="Ubuntu"
VERSION="22.04.4 LTS (Jammy Jellyfish)"
ID=ubuntu
ID_LIKE=debian
VERSION_ID="22.04"
PRETTY_NAME="Ubuntu 22.04.4 LTS"
VERSION_CODENAME=jammy
UBUNTU_CODENAME=jammy
"#;

    let pairs = parse_os_release(sample);
    assert_eq!(pairs.get("ID").map(String::as_str), Some("ubuntu"));
    assert_eq!(pairs.get("VERSION_ID").map(String::as_str), Some("22.04"));
}

#[test]
fn os_release_skips_comments_and_keeps_last_value() {
    let pairs = parse_os_release("# ID=commented\nID=first\n  ID = 'second' \nNOEQUALS\n");
    assert_eq!(pairs.get("ID").map(String::as_str), Some("second"));
    assert_eq!(pairs.get("NOEQUALS"), None);
    assert_eq!(pairs.pairs.len(), 2);
}

#[test]
fn names_the_platform() {
    let ok = platform_from_os_release("ID=ubuntu\nVERSION_ID=\"24.04\"\n");
    assert_eq!(ok, Ok("linux-ubuntu-24.04".to_string()));
    assert_eq!(platform_from_os_release("VERSION_ID=1\n"), Err(PlatformError::MissingId));
    assert_eq!(platform_from_os_release("ID=debian\n"), Err(PlatformError::MissingVersionId));
    assert_eq!(platform_override("  "), None);
    assert_eq!(platform_override("linux-x"), Some("linux-x".to_string()));
}

#[test]
fn builds_the_version_query() {
    assert_eq!(api_arch("x86_64"), Some("x86_64"));
    assert_eq!(api_arch("aarch64"), Some("arm64"));
    assert_eq!(api_arch("riscv64"), None);
    assert_eq!(
        resolve_url("4.x", "linux-ubuntu-22.04", Some("arm64")),
        "https://api.r-hub.io/rversions/resolve/release/linux-ubuntu-22.04/arm64"
    );
    assert_eq!(
        resolve_url("oldrel-1", "linux-ubuntu-22.04", None),
        "https://api.r-hub.io/rversions/resolve/oldrel/1/linux-ubuntu-22.04"
    );
}

#[test]
fn decodes_the_version_answer() {
    let body = br#"{"version":"4.4.1","url":"https://x/r.deb","type":"release","date":"x"}"#;
    let v = ResolvedRVersion::decode(body).expect("answer decodes");
    assert_eq!(v.version, "4.4.1");
    assert_eq!(v.url, "https://x/r.deb");
    assert_eq!(v.kind.as_deref(), Some("release"));
    assert_eq!(v.install_dir_name(), "4.4.1");

    let devel = ResolvedRVersion::decode(br#"{"version":"4.5","url":"u","type":"devel"}"#).unwrap();
    assert_eq!(devel.install_dir_name(), "devel");
    let next = ResolvedRVersion::decode(br#"{"version":"4.5","url":"u","type":"next"}"#).unwrap();
    assert_eq!(next.install_dir_name(), "next");
    let none = ResolvedRVersion::decode(br#"{"version":"4.5","url":"u","type":null}"#).unwrap();
    assert_eq!(none.kind, None);
    assert!(matches!(
        ResolvedRVersion::decode(br#"{"version":4,"url":"u"}"#),
        Err(DecodeError::BadShape)
    ));
}

#[test]
fn reads_toolchain_reports() {
    assert!(reports_version("R version 4.4.1 (2024-06-14)", "4.4.1"));
    assert!(!reports_version("R version 4.4.0", "4.4.1"));
    assert!(tinytex_installed_from_listing("Tools\n  tinytex   v2024  Up to date\n"));
    assert!(!tinytex_installed_from_listing("  tinytex   Not installed\n"));
    assert!(!tinytex_installed_from_listing("chromium Up to date\n"));
    assert_eq!(r_binary_path("4.4.1", "Rscript"), "/opt/R/4.4.1/bin/Rscript");
}

#[test]
fn worker_count_defaults_to_cpus() {
    let mut args = Args {
        repository: "x".to_string(),
        r_version: "release".to_string(),
        num_workers: Some(6),
        work_dir: None,
        skip_r_install: false,
    };
    assert_eq!(args.worker_count(), 6);
    args.num_workers = None;
    assert!(args.worker_count() >= 1);
}

#[test]
fn installer_file_name_from_url() {
    assert_eq!(
        file_name_from_url("https://cdn.example.org/r/ubuntu-2204/r-4.4.1_1_amd64.deb?x=1"),
        Ok("r-4.4.1_1_amd64.deb".to_string())
    );
    assert_eq!(file_name_from_url("https://example.com/dir/"), Err(UrlError::NoFileName));
    assert_eq!(file_name_from_url("https://example.com"), Err(UrlError::NoFileName));
    assert_eq!(file_name_from_url("not a url"), Err(UrlError::NotAUrl));
    assert_eq!(file_name_from_url("data:text/plain,x"), Err(UrlError::NotAUrl));
}
