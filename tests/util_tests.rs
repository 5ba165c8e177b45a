use revdeprun::util::{guess_repo_name, optimal_max_connections, r_string_literal, r_string_value};

#[test]
fn escapes_r_string_literals() {
    assert_eq!(r_string_literal(r#"abc"#), "'abc'");
    assert_eq!(r_string_literal(r#"O'Reilly"#), "'O\\'Reilly'");
    assert_eq!(r_string_literal(r#"C:\R"#), "'C:\\\\R'");
}

#[test]
fn infers_repository_name() {
    assert_eq!(
        guess_repo_name("https://github.com/nanxstats/ggsci.git"),
        Some("ggsci".to_string())
    );
    assert_eq!(
        guess_repo_name("git@github.com:nanxstats/ggsci.git"),
        Some("ggsci".to_string())
    );
    assert_eq!(guess_repo_name(""), None);
}

#[test]
fn computes_max_connections() {
    assert_eq!(optimal_max_connections(16), 128);
    assert_eq!(optimal_max_connections(32), 256);
    assert_eq!(optimal_max_connections(128), 512);
    assert_eq!(optimal_max_connections(256), 896);
    assert_eq!(optimal_max_connections(384), 1280);
    assert_eq!(optimal_max_connections(1024), 3200);
    assert_eq!(optimal_max_connections(2000), 4096);
}

#[test]
fn max_connections_edges() {
    assert_eq!(optimal_max_connections(0), 128);
    assert_eq!(optimal_max_connections(1), 128);
    assert_eq!(optimal_max_connections(22), 256);
    assert_eq!(optimal_max_connections(1344), 4096);
    assert_eq!(optimal_max_connections(1302), 4096);
    assert_eq!(optimal_max_connections(1301), 3968);
    assert_eq!(optimal_max_connections(1300), 3968);
    assert_eq!(optimal_max_connections(usize::MAX), 4096);
}

#[test]
fn literal_round_trip_on_quotes_and_backslashes() {
    for s in ["", "abc", "O'Reilly", "C:\\R", "'\\'", "\\\\''", "päckage ü", "/tmp/a b/c"] {
        let lit = r_string_literal(s);
        assert!(lit.starts_with('\'') && lit.ends_with('\''));
        assert_eq!(r_string_value(&lit), Some(s.to_string()));
    }
}

#[test]
fn literal_reader_rejects_other_forms() {
    assert_eq!(r_string_value("abc"), None);
    assert_eq!(r_string_value("'"), None);
    assert_eq!(r_string_value("'a'b'"), None);
    assert_eq!(r_string_value("'a\\n'"), None);
    assert_eq!(r_string_value("''"), Some(String::new()));
}

#[test]
fn repo_name_ignores_trailing_slash_and_git_suffix() {
    assert_eq!(guess_repo_name("https://host/org/pkg.git/"), Some("pkg".to_string()));
    assert_eq!(guess_repo_name("https://host/org/pkg.git"), Some("pkg".to_string()));
    assert_eq!(guess_repo_name("https://host/org/pkg"), Some("pkg".to_string()));
    assert_eq!(guess_repo_name("git@host:org/pkg.git"), Some("pkg".to_string()));
    assert_eq!(guess_repo_name("  https://host/org/pkg///  "), Some("pkg".to_string()));
    assert_eq!(guess_repo_name("host:pkg"), Some("pkg".to_string()));
}

#[test]
fn repo_name_absent_cases() {
    assert_eq!(guess_repo_name("   "), None);
    assert_eq!(guess_repo_name("///"), None);
    assert_eq!(guess_repo_name("https://host/.git"), None);
    assert_eq!(guess_repo_name("pkg.git.git"), Some("pkg.git".to_string()));
}
