use device_shutdown::{log_deletion_enabled, parse_requirements_text, python_version, requirement_name, split_lines};

#[test]
fn requirement_names_drop_versions() {
    let text = "requests==2.31.0\n\n  telethon >= 1.30\nplaywright~=1.40\r\nnumpy<2\n   \npython-dotenv\n==1.0\n";
    assert_eq!(
        parse_requirements_text(text),
        vec!["requests", "telethon", "playwright", "numpy", "python-dotenv"]
    );
}

#[test]
fn empty_requirements_file() {
    assert!(parse_requirements_text("").is_empty());
    assert!(parse_requirements_text("\n\n  \n").is_empty());
}

#[test]
fn single_requirement_lines() {
    assert_eq!(requirement_name("  flask  "), Some("flask".to_string()));
    assert_eq!(requirement_name("a>1<2"), Some("a".to_string()));
    assert_eq!(requirement_name(">=1.0"), None);
    assert_eq!(requirement_name("   "), None);
    assert_eq!(requirement_name(""), None);
}

#[test]
fn log_deletion_setting() {
    assert!(log_deletion_enabled(Some("true")));
    assert!(!log_deletion_enabled(Some("false")));
    assert!(!log_deletion_enabled(Some("TRUE")));
    assert!(!log_deletion_enabled(Some(" true")));
    assert!(!log_deletion_enabled(None));
}

#[test]
fn python_version_major_minor() {
    assert_eq!(python_version("Python 3.13.0\n"), Some("3.13".to_string()));
    assert_eq!(python_version("Python 3.9"), Some("3.9".to_string()));
    assert_eq!(python_version("Python 3"), Some("3".to_string()));
    assert_eq!(python_version("Python 3.12.1.post2"), Some("3.12".to_string()));
    assert_eq!(python_version("  Python   3.11.4  "), Some("3.11".to_string()));
    assert_eq!(python_version("Python"), None);
    assert_eq!(python_version(""), None);
}

#[test]
fn lines_match_str_lines() {
    for text in ["", "\n", "a", "a\n", "a\r\nb", "a\r", "a\r\r\n", "\r\n\r\n", "x\n\ny\n", "é\nü\r\n"] {
        let expected: Vec<String> = text.lines().map(|l| l.to_string()).collect();
        assert_eq!(split_lines(text), expected, "text {:?}", text);
    }
}

#[test]
fn line_split_exact_values() {
    assert_eq!(split_lines("one\r\ntwo\n\nthree"), vec!["one", "two", "", "three"]);
    assert_eq!(split_lines("tail\r"), vec!["tail\r"]);
}
