use april_backend::process::{
    check_python_version, open_arguments, pip_arguments, pip_command_arguments,
    python_version_verdict, run_arguments, venv_arguments,
};
use april_backend::settings::{enabled_selection, read_enabled_selection};

#[test]
fn selection_reads_string_items() {
    let text = r#"{"remindersLists": ["s1-B", 3, null, "s2-C"], "other": 1}"#.to_string();
    assert_eq!(
        read_enabled_selection(Some(text)),
        Some(vec!["s1-B".to_string(), "s2-C".to_string()])
    );
}

#[test]
fn selection_empty_array_is_empty() {
    let text = r#"{"remindersLists": []}"#.to_string();
    assert_eq!(read_enabled_selection(Some(text)), Some(vec![]));
}

#[test]
fn selection_missing_is_none() {
    assert_eq!(read_enabled_selection(None), None);
    assert_eq!(read_enabled_selection(Some("not json".to_string())), None);
    assert_eq!(read_enabled_selection(Some(r#"{"other": []}"#.to_string())), None);
    assert_eq!(read_enabled_selection(Some(r#"{"remindersLists": "s1-B"}"#.to_string())), None);
    assert_eq!(read_enabled_selection(Some("[1, 2]".to_string())), None);
}

#[test]
fn selection_skips_non_strings() {
    let items = Some(vec![None, Some("a".to_string()), None, Some("b".to_string())]);
    assert_eq!(enabled_selection(items), Some(vec!["a".to_string(), "b".to_string()]));
    assert_eq!(enabled_selection(None), None);
}

#[test]
fn open_arguments_cover_each_shape() {
    let s = |x: &str| Some(x.to_string());
    assert_eq!(open_arguments(s("f.txt"), s("TextEdit")), Some(vec!["f.txt".into(), "-a".into(), "TextEdit".into()]));
    assert_eq!(open_arguments(s("f.txt"), None), Some(vec!["f.txt".to_string()]));
    assert_eq!(open_arguments(None, s("Mail")), Some(vec!["-a".to_string(), "Mail".to_string()]));
    assert_eq!(open_arguments(None, None), None);
}

#[test]
fn interpreter_arguments() {
    assert_eq!(run_arguments("print(1)".into()), vec!["-c".to_string(), "print(1)".to_string()]);
    assert_eq!(venv_arguments("/v".into()), vec!["-m".to_string(), "venv".to_string(), "/v".to_string()]);
}

#[test]
fn pip_arguments_split_shell_words() {
    let expected: Vec<String> = ["-m", "pip", "install", "numpy pandas", "requests", "-qq"]
        .iter().map(|s| s.to_string()).collect();
    assert_eq!(pip_arguments("install 'numpy pandas' requests"), Some(expected));
    assert_eq!(pip_arguments(""), Some(vec!["-m".to_string(), "pip".to_string(), "-qq".to_string()]));
    assert_eq!(pip_arguments("install 'unclosed"), None);
    assert_eq!(
        pip_command_arguments(vec!["list".into()]),
        vec!["-m".to_string(), "pip".to_string(), "list".to_string(), "-qq".to_string()]
    );
}

#[test]
fn version_verdicts() {
    assert_eq!(python_version_verdict(Ok(true)), Ok(()));
    assert_eq!(python_version_verdict(Ok(false)), Err("Python 3.6 or higher is required".to_string()));
    assert_eq!(python_version_verdict(Err(())), Err("Error ensuring Python version".to_string()));
}

#[test]
fn python_versions_are_compared() {
    assert_eq!(check_python_version("Python 3.11.4\n"), Ok(()));
    assert_eq!(check_python_version("Python 3.6"), Ok(()));
    assert_eq!(
        check_python_version("Python 2.7.18"),
        Err("Python 3.6 or higher is required".to_string())
    );
}
