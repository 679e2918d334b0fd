use backup_rotation::args::Args;

fn argv(words: &[&str]) -> Vec<String> {
    words.iter().map(|w| w.to_string()).collect()
}

#[test]
fn test_args() {
    let args = Args::parse_from(argv(&["test", "file1", "file2"])).unwrap();
    assert_eq!(args.files, vec!["file1".to_string(), "file2".to_string()]);
    assert_eq!(args.format, None);
}

#[test]
fn test_args_with_format() {
    let args = Args::parse_from(argv(&["test", "file1", "file2", "--format", "pg_%Y-%m-%d_%H-%M-%S.tar"])).unwrap();
    assert_eq!(args.files, vec!["file1".to_string(), "file2".to_string()]);
    assert_eq!(args.format, Some("pg_%Y-%m-%d_%H-%M-%S.tar".to_string()));
}

#[test]
fn args_format_in_one_word_and_between_files() {
    let args = Args::parse_from(argv(&["test", "a", "--format=x_%Y", "b"])).unwrap();
    assert_eq!(args.files, vec!["a".to_string(), "b".to_string()]);
    assert_eq!(args.format, Some("x_%Y".to_string()));
}

#[test]
fn args_refused() {
    assert!(Args::parse_from(argv(&["test"])).is_none());
    assert!(Args::parse_from(argv(&["test", "a", "--format"])).is_none());
    assert!(Args::parse_from(argv(&["test", "a", "--verbose"])).is_none());
    assert!(Args::parse_from(argv(&["test", "--format", "x"])).is_none());
}
