use config_reload::recursive::{ParseError, RecursiveMode};
use config_reload::target::WatchTarget;

#[test]
fn recursive_token_resolves() {
    assert_eq!(RecursiveMode::from_str("recursive"), Ok(RecursiveMode::Recursive));
}

#[test]
fn nonrecursive_token_resolves() {
    assert_eq!(RecursiveMode::from_str("nonrecursive"), Ok(RecursiveMode::NonRecursive));
}

#[test]
fn the_two_tokens_name_different_modes() {
    let deep = RecursiveMode::from_str("recursive").unwrap();
    let flat = RecursiveMode::from_str("nonrecursive").unwrap();
    assert_ne!(deep, flat);
}

#[test]
fn other_text_is_rejected_without_a_default() {
    let rejected = [
        "",
        " ",
        "Recursive",
        "RECURSIVE",
        "NonRecursive",
        "non-recursive",
        "non_recursive",
        "recursive ",
        " recursive",
        "recursiv",
        "recursivee",
        "nonrecursiv",
        "nonrecursive\n",
        "true",
        "récursive",
    ];
    for text in rejected {
        assert_eq!(RecursiveMode::from_str(text), Err(ParseError::UnrecognizedMode), "{:?}", text);
    }
}

#[test]
fn tokens_of_equal_length_are_told_apart() {
    assert_eq!(RecursiveMode::from_str("recursivE"), Err(ParseError::UnrecognizedMode));
    assert_eq!(RecursiveMode::from_str("Nonrecursive"), Err(ParseError::UnrecognizedMode));
    assert_eq!(RecursiveMode::from_str("nonrecursivf"), Err(ParseError::UnrecognizedMode));
}

#[test]
fn parse_error_has_its_message() {
    assert_eq!(ParseError::UnrecognizedMode.message(), "unrecognized recursion mode");
}

#[test]
fn target_binds_path_and_mode() {
    let target = WatchTarget::new("/etc/service/config.yaml".to_string(), "nonrecursive").unwrap();
    assert_eq!(target.path(), "/etc/service/config.yaml");
    assert_eq!(target.mode(), RecursiveMode::NonRecursive);
    let target = WatchTarget::new("conf".to_string(), "recursive").unwrap();
    assert_eq!(target.path(), "conf");
    assert_eq!(target.mode(), RecursiveMode::Recursive);
}

#[test]
fn target_is_refused_on_an_unknown_mode() {
    let made = WatchTarget::new("config.yaml".to_string(), "deep");
    assert!(matches!(made, Err(ParseError::UnrecognizedMode)));
}
