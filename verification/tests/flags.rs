use rsconfig::quick::{is_flag_arg, FlagConfig};
use rsconfig::CommandlineConfig;

fn strings(args: &[&str]) -> Vec<String> {
    args.iter().map(|arg| arg.to_string()).collect()
}

#[test]
fn flags_begin_with_two_dashes_and_hold_no_colon() {
    assert!(is_flag_arg("--test"));
    assert!(is_flag_arg("--"));
    assert!(is_flag_arg("---"));
    assert!(is_flag_arg("--key=value"));
    assert!(!is_flag_arg("--key:value"));
    assert!(!is_flag_arg("--:"));
    assert!(!is_flag_arg("--key:"));
    assert!(!is_flag_arg("-t"));
    assert!(!is_flag_arg("-"));
    assert!(!is_flag_arg(""));
    assert!(!is_flag_arg("test"));
    assert!(!is_flag_arg("x--test"));
    assert!(!is_flag_arg("-x-test"));
    assert!(is_flag_arg("--überprüfen"));
}

#[test]
fn is_flag_agrees_with_the_string_methods() {
    for arg in ["--a", "--a:b", "-a", "a", "", "--", ":--", "--é:", "-", "--=:"] {
        assert_eq!(is_flag_arg(arg), arg.starts_with("--") && !arg.contains(":"));
    }
}

#[test]
fn flags_are_kept_in_order() {
    let config = FlagConfig::from_env_args(strings(&[
        "prog", "--verbose", "-v", "--level:3", "input.txt", "--", "--dry-run", "x--y",
    ]));
    assert_eq!(config.flags(), &strings(&["--verbose", "--", "--dry-run"]));
}

#[test]
fn no_arguments_no_flags() {
    let config = FlagConfig::from_env_args(Vec::new());
    assert!(config.flags().is_empty());
}

#[test]
fn arguments_without_flags() {
    let config = FlagConfig::from_env_args(strings(&["prog", "-a", "--b:c", "d"]));
    assert!(config.flags().is_empty());
}

#[test]
fn a_flag_given_twice_is_kept_twice() {
    let config = FlagConfig::from_env_args(strings(&["--a", "--b", "--a"]));
    assert_eq!(config.flags(), &strings(&["--a", "--b", "--a"]));
}
