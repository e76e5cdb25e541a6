use host_commands::home::{DEFAULT_HOME, PRIMARY_HOME_VARIABLE, SECONDARY_HOME_VARIABLE};
use host_commands::resolve_home;

#[test]
fn variables_and_default_are_the_conventional_ones() {
    assert_eq!(PRIMARY_HOME_VARIABLE, "USERPROFILE");
    assert_eq!(SECONDARY_HOME_VARIABLE, "HOME");
    assert_eq!(DEFAULT_HOME, "C:\\Users\\User");
}

#[test]
fn neither_variable_set_gives_the_default() {
    assert_eq!(resolve_home(None, None), "C:\\Users\\User");
}

#[test]
fn primary_wins_over_secondary() {
    let home = resolve_home(Some("C:\\Users\\ada".to_string()), Some("/home/ada".to_string()));
    assert_eq!(home, "C:\\Users\\ada");
}

#[test]
fn primary_alone_is_the_home() {
    assert_eq!(resolve_home(Some("D:\\people\\ada".to_string()), None), "D:\\people\\ada");
}

#[test]
fn secondary_stands_in_for_a_missing_primary() {
    assert_eq!(resolve_home(None, Some("/home/ada".to_string())), "/home/ada");
}

#[test]
fn an_empty_primary_value_is_still_a_value() {
    assert_eq!(resolve_home(Some(String::new()), Some("/home/ada".to_string())), "");
}
