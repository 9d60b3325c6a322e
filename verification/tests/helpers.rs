use spawner::argparser::{check_invalid_arg, get_arg_value};

fn argv(parts: &[&str]) -> Vec<String> {
    parts.iter().map(|s| s.to_string()).collect()
}

#[test]
fn check_invalid_arg_detects_a_flag_pair() {
    let args = argv(&["prog", "-a", "-b", "start"]);
    assert!(check_invalid_arg(1, &args));
    assert!(!check_invalid_arg(2, &args));
}

#[test]
fn check_invalid_arg_lets_a_flag_value_pair_pass() {
    let args = argv(&["prog", "--mode", "standalone", "start"]);
    assert!(!check_invalid_arg(1, &args));
    assert!(!check_invalid_arg(2, &args));
}

#[test]
fn check_invalid_arg_skips_the_final_token() {
    let args = argv(&["prog", "start", "--mode"]);
    assert!(!check_invalid_arg(2, &args));
}

#[test]
fn get_arg_value_returns_the_following_token() {
    let args = argv(&["prog", "--mode", "standalone", "start"]);
    assert_eq!(get_arg_value(1, &args), &String::from("standalone"));
}
