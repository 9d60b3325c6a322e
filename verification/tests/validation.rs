use spawner::argparser::Program;
use spawner::errors::{RequiredOption, ValidationError};
use spawner::tokens::{Command, CrawlerMode};

fn argv(parts: &[&str]) -> Vec<String> {
    parts.iter().map(|s| s.to_string()).collect()
}

#[test]
fn insufficient_arguments_on_empty_invocation() {
    let args = argv(&[]);
    assert_eq!(
        Program::new(&args),
        Err(ValidationError::InsufficientArguments)
    );
}

#[test]
fn insufficient_arguments_on_program_name_alone() {
    let args = argv(&["prog"]);
    assert_eq!(
        Program::new(&args),
        Err(ValidationError::InsufficientArguments)
    );
}

#[test]
fn no_command_provided() {
    let args = argv(&["prog", "--mode", "standalone"]);
    assert_eq!(Program::new(&args), Err(ValidationError::NoCommandProvided));
}

#[test]
fn ambiguous_command_rejected() {
    let args = argv(&["prog", "--mode", "standalone", "--start-url", "http://x", "start", "serve"]);
    assert_eq!(Program::new(&args), Err(ValidationError::AmbiguousCommand));
}

#[test]
fn adjacent_flags_reports_first_index() {
    let args = argv(&["prog", "start", "-a", "-b"]);
    assert_eq!(Program::new(&args), Err(ValidationError::AdjacentFlags(2)));
}

#[test]
fn adjacent_flags_beats_mode_resolution() {
    let args = argv(&["prog", "--mode", "-x", "start"]);
    assert_eq!(Program::new(&args), Err(ValidationError::AdjacentFlags(1)));
}

#[test]
fn adjacent_flags_earliest_pair_wins() {
    let args = argv(&["prog", "-a", "-b", "-c", "start"]);
    assert_eq!(Program::new(&args), Err(ValidationError::AdjacentFlags(1)));
}

#[test]
fn command_failure_reported_before_adjacency() {
    let args = argv(&["prog", "-a", "-b"]);
    assert_eq!(Program::new(&args), Err(ValidationError::NoCommandProvided));
}

#[test]
fn invalid_mode_when_mode_missing() {
    let args = argv(&["prog", "start"]);
    assert_eq!(Program::new(&args), Err(ValidationError::InvalidMode));
}

#[test]
fn invalid_mode_on_unknown_value() {
    let args = argv(&["prog", "--mode", "banana", "start"]);
    assert_eq!(Program::new(&args), Err(ValidationError::InvalidMode));
}

#[test]
fn invalid_mode_is_case_sensitive() {
    let args = argv(&["prog", "--mode", "Standalone", "start"]);
    assert_eq!(Program::new(&args), Err(ValidationError::InvalidMode));
}

#[test]
fn trailing_mode_flag_has_no_value() {
    let args = argv(&["prog", "start", "--mode"]);
    assert_eq!(Program::new(&args), Err(ValidationError::InvalidMode));
}

#[test]
fn missing_start_url_in_standalone_start() {
    let args = argv(&["prog", "--mode", "standalone", "start"]);
    assert_eq!(
        Program::new(&args),
        Err(ValidationError::MissingRequiredOption(RequiredOption::StartUrl))
    );
}

#[test]
fn missing_start_url_in_distributed_start() {
    let args = argv(&["prog", "--mode", "distributed", "start"]);
    assert_eq!(
        Program::new(&args),
        Err(ValidationError::MissingRequiredOption(RequiredOption::StartUrl))
    );
}

#[test]
fn missing_publish_in_distributed_serve() {
    let args = argv(&["prog", "--mode", "distributed", "serve"]);
    assert_eq!(
        Program::new(&args),
        Err(ValidationError::MissingRequiredOption(RequiredOption::Publish))
    );
}

#[test]
fn missing_web_url_in_distributed_connect() {
    let args = argv(&["prog", "--mode", "distributed", "connect"]);
    assert_eq!(
        Program::new(&args),
        Err(ValidationError::MissingRequiredOption(RequiredOption::WebUrl))
    );
}

#[test]
fn validated_program_carries_its_fields() {
    let args = argv(&["prog", "--mode", "standalone", "--start-url", "http://x", "start"]);
    let program = Program::new(&args).unwrap();
    assert_eq!(program.command, Command::Start);
    assert_eq!(program.opts.mode, CrawlerMode::Standalone);
    assert_eq!(program.opts.start_url, Some(String::from("http://x")));
    assert_eq!(program.opts.publish, None);
    assert_eq!(program.opts.web_url, None);
}

#[test]
fn last_mode_occurrence_wins() {
    let args = argv(&[
        "prog", "--mode", "standalone", "--mode", "distributed", "--start-url", "u", "start",
    ]);
    let program = Program::new(&args).unwrap();
    assert_eq!(program.opts.mode, CrawlerMode::Distributed);
}

#[test]
fn last_repeated_option_wins() {
    let args = argv(&[
        "prog", "--mode", "standalone", "--start-url", "a", "--start-url", "b", "start",
    ]);
    let program = Program::new(&args).unwrap();
    assert_eq!(program.opts.start_url, Some(String::from("b")));
}

#[test]
fn validation_is_deterministic() {
    let args = argv(&["prog", "--mode", "distributed", "connect"]);
    assert_eq!(Program::new(&args), Program::new(&args));
    let ok_args = argv(&["prog", "--mode", "standalone", "--start-url", "u", "start"]);
    assert_eq!(Program::new(&ok_args), Program::new(&ok_args));
}

#[test]
fn messages_identify_the_failure() {
    assert_eq!(
        ValidationError::InsufficientArguments.message(),
        String::from("insufficient number of arguments")
    );
    assert_eq!(
        ValidationError::AdjacentFlags(2).message(),
        String::from("invalid argument provided")
    );
    assert_eq!(
        ValidationError::InvalidMode.message(),
        String::from("a valid mode is required")
    );
    assert_eq!(
        ValidationError::MissingRequiredOption(RequiredOption::StartUrl).message(),
        String::from("start_url is required")
    );
    assert_eq!(
        ValidationError::ConnectRequiresDistributed.message(),
        String::from("connect command only available for distributed mode")
    );
}
