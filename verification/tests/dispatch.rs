use spawner::argparser::{DispatchAction, Program};
use spawner::errors::ValidationError;

fn argv(parts: &[&str]) -> Vec<String> {
    parts.iter().map(|s| s.to_string()).collect()
}

fn run(parts: &[&str]) -> Result<DispatchAction, ValidationError> {
    let args = argv(parts);
    Program::new(&args)?.execute()
}

#[test]
fn standalone_start_dispatches_the_crawl() {
    assert_eq!(
        run(&["prog", "--mode", "standalone", "--start-url", "http://x", "start"]),
        Ok(DispatchAction::StandaloneCrawl(String::from("http://x")))
    );
}

#[test]
fn distributed_serve_dispatches_the_coordinator() {
    assert_eq!(
        run(&["prog", "--mode", "distributed", "--publish", "0.0.0.0:9000", "serve"]),
        Ok(DispatchAction::DistributedServe(String::from("0.0.0.0:9000")))
    );
}

#[test]
fn distributed_connect_dispatches_the_worker() {
    assert_eq!(
        run(&["prog", "--mode", "distributed", "--web-url", "10.0.0.1:9000", "connect"]),
        Ok(DispatchAction::DistributedConnect(String::from("10.0.0.1:9000")))
    );
}

#[test]
fn distributed_start_is_a_deprecated_noop() {
    assert_eq!(
        run(&["prog", "--mode", "distributed", "--start-url", "http://x", "start"]),
        Ok(DispatchAction::DeprecatedDistributedStart)
    );
}

#[test]
fn standalone_serve_is_rejected() {
    assert_eq!(
        run(&["prog", "--mode", "standalone", "serve"]),
        Err(ValidationError::StandaloneServeNoop)
    );
}

#[test]
fn standalone_serve_is_rejected_whatever_options_are_given() {
    assert_eq!(
        run(&["prog", "--mode", "standalone", "--start-url", "u", "--publish", "p", "serve"]),
        Err(ValidationError::StandaloneServeNoop)
    );
}

#[test]
fn standalone_connect_is_rejected() {
    assert_eq!(
        run(&["prog", "--mode", "standalone", "connect"]),
        Err(ValidationError::ConnectRequiresDistributed)
    );
}

#[test]
fn dispatch_carries_exactly_the_given_url() {
    let args = argv(&["prog", "--mode", "standalone", "--start-url", "http://x", "start"]);
    let program = Program::new(&args).unwrap();
    match program.execute() {
        Ok(DispatchAction::StandaloneCrawl(url)) => assert_eq!(url, "http://x"),
        other => panic!("expected a standalone crawl, got {:?}", other),
    }
}

#[test]
fn whole_run_is_deterministic() {
    let parts: &[&str] = &["prog", "--mode", "distributed", "--publish", "a:1", "serve"];
    assert_eq!(run(parts), run(parts));
    let failing: &[&str] = &["prog", "--mode", "standalone", "serve"];
    assert_eq!(run(failing), run(failing));
}
