//! The behavioural laws of the front end, stated and proved once and for
//! all over the specification functions that `Program::new` and
//! `Program::execute` are verified against.
//!
//! Each law quantifies over whole invocations.  Where a law concerns one
//! step of the pipeline, its hypotheses name the earlier steps that must
//! pass first, because validation short-circuits on the first failure in a
//! fixed order: token count, command resolution, flag adjacency, mode
//! resolution, option requirements.

use vstd::prelude::*;

use crate::argparser::{
    dispatch, outcome, validate, wf_program, ActionView, ProgramView,
};
use crate::errors::{RequiredOption, ValidationError};
use crate::tokens::{
    command_count, has_adjacent_flags, lemma_adjacency_scan, mode_of, option_value,
    resolved_command, Command, CrawlerMode,
};

verus! {

/// Every invocation with fewer than two tokens is rejected as
/// `InsufficientArguments`, whatever the tokens are.
pub proof fn lemma_insufficient_arguments(args: Seq<String>)
    requires
        args.len() < 2,
    ensures
        outcome(args) == Err::<ActionView, ValidationError>(ValidationError::InsufficientArguments),
{
}

/// Every invocation that resolves exactly one command and contains two
/// consecutive flag-shaped tokens is rejected with an adjacency error,
/// regardless of its other content.  (With zero or several command tokens
/// the command failure is reported first: command resolution precedes the
/// adjacency scan.)
pub proof fn lemma_adjacent_flags_rejected(args: Seq<String>)
    requires
        command_count(args) == 1,
        has_adjacent_flags(args),
    ensures
        outcome(args) matches Err(ValidationError::AdjacentFlags(_)),
{
    lemma_adjacency_scan(args);
}

/// Every well-formed standalone `start` invocation with a start URL
/// dispatches the standalone crawl with exactly that URL.
pub proof fn lemma_standalone_start_dispatch(args: Seq<String>, url: Seq<char>)
    requires
        args.len() >= 2,
        command_count(args) == 1,
        resolved_command(args) == Some(Command::Start),
        !has_adjacent_flags(args),
        mode_of(args) == CrawlerMode::Standalone,
        option_value(args, "--start-url"@) == Some(url),
    ensures
        outcome(args) == Ok::<ActionView, ValidationError>(ActionView::StandaloneCrawl(url)),
{
    lemma_adjacency_scan(args);
}

/// Every well-formed standalone `serve` invocation is rejected as
/// `StandaloneServeNoop`, regardless of which options it carries.
pub proof fn lemma_standalone_serve_noop(args: Seq<String>)
    requires
        args.len() >= 2,
        command_count(args) == 1,
        resolved_command(args) == Some(Command::Serve),
        !has_adjacent_flags(args),
        mode_of(args) == CrawlerMode::Standalone,
    ensures
        outcome(args) == Err::<ActionView, ValidationError>(ValidationError::StandaloneServeNoop),
{
    lemma_adjacency_scan(args);
}

/// Every well-formed distributed `connect` invocation without a web URL is
/// rejected for exactly that missing option.
pub proof fn lemma_distributed_connect_requires_web_url(args: Seq<String>)
    requires
        args.len() >= 2,
        command_count(args) == 1,
        resolved_command(args) == Some(Command::Connect),
        !has_adjacent_flags(args),
        mode_of(args) == CrawlerMode::Distributed,
        option_value(args, "--web-url"@) is None,
    ensures
        outcome(args) == Err::<ActionView, ValidationError>(
            ValidationError::MissingRequiredOption(RequiredOption::WebUrl),
        ),
{
    lemma_adjacency_scan(args);
}

/// Every well-formed distributed `serve` invocation with a publish address
/// dispatches the coordinator with exactly that address.
pub proof fn lemma_distributed_serve_dispatch(args: Seq<String>, addr: Seq<char>)
    requires
        args.len() >= 2,
        command_count(args) == 1,
        resolved_command(args) == Some(Command::Serve),
        !has_adjacent_flags(args),
        mode_of(args) == CrawlerMode::Distributed,
        option_value(args, "--publish"@) == Some(addr),
    ensures
        outcome(args) == Ok::<ActionView, ValidationError>(ActionView::DistributedServe(addr)),
{
    lemma_adjacency_scan(args);
}

/// Evaluating the same invocation twice yields the same outcome, error or
/// configuration alike: the result is a function of the tokens and of
/// nothing else.  `Program::new` and `Program::execute` each pin their
/// result to `outcome`, so two runs can never disagree.
pub proof fn lemma_outcome_deterministic(
    args: Seq<String>,
    r1: Result<ActionView, ValidationError>,
    r2: Result<ActionView, ValidationError>,
)
    requires
        r1 == outcome(args),
        r2 == outcome(args),
    ensures
        r1 == r2,
{
}

/// Validation is the sole gatekeeper: every configuration it yields is well
/// formed.
pub proof fn lemma_validate_well_formed(args: Seq<String>, p: ProgramView)
    requires
        validate(args) == Ok::<ProgramView, ValidationError>(p),
    ensures
        wf_program(p),
{
}

/// On a well-formed configuration, dispatch never reports a missing option
/// or an invalid mode: the only failures left are the two mode-mismatched
/// commands, which dispatch itself owns.
pub proof fn lemma_dispatch_total_on_well_formed(p: ProgramView)
    requires
        wf_program(p),
    ensures
        match dispatch(p) {
            Ok(_) => true,
            Err(e) => e == ValidationError::StandaloneServeNoop || e
                == ValidationError::ConnectRequiresDistributed,
        },
{
}

} // verus!
