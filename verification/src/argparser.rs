//! Validation and dispatch of an invocation.
//!
//! `Program::new` turns the raw token list into a validated configuration or
//! the first validation error, checking in a fixed order: token count,
//! command resolution, flag adjacency, mode resolution, and finally the
//! (mode, command) option requirement matrix.  `Program::execute` maps the
//! configuration to exactly one collaborator operation, returned as a value
//! for the boundary layer to perform.

use vstd::prelude::*;

use crate::errors::{RequiredOption, ValidationError};
use crate::tokens::{
    adjacent_flags_at, command_count, command_count_prefix, first_adjacent_flag_index,
    first_adjacent_from, flag_shaped, is_flag_token, last_command_prefix,
    lemma_command_count_resolves, lemma_first_adjacent_from, mode_of, option_value,
    option_value_prefix, parse_mode, resolved_command, token_command, Command, CrawlerMode,
};

verus! {

/// The options extracted from an invocation.  `mode` is always resolved
/// (`Invalid` when the flag was missing or unrecognized); the string options
/// are present exactly when their flag appeared with a value.
#[derive(Debug, Clone, PartialEq, Eq)]
pub struct ProgramOpts {
    pub start_url: Option<String>,
    pub mode: CrawlerMode,
    pub publish: Option<String>,
    pub web_url: Option<String>,
}

/// The mathematical content of a `ProgramOpts`: each string option as a
/// sequence of characters.
#[verifier::ext_equal]
pub struct OptsView {
    pub start_url: Option<Seq<char>>,
    pub mode: CrawlerMode,
    pub publish: Option<Seq<char>>,
    pub web_url: Option<Seq<char>>,
}

/// The view of an optional string.
pub open spec fn opt_view(o: Option<String>) -> Option<Seq<char>> {
    match o {
        Some(s) => Some(s@),
        None => None,
    }
}

impl View for ProgramOpts {
    type V = OptsView;

    open spec fn view(&self) -> OptsView {
        OptsView {
            start_url: opt_view(self.start_url),
            mode: self.mode,
            publish: opt_view(self.publish),
            web_url: opt_view(self.web_url),
        }
    }
}

/// What option extraction yields on a given invocation: every recognized
/// flag resolved with the last occurrence winning.
pub open spec fn parsed_opts(args: Seq<String>) -> OptsView {
    OptsView {
        start_url: option_value(args, "--start-url"@),
        mode: mode_of(args),
        publish: option_value(args, "--publish"@),
        web_url: option_value(args, "--web-url"@),
    }
}

/// What `ProgramOpts::new` returns on a given invocation: the first
/// malformed adjacency if there is one, else `InvalidMode` if the mode did
/// not resolve, else the extracted options.
pub open spec fn opts_outcome(args: Seq<String>) -> Result<OptsView, ValidationError> {
    match first_adjacent_flag_index(args) {
        Some(j) => Err(ValidationError::AdjacentFlags(j as usize)),
        None => if mode_of(args) == CrawlerMode::Invalid {
            Err(ValidationError::InvalidMode)
        } else {
            Ok(parsed_opts(args))
        },
    }
}

/// `Result` of option extraction, seen at the spec level.
pub open spec fn opts_result_view(r: Result<ProgramOpts, ValidationError>) -> Result<
    OptsView,
    ValidationError,
> {
    match r {
        Ok(o) => Ok(o@),
        Err(e) => Err(e),
    }
}

/// A validated configuration: the resolved command together with the
/// extracted options.
#[derive(Debug, Clone, PartialEq, Eq)]
pub struct Program {
    pub command: Command,
    pub opts: ProgramOpts,
}

/// The mathematical content of a `Program`.
#[verifier::ext_equal]
pub struct ProgramView {
    pub command: Command,
    pub opts: OptsView,
}

impl View for Program {
    type V = ProgramView;

    open spec fn view(&self) -> ProgramView {
        ProgramView { command: self.command, opts: self.opts@ }
    }
}

/// `Result` of validation, seen at the spec level.
pub open spec fn program_result_view(r: Result<Program, ValidationError>) -> Result<
    ProgramView,
    ValidationError,
> {
    match r {
        Ok(p) => Ok(p@),
        Err(e) => Err(e),
    }
}

/// The option that the (mode, command) requirement matrix demands and the
/// invocation failed to supply, if any.  A crawl start always needs a start
/// URL; a distributed coordinator needs the address it publishes; a
/// distributed worker needs the coordinator address.  `serve` and `connect`
/// under standalone mode demand nothing here: those combinations are
/// rejected by dispatch itself.
pub open spec fn missing_required_option(command: Command, opts: OptsView) -> Option<
    RequiredOption,
> {
    match command {
        Command::Start => if opts.start_url is None {
            Some(RequiredOption::StartUrl)
        } else {
            None
        },
        Command::Serve => if opts.mode == CrawlerMode::Distributed && opts.publish is None {
            Some(RequiredOption::Publish)
        } else {
            None
        },
        Command::Connect => if opts.mode == CrawlerMode::Distributed && opts.web_url is None {
            Some(RequiredOption::WebUrl)
        } else {
            None
        },
    }
}

/// What validation of an invocation yields, in the fixed order that callers
/// observe: token count, command resolution, flag adjacency, mode
/// resolution, then the option requirement matrix.  The first failure wins.
pub open spec fn validate(args: Seq<String>) -> Result<ProgramView, ValidationError> {
    if args.len() < 2 {
        Err(ValidationError::InsufficientArguments)
    } else if command_count(args) == 0 {
        Err(ValidationError::NoCommandProvided)
    } else if command_count(args) > 1 {
        Err(ValidationError::AmbiguousCommand)
    } else {
        match first_adjacent_flag_index(args) {
            Some(j) => Err(ValidationError::AdjacentFlags(j as usize)),
            None => if mode_of(args) == CrawlerMode::Invalid {
                Err(ValidationError::InvalidMode)
            } else {
                match resolved_command(args) {
                    None => Err(ValidationError::NoCommandProvided),
                    Some(c) => match missing_required_option(c, parsed_opts(args)) {
                        Some(o) => Err(ValidationError::MissingRequiredOption(o)),
                        None => Ok(ProgramView { command: c, opts: parsed_opts(args) }),
                    },
                }
            },
        }
    }
}

/// The single collaborator operation a validated configuration routes to.
/// The library only chooses the operation; performing it (crawling, serving,
/// connecting) belongs to the collaborators outside this crate.
#[derive(Debug, Clone, PartialEq, Eq)]
pub enum DispatchAction {
    /// Run the standalone crawler from the carried start URL.
    StandaloneCrawl(String),
    /// Expose a coordinator at the carried publish address.
    DistributedServe(String),
    /// Attach to the coordinator at the carried web URL.
    DistributedConnect(String),
    /// `start` under distributed mode: a deprecated no-op.  The boundary
    /// layer warns that `connect` starts the crawl, and nothing runs.
    DeprecatedDistributedStart,
}

/// The mathematical content of a `DispatchAction`.
#[verifier::ext_equal]
pub enum ActionView {
    StandaloneCrawl(Seq<char>),
    DistributedServe(Seq<char>),
    DistributedConnect(Seq<char>),
    DeprecatedDistributedStart,
}

impl View for DispatchAction {
    type V = ActionView;

    open spec fn view(&self) -> ActionView {
        match self {
            DispatchAction::StandaloneCrawl(u) => ActionView::StandaloneCrawl(u@),
            DispatchAction::DistributedServe(u) => ActionView::DistributedServe(u@),
            DispatchAction::DistributedConnect(u) => ActionView::DistributedConnect(u@),
            DispatchAction::DeprecatedDistributedStart => ActionView::DeprecatedDistributedStart,
        }
    }
}

/// `Result` of dispatch, seen at the spec level.
pub open spec fn action_result_view(r: Result<DispatchAction, ValidationError>) -> Result<
    ActionView,
    ValidationError,
> {
    match r {
        Ok(a) => Ok(a@),
        Err(e) => Err(e),
    }
}

/// Where each (mode, command) pair routes.  Total: combinations that
/// validation already rejects map to the error validation would have
/// raised, so no input reaches an unspecified branch.
pub open spec fn dispatch(p: ProgramView) -> Result<ActionView, ValidationError> {
    match p.command {
        Command::Start => match p.opts.mode {
            CrawlerMode::Standalone => match p.opts.start_url {
                Some(u) => Ok(ActionView::StandaloneCrawl(u)),
                None => Err(ValidationError::MissingRequiredOption(RequiredOption::StartUrl)),
            },
            CrawlerMode::Distributed => Ok(ActionView::DeprecatedDistributedStart),
            CrawlerMode::Invalid => Err(ValidationError::InvalidMode),
        },
        Command::Serve => match p.opts.mode {
            CrawlerMode::Standalone => Err(ValidationError::StandaloneServeNoop),
            CrawlerMode::Distributed => match p.opts.publish {
                Some(u) => Ok(ActionView::DistributedServe(u)),
                None => Err(ValidationError::MissingRequiredOption(RequiredOption::Publish)),
            },
            CrawlerMode::Invalid => Err(ValidationError::InvalidMode),
        },
        Command::Connect => match p.opts.mode {
            CrawlerMode::Standalone => Err(ValidationError::ConnectRequiresDistributed),
            CrawlerMode::Distributed => match p.opts.web_url {
                Some(u) => Ok(ActionView::DistributedConnect(u)),
                None => Err(ValidationError::MissingRequiredOption(RequiredOption::WebUrl)),
            },
            CrawlerMode::Invalid => Err(ValidationError::InvalidMode),
        },
    }
}

/// The outcome of a whole run on one invocation: validate, then dispatch.
pub open spec fn outcome(args: Seq<String>) -> Result<ActionView, ValidationError> {
    match validate(args) {
        Ok(p) => dispatch(p),
        Err(e) => Err(e),
    }
}

/// A configuration is well formed when its mode is resolved and the option
/// its (mode, command) pair requires is present.  `Program::new` only ever
/// constructs well-formed configurations.
pub open spec fn wf_program(p: ProgramView) -> bool {
    p.opts.mode != CrawlerMode::Invalid && missing_required_option(p.command, p.opts) is None
}

/// Whether tokens `i` and `i + 1` are both flag-shaped, so that token `i`
/// has no value.  The final token starts no pair.
pub fn check_invalid_arg(i: usize, args: &Vec<String>) -> (r: bool)
    requires
        i < args@.len(),
    ensures
        r == (i + 1 < args@.len() && flag_shaped(args@[i as int]@) && flag_shaped(
            args@[i as int + 1]@,
        )),
{
    let n = args.len();
    if i + 1 == n {
        return false;
    }
    is_flag_token(&args[i]) && is_flag_token(&args[i + 1])
}

/// The token following token `i`: the value of the flag that stands at `i`.
pub fn get_arg_value(i: usize, args: &Vec<String>) -> (r: &String)
    requires
        i + 1 < args@.len(),
    ensures
        *r == args@[i as int + 1],
{
    let n = args.len();
    assert(i + 1 < n);
    &args[i + 1]
}

impl ProgramOpts {
    /// Extract the options of an invocation.  Fails with the first
    /// adjacency error if two flag-shaped tokens stand side by side, then
    /// with `InvalidMode` if `--mode` did not resolve; otherwise every
    /// recognized flag is resolved with the last occurrence winning.
    pub fn new(args: &Vec<String>) -> (r: Result<ProgramOpts, ValidationError>)
        ensures
            opts_result_view(r) == opts_outcome(args@),
    {
        let n = args.len();
        if n >= 2 {
            let mut i: usize = 1;
            while i < n - 1
                invariant
                    1 <= i <= n - 1,
                    2 <= n == args@.len(),
                    forall|k: int| 1 <= k < i ==> !adjacent_flags_at(args@, k),
                decreases n - i,
            {
                if check_invalid_arg(i, args) {
                    proof {
                        lemma_first_adjacent_from(args@, 1);
                        assert(adjacent_flags_at(args@, i as int));
                        match first_adjacent_from(args@, 1) {
                            Some(j) => {
                                if j < i {
                                    assert(!adjacent_flags_at(args@, j));
                                    assert(false);
                                }
                                if j > i {
                                    assert(!adjacent_flags_at(args@, i as int));
                                    assert(false);
                                }
                            },
                            None => {
                                assert(!adjacent_flags_at(args@, i as int));
                                assert(false);
                            },
                        }
                    }
                    return Err(ValidationError::AdjacentFlags(i));
                }
                i = i + 1;
            }
            proof {
                lemma_first_adjacent_from(args@, 1);
                match first_adjacent_from(args@, 1) {
                    Some(j) => {
                        assert(adjacent_flags_at(args@, j));
                        assert(false);
                    },
                    None => {},
                }
            }
        }
        proof {
            if args@.len() < 2 {
                lemma_first_adjacent_from(args@, 1);
                match first_adjacent_from(args@, 1) {
                    Some(j) => {
                        assert(adjacent_flags_at(args@, j));
                        assert(false);
                    },
                    None => {},
                }
            }
            assert(first_adjacent_flag_index(args@) is None);
        }
        let f_start = String::from_str("--start-url");
        let f_mode = String::from_str("--mode");
        let f_publish = String::from_str("--publish");
        let f_web = String::from_str("--web-url");
        let mut start_url: Option<String> = None;
        let mut mode_value: Option<String> = None;
        let mut publish: Option<String> = None;
        let mut web_url: Option<String> = None;
        let mut i: usize = 0;
        while i < n
            invariant
                0 <= i <= n,
                n == args@.len(),
                f_start@ == "--start-url"@,
                f_mode@ == "--mode"@,
                f_publish@ == "--publish"@,
                f_web@ == "--web-url"@,
                opt_view(start_url) == option_value_prefix(args@, "--start-url"@, i as int),
                opt_view(mode_value) == option_value_prefix(args@, "--mode"@, i as int),
                opt_view(publish) == option_value_prefix(args@, "--publish"@, i as int),
                opt_view(web_url) == option_value_prefix(args@, "--web-url"@, i as int),
            decreases n - i,
        {
            if i >= 1 {
                let t = &args[i];
                if *t == f_start {
                    if i + 1 < n {
                        start_url = Some(args[i + 1].clone());
                    }
                }
                if *t == f_mode {
                    if i + 1 < n {
                        mode_value = Some(args[i + 1].clone());
                    }
                }
                if *t == f_publish {
                    if i + 1 < n {
                        publish = Some(args[i + 1].clone());
                    }
                }
                if *t == f_web {
                    if i + 1 < n {
                        web_url = Some(args[i + 1].clone());
                    }
                }
            }
            i = i + 1;
        }
        let mode = match &mode_value {
            None => CrawlerMode::Invalid,
            Some(v) => parse_mode(v),
        };
        if mode == CrawlerMode::Invalid {
            return Err(ValidationError::InvalidMode);
        }
        let opts = ProgramOpts { start_url, mode, publish, web_url };
        proof {
            assert(opts@ =~= parsed_opts(args@));
        }
        Ok(opts)
    }
}

impl Program {
    /// Validate an invocation into a configuration, or report the first
    /// failure in the fixed observable order.  A returned configuration is
    /// always well formed.
    pub fn new(args: &Vec<String>) -> (r: Result<Program, ValidationError>)
        ensures
            program_result_view(r) == validate(args@),
            r matches Ok(p) ==> wf_program(p@),
    {
        if args.len() < 2 {
            return Err(ValidationError::InsufficientArguments);
        }
        let mut i: usize = 0;
        let mut count: usize = 0;
        let mut found: Option<Command> = None;
        while i < args.len()
            invariant
                0 <= i <= args@.len(),
                count <= i,
                count as nat == command_count_prefix(args@, i as int),
                found == last_command_prefix(args@, i as int),
            decreases args@.len() - i,
        {
            match token_command(&args[i]) {
                Some(c) => {
                    count = count + 1;
                    found = Some(c);
                },
                None => {},
            }
            i = i + 1;
        }
        if count == 0 {
            return Err(ValidationError::NoCommandProvided);
        }
        if count > 1 {
            return Err(ValidationError::AmbiguousCommand);
        }
        proof {
            lemma_command_count_resolves(args@, args@.len() as int);
        }
        let command = match found {
            Some(c) => c,
            None => {
                proof {
                    assert(false);
                }
                Command::Start
            },
        };
        match ProgramOpts::new(args) {
            Err(e) => Err(e),
            Ok(opts) => {
                let missing: Option<RequiredOption> = match command {
                    Command::Start => if opts.start_url.is_none() {
                        Some(RequiredOption::StartUrl)
                    } else {
                        None
                    },
                    Command::Serve => if opts.mode == CrawlerMode::Distributed
                        && opts.publish.is_none() {
                        Some(RequiredOption::Publish)
                    } else {
                        None
                    },
                    Command::Connect => if opts.mode == CrawlerMode::Distributed
                        && opts.web_url.is_none() {
                        Some(RequiredOption::WebUrl)
                    } else {
                        None
                    },
                };
                match missing {
                    Some(o) => Err(ValidationError::MissingRequiredOption(o)),
                    None => Ok(Program { command, opts }),
                }
            },
        }
    }

    /// Route the configuration to exactly one collaborator operation, or to
    /// the dispatch error its (mode, command) pair stands for.
    pub fn execute(&self) -> (r: Result<DispatchAction, ValidationError>)
        ensures
            action_result_view(r) == dispatch(self@),
    {
        match self.command {
            Command::Start => match self.opts.mode {
                CrawlerMode::Standalone => match &self.opts.start_url {
                    Some(u) => Ok(DispatchAction::StandaloneCrawl(u.clone())),
                    None => Err(ValidationError::MissingRequiredOption(RequiredOption::StartUrl)),
                },
                CrawlerMode::Distributed => Ok(DispatchAction::DeprecatedDistributedStart),
                CrawlerMode::Invalid => Err(ValidationError::InvalidMode),
            },
            Command::Serve => match self.opts.mode {
                CrawlerMode::Standalone => Err(ValidationError::StandaloneServeNoop),
                CrawlerMode::Distributed => match &self.opts.publish {
                    Some(u) => Ok(DispatchAction::DistributedServe(u.clone())),
                    None => Err(ValidationError::MissingRequiredOption(RequiredOption::Publish)),
                },
                CrawlerMode::Invalid => Err(ValidationError::InvalidMode),
            },
            Command::Connect => match self.opts.mode {
                CrawlerMode::Standalone => Err(ValidationError::ConnectRequiresDistributed),
                CrawlerMode::Distributed => match &self.opts.web_url {
                    Some(u) => Ok(DispatchAction::DistributedConnect(u.clone())),
                    None => Err(ValidationError::MissingRequiredOption(RequiredOption::WebUrl)),
                },
                CrawlerMode::Invalid => Err(ValidationError::InvalidMode),
            },
        }
    }
}

} // verus!
