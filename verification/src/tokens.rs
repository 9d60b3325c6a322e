//! The token-level model of an invocation.
//!
//! An invocation is the ordered sequence of raw string tokens the process
//! received; the token at index 0 is the program name.  The spec functions
//! here say, once and for all, what it means for a token to be flag-shaped,
//! which tokens are command keywords, which value a repeated flag resolves
//! to (the last occurrence wins), and where the first malformed
//! flag-adjacency sits.  The executable code in `argparser` is verified
//! against exactly these definitions.

use vstd::prelude::*;

verus! {

/// The execution topology requested with `--mode`.  `Invalid` is an explicit
/// value, not absence: it models a mode flag that was required or given but
/// did not resolve to a known topology.
#[derive(Clone, Copy, Debug, PartialEq, Eq, Structural)]
pub enum CrawlerMode {
    /// Single-process crawl.
    Standalone,
    /// Coordinator plus workers.
    Distributed,
    /// Missing or unrecognized mode value.
    Invalid,
}

/// The action requested within a run.
#[derive(Clone, Copy, Debug, PartialEq, Eq, Structural)]
pub enum Command {
    /// Begin a crawl.
    Start,
    /// Act as the coordinator ("web instance") of a distributed crawl.
    Serve,
    /// Attach to a coordinator as a worker.
    Connect,
}

/// A token is flag-shaped when it begins with the flag marker `-`.
pub open spec fn flag_shaped(t: Seq<char>) -> bool {
    t.len() > 0 && t[0] == '-'
}

/// The command keyword a token spells, if any.  This is the whole command
/// vocabulary of the current generation; adding a command means extending
/// this one function.
pub open spec fn command_of_token(t: Seq<char>) -> Option<Command> {
    if t == "start"@ {
        Some(Command::Start)
    } else if t == "serve"@ {
        Some(Command::Serve)
    } else if t == "connect"@ {
        Some(Command::Connect)
    } else {
        None
    }
}

/// How many of the first `n` tokens are command keywords.
pub open spec fn command_count_prefix(args: Seq<String>, n: int) -> nat
    decreases n,
{
    if n <= 0 {
        0
    } else {
        command_count_prefix(args, n - 1) + (if command_of_token(args[n - 1]@) is Some {
            1nat
        } else {
            0nat
        })
    }
}

/// How many tokens of the invocation are command keywords.
pub open spec fn command_count(args: Seq<String>) -> nat {
    command_count_prefix(args, args.len() as int)
}

/// The command named by the last command keyword among the first `n`
/// tokens, if any.
pub open spec fn last_command_prefix(args: Seq<String>, n: int) -> Option<Command>
    decreases n,
{
    if n <= 0 {
        None
    } else {
        match command_of_token(args[n - 1]@) {
            Some(c) => Some(c),
            None => last_command_prefix(args, n - 1),
        }
    }
}

/// The command the invocation resolves to when scanned whole.  Meaningful
/// for validation only when `command_count(args) == 1`.
pub open spec fn resolved_command(args: Seq<String>) -> Option<Command> {
    last_command_prefix(args, args.len() as int)
}

/// Tokens `i` and `i + 1` are both flag-shaped, so the first of them has no
/// value.  Index 0 is the program name and takes part in no pair.
pub open spec fn adjacent_flags_at(args: Seq<String>, i: int) -> bool {
    1 <= i && i + 1 < args.len() && flag_shaped(args[i]@) && flag_shaped(args[i + 1]@)
}

/// Some pair of consecutive tokens is malformed.
pub open spec fn has_adjacent_flags(args: Seq<String>) -> bool {
    exists|i: int| adjacent_flags_at(args, i)
}

/// The least index `j >= i` at which two flag-shaped tokens are adjacent,
/// scanning left to right.
pub open spec fn first_adjacent_from(args: Seq<String>, i: int) -> Option<int>
    decreases args.len() - i,
{
    if i + 1 >= args.len() {
        None
    } else if flag_shaped(args[i]@) && flag_shaped(args[i + 1]@) {
        Some(i)
    } else {
        first_adjacent_from(args, i + 1)
    }
}

/// The index the adjacency scan reports: the least `i >= 1` with two
/// flag-shaped tokens side by side.
pub open spec fn first_adjacent_flag_index(args: Seq<String>) -> Option<int> {
    first_adjacent_from(args, 1)
}

/// The value of flag `flag` among the first `n` tokens: the token right
/// after the last occurrence of the flag at an index `>= 1` that still has a
/// following token.  An occurrence at the very end of the invocation has no
/// value and sets nothing, so the option it names is simply absent.
pub open spec fn option_value_prefix(args: Seq<String>, flag: Seq<char>, n: int) -> Option<
    Seq<char>,
>
    decreases n,
{
    if n <= 1 {
        None
    } else if args[n - 1]@ == flag && n < args.len() {
        Some(args[n as int]@)
    } else {
        option_value_prefix(args, flag, n - 1)
    }
}

/// The value the whole invocation gives to `flag`; later occurrences
/// override earlier ones.
pub open spec fn option_value(args: Seq<String>, flag: Seq<char>) -> Option<Seq<char>> {
    option_value_prefix(args, flag, args.len() as int)
}

/// How a `--mode` value string resolves, case-sensitively.
pub open spec fn mode_of_value(v: Seq<char>) -> CrawlerMode {
    if v == "standalone"@ {
        CrawlerMode::Standalone
    } else if v == "distributed"@ {
        CrawlerMode::Distributed
    } else {
        CrawlerMode::Invalid
    }
}

/// The mode the invocation resolves to: the last `--mode` value wins, and a
/// missing or unknown value is `Invalid`.
pub open spec fn mode_of(args: Seq<String>) -> CrawlerMode {
    match option_value(args, "--mode"@) {
        None => CrawlerMode::Invalid,
        Some(v) => mode_of_value(v),
    }
}

/// `first_adjacent_from` really finds the least malformed index at or after
/// `i`, and finds one whenever one exists.
pub proof fn lemma_first_adjacent_from(args: Seq<String>, i: int)
    requires
        1 <= i,
    ensures
        match first_adjacent_from(args, i) {
            Some(j) => adjacent_flags_at(args, j) && i <= j && (forall|k: int|
                i <= k < j ==> !adjacent_flags_at(args, k)),
            None => forall|k: int| i <= k ==> !adjacent_flags_at(args, k),
        },
    decreases args.len() - i,
{
    if i + 1 >= args.len() {
        assert forall|k: int| i <= k implies !adjacent_flags_at(args, k) by {
            assert(k + 1 >= args.len());
        }
    } else if flag_shaped(args[i]@) && flag_shaped(args[i + 1]@) {
    } else {
        lemma_first_adjacent_from(args, i + 1);
        assert(!adjacent_flags_at(args, i));
    }
}

/// The adjacency scan reports an index exactly when a malformed pair exists.
pub proof fn lemma_adjacency_scan(args: Seq<String>)
    ensures
        has_adjacent_flags(args) <==> first_adjacent_flag_index(args) is Some,
        match first_adjacent_flag_index(args) {
            Some(j) => adjacent_flags_at(args, j) && (forall|k: int|
                k < j ==> !adjacent_flags_at(args, k)),
            None => true,
        },
{
    lemma_first_adjacent_from(args, 1);
    match first_adjacent_flag_index(args) {
        Some(j) => {
            assert(has_adjacent_flags(args));
            assert forall|k: int| k < j implies !adjacent_flags_at(args, k) by {
                if 1 <= k {
                } else {
                    assert(!adjacent_flags_at(args, k));
                }
            }
        },
        None => {
            if has_adjacent_flags(args) {
                let w = choose|k: int| adjacent_flags_at(args, k);
                assert(1 <= w);
                assert(!adjacent_flags_at(args, w));
            }
        },
    }
}

/// An invocation that contains at least one command keyword resolves to
/// some command.
pub proof fn lemma_command_count_resolves(args: Seq<String>, n: int)
    requires
        command_count_prefix(args, n) > 0,
    ensures
        last_command_prefix(args, n) is Some,
    decreases n,
{
    if n <= 0 {
    } else if command_of_token(args[n - 1]@) is Some {
    } else {
        lemma_command_count_resolves(args, n - 1);
    }
}

/// Whether a token begins with the flag marker.
pub fn is_flag_token(t: &String) -> (r: bool)
    ensures
        r == flag_shaped(t@),
{
    let s = t.as_str();
    if s.is_empty() {
        false
    } else {
        s.get_char(0) == '-'
    }
}

/// The command keyword a token spells, if any.
pub fn token_command(t: &String) -> (r: Option<Command>)
    ensures
        r == command_of_token(t@),
{
    if *t == String::from_str("start") {
        Some(Command::Start)
    } else if *t == String::from_str("serve") {
        Some(Command::Serve)
    } else if *t == String::from_str("connect") {
        Some(Command::Connect)
    } else {
        None
    }
}

/// How a `--mode` value string resolves.
pub fn parse_mode(v: &String) -> (m: CrawlerMode)
    ensures
        m == mode_of_value(v@),
{
    if *v == String::from_str("standalone") {
        CrawlerMode::Standalone
    } else if *v == String::from_str("distributed") {
        CrawlerMode::Distributed
    } else {
        CrawlerMode::Invalid
    }
}

} // verus!
