//! The command line: `-t/--timeout`, `-c/--command`, `-h/--help`.
//!
//! The arguments are taken apart by the `getopts` crate. What this module
//! states of `getopts` is believed, not proved: what an option set holds, that
//! what parsing finds depends on the option set and the arguments alone, and
//! that a value is read off the matches under a name that the set defines.
//! Which arguments `getopts` accepts and what it finds in them is not written
//! out here; it goes by the name `parse_found`. What the values found lead to
//! is decided by `request_from_options`, which is proved.

use vstd::prelude::*;
use vstd::string::*;
use crate::config::{is_action_for, threshold_for, Config, ConfigError};

verus! {

/// `getopts::Options`: the options that a command line may hold.
#[verifier::external_type_specification]
#[verifier::external_body]
pub struct ExOptions(getopts::Options);

/// `getopts::Matches`: what parsing a command line found.
#[verifier::external_type_specification]
#[verifier::external_body]
pub struct ExMatches(getopts::Matches);

/// `getopts::Fail`: why a command line was refused, with its five variants,
/// each holding the name of the option at fault.
#[verifier::external_type_specification]
pub struct ExFail(getopts::Fail);

/// The option groups of an option set, in the order of their definition: the
/// short name and the long name of each, either of which may be empty.
pub uninterp spec fn option_groups(options: getopts::Options) -> Seq<(Seq<char>, Seq<char>)>;

/// For each group of an option set, in the order of `option_groups`, whether
/// its option takes a value.
pub uninterp spec fn option_takes_value(options: getopts::Options) -> Seq<bool>;

/// Whether an option set is plain: arguments and options may be mixed freely,
/// long options need two dashes, and each option may be left out and occurs
/// once at most, with a value always or never.
pub uninterp spec fn plain_options(options: getopts::Options) -> bool;

/// What `getopts` makes of a command line under a plain option set: the
/// values found for each name, as `match_values` gives them, or the reason
/// for which the arguments are refused. `groups` and `takes_value` describe
/// the option set; `args` are the arguments.
pub uninterp spec fn parse_found(
    groups: Seq<(Seq<char>, Seq<char>)>,
    takes_value: Seq<bool>,
    args: Seq<Seq<char>>,
) -> Result<Map<Seq<char>, Seq<Option<Seq<char>>>>, Refusal>;

/// What was found for each name that the option set of the matches defines:
/// one entry for each occurrence of the option on the command line, in their
/// order, with the value given at that occurrence, if any.
pub uninterp spec fn match_values(matches: getopts::Matches) -> Map<
    Seq<char>,
    Seq<Option<Seq<char>>>,
>;

/// Why a command line was refused, with the name of the option at fault.
#[derive(Debug, PartialEq, Eq)]
pub enum UsageError {
    /// The option takes a value and none was given.
    ArgumentMissing(String),
    /// The option is not among those defined.
    UnrecognizedOption(String),
    /// The option is required and was not given.
    OptionMissing(String),
    /// The option was given more than once.
    OptionDuplicated(String),
    /// The option takes no value and one was given.
    UnexpectedArgument(String),
}

/// Why a command line was refused, as plain values.
pub enum Refusal {
    ArgumentMissing(Seq<char>),
    UnrecognizedOption(Seq<char>),
    OptionMissing(Seq<char>),
    OptionDuplicated(Seq<char>),
    UnexpectedArgument(Seq<char>),
}

/// What a command line asks for.
#[derive(Debug, PartialEq, Eq)]
pub enum CliRequest {
    /// Print the usage and leave.
    Help,
    /// Watch with this configuration.
    Run(Config),
}

/// Why a command line leads to no request.
#[derive(Debug, PartialEq, Eq)]
pub enum CliError {
    /// The arguments do not fit the options.
    Usage(UsageError),
    /// The threshold given is no number of seconds.
    TimeoutNotAnInteger,
}

impl View for UsageError {
    type V = Refusal;

    open spec fn view(&self) -> Refusal {
        match self {
            UsageError::ArgumentMissing(name) => Refusal::ArgumentMissing(name@),
            UsageError::UnrecognizedOption(name) => Refusal::UnrecognizedOption(name@),
            UsageError::OptionMissing(name) => Refusal::OptionMissing(name@),
            UsageError::OptionDuplicated(name) => Refusal::OptionDuplicated(name@),
            UsageError::UnexpectedArgument(name) => Refusal::UnexpectedArgument(name@),
        }
    }
}

/// The refusal that a failure of `getopts` stands for.
pub open spec fn refusal_of(fail: getopts::Fail) -> Refusal {
    match fail {
        getopts::Fail::ArgumentMissing(name) => Refusal::ArgumentMissing(name@),
        getopts::Fail::UnrecognizedOption(name) => Refusal::UnrecognizedOption(name@),
        getopts::Fail::OptionMissing(name) => Refusal::OptionMissing(name@),
        getopts::Fail::OptionDuplicated(name) => Refusal::OptionDuplicated(name@),
        getopts::Fail::UnexpectedArgument(name) => Refusal::UnexpectedArgument(name@),
    }
}

/// The names by which the options of some groups can be asked for: each short
/// name and each long name that is not empty.
pub open spec fn defined_names(groups: Seq<(Seq<char>, Seq<char>)>) -> Set<Seq<char>> {
    Set::new(
        |name: Seq<char>|
            name.len() > 0 && exists|i: int|
                0 <= i < groups.len() && (#[trigger] groups[i].0 == name || groups[i].1 == name),
    )
}

/// Whether each group has a name.
pub open spec fn all_named(groups: Seq<(Seq<char>, Seq<char>)>) -> bool {
    forall|i: int| 0 <= i < groups.len() ==> (#[trigger] groups[i]).0.len() + groups[i].1.len() > 0
}

/// The groups of this program's options: the timeout, the command, the help.
pub open spec fn watcher_groups() -> Seq<(Seq<char>, Seq<char>)> {
    seq![("t"@, "timeout"@), ("c"@, "command"@), ("h"@, "help"@)]
}

/// Which of this program's options take a value: the timeout and the command
/// do, the help does not.
pub open spec fn watcher_takes_value() -> Seq<bool> {
    seq![true, true, false]
}

/// What `getopts` makes of the arguments under this program's options.
pub open spec fn watcher_found(args: Seq<Seq<char>>) -> Result<
    Map<Seq<char>, Seq<Option<Seq<char>>>>,
    Refusal,
> {
    parse_found(watcher_groups(), watcher_takes_value(), args)
}

/// Whether `outcome` is what a command line leads to, given what `getopts`
/// makes of it: a refusal is handed on as a usage error; else help is asked
/// for where `-h` occurred, and the values are the first ones given for `-t`
/// and for `-c`.
pub open spec fn is_outcome_for(
    outcome: Result<CliRequest, CliError>,
    found: Result<Map<Seq<char>, Seq<Option<Seq<char>>>>, Refusal>,
) -> bool {
    match found {
        Err(refusal) => outcome matches Err(CliError::Usage(error)) && error@ == refusal,
        Ok(values) => is_request_for(
            outcome,
            values["h"@].len() > 0,
            first_value(values["t"@]),
            first_value(values["c"@]),
        ),
    }
}

/// Whether `outcome` is what the values found on a command line lead to:
/// `help` says whether help was asked for, `timeout` and `action` are the
/// values given for the threshold and the action. Help goes before all else;
/// a threshold that is no number is refused; the rest is a configuration.
pub open spec fn is_request_for(
    outcome: Result<CliRequest, CliError>,
    help: bool,
    timeout: Option<Seq<char>>,
    action: Option<Seq<char>>,
) -> bool {
    if help {
        outcome == Ok::<CliRequest, CliError>(CliRequest::Help)
    } else {
        match threshold_for(timeout) {
            Err(error) => outcome == Err::<CliRequest, CliError>(CliError::TimeoutNotAnInteger),
            Ok(seconds) => {
                &&& outcome matches Ok(CliRequest::Run(config))
                &&& config.idle_threshold == seconds
                &&& is_action_for(config@.action_command, config@.action_arguments, action)
            },
        }
    }
}

/// The text of a value that may be missing.
pub open spec fn text_of(value: Option<String>) -> Option<Seq<char>> {
    match value {
        Some(text) => Some(text@),
        None => None,
    }
}

/// The first value found under a name, if the option occurred with one.
pub open spec fn first_value(values: Seq<Option<Seq<char>>>) -> Option<Seq<char>> {
    if values.len() > 0 {
        values[0]
    } else {
        None
    }
}

/// `getopts::Options::new`: a plain option set without any group.
#[verifier::external_body]
fn new_options() -> (options: getopts::Options)
    ensures
        option_groups(options) == Seq::<(Seq<char>, Seq<char>)>::empty(),
        option_takes_value(options) == Seq::<bool>::empty(),
        plain_options(options),
{
    getopts::Options::new()
}

/// `getopts::Options::optopt`: adds, after the groups that are there, a group
/// for an option that takes a value and may be left out; a plain option set
/// stays plain. The names are to be what `getopts` accepts without panicking:
/// a short name of at most one byte and a long name of none or more than one.
#[verifier::external_body]
fn add_value_option(
    options: &mut getopts::Options,
    short: &str,
    long: &str,
    description: &str,
    hint: &str,
)
    requires
        short.is_ascii(),
        long.is_ascii(),
        short@.len() <= 1,
        long@.len() != 1,
    ensures
        option_groups(*final(options)) == option_groups(*old(options)).push((short@, long@)),
        option_takes_value(*final(options)) == option_takes_value(*old(options)).push(true),
        plain_options(*final(options)) == plain_options(*old(options)),
{
    options.optopt(short, long, description, hint);
}

/// `getopts::Options::optflag`: adds, after the groups that are there, a group
/// for an option that takes no value and may be left out; a plain option set
/// stays plain. The names are bound as for `add_value_option`.
#[verifier::external_body]
fn add_flag_option(options: &mut getopts::Options, short: &str, long: &str, description: &str)
    requires
        short.is_ascii(),
        long.is_ascii(),
        short@.len() <= 1,
        long@.len() != 1,
    ensures
        option_groups(*final(options)) == option_groups(*old(options)).push((short@, long@)),
        option_takes_value(*final(options)) == option_takes_value(*old(options)).push(false),
        plain_options(*final(options)) == plain_options(*old(options)),
{
    options.optflag(short, long, description);
}

/// `getopts::Options::parse`: takes the arguments apart. Under a plain option
/// set, what comes out depends on the groups, on which of them take a value,
/// and on the arguments, and on nothing else: it is what `parse_found` names.
/// Where it succeeds, the matches can be asked under every name that the
/// option set defines, and under no other. `getopts` panics on a group without
/// a name, so each group is to have one.
#[verifier::external_body]
fn parse_arguments(options: &getopts::Options, args: &Vec<String>) -> (outcome: Result<
    getopts::Matches,
    getopts::Fail,
>)
    requires
        plain_options(*options),
        all_named(option_groups(*options)),
    ensures
        parse_found(option_groups(*options), option_takes_value(*options), args.deep_view())
            == match outcome {
            Ok(matches) => Ok::<Map<Seq<char>, Seq<Option<Seq<char>>>>, Refusal>(
                match_values(matches),
            ),
            Err(fail) => Err(refusal_of(fail)),
        },
        outcome matches Ok(matches) ==> match_values(matches).dom() == defined_names(
            option_groups(*options),
        ),
{
    options.parse(args)
}

/// `getopts::Matches::opt_present`: whether the option occurred. `getopts`
/// panics on a name that the option set does not define.
#[verifier::external_body]
fn option_present(matches: &getopts::Matches, name: &str) -> (present: bool)
    requires
        match_values(*matches).dom().contains(name@),
    ensures
        present == (match_values(*matches)[name@].len() > 0),
{
    matches.opt_present(name)
}

/// `getopts::Matches::opt_str`: the value given at the first occurrence of the
/// option, if it occurred and had one there. `getopts` panics on a name that
/// the option set does not define.
#[verifier::external_body]
fn option_value(matches: &getopts::Matches, name: &str) -> (value: Option<String>)
    requires
        match_values(*matches).dom().contains(name@),
    ensures
        text_of(value) == first_value(match_values(*matches)[name@]),
{
    matches.opt_str(name)
}

/// The usage error for a failure of `getopts`: the same variant with the same
/// option name.
fn usage_error(fail: getopts::Fail) -> (error: UsageError)
    ensures
        error@ == refusal_of(fail),
{
    match fail {
        getopts::Fail::ArgumentMissing(name) => UsageError::ArgumentMissing(name),
        getopts::Fail::UnrecognizedOption(name) => UsageError::UnrecognizedOption(name),
        getopts::Fail::OptionMissing(name) => UsageError::OptionMissing(name),
        getopts::Fail::OptionDuplicated(name) => UsageError::OptionDuplicated(name),
        getopts::Fail::UnexpectedArgument(name) => UsageError::UnexpectedArgument(name),
    }
}

/// The option set of this program.
fn watcher_options() -> (options: getopts::Options)
    ensures
        option_groups(options) == watcher_groups(),
        option_takes_value(options) == watcher_takes_value(),
        plain_options(options),
{
    proof {
        reveal_strlit("t");
        reveal_strlit("timeout");
        reveal_strlit("c");
        reveal_strlit("command");
        reveal_strlit("h");
        reveal_strlit("help");
    }
    let mut options = new_options();
    add_value_option(&mut options, "t", "timeout", "Idle Timeout", "");
    add_value_option(&mut options, "c", "command", "Idle Command", "");
    add_flag_option(&mut options, "h", "help", "Usage information");
    assert(option_groups(options) =~= watcher_groups());
    assert(option_takes_value(options) =~= watcher_takes_value());
    options
}

/// The names of this program's options are defined, and each group has one.
proof fn lemma_watcher_names()
    ensures
        all_named(watcher_groups()),
        defined_names(watcher_groups()).contains("t"@),
        defined_names(watcher_groups()).contains("c"@),
        defined_names(watcher_groups()).contains("h"@),
{
    reveal_strlit("t");
    reveal_strlit("timeout");
    reveal_strlit("c");
    reveal_strlit("command");
    reveal_strlit("h");
    reveal_strlit("help");
    let groups = watcher_groups();
    assert(groups[0].0 == "t"@);
    assert(groups[1].0 == "c"@);
    assert(groups[2].0 == "h"@);
}

/// What the values found on a command line lead to; see `is_request_for`.
pub fn request_from_options(help: bool, timeout: Option<String>, action: Option<String>) -> (outcome:
    Result<CliRequest, CliError>)
    ensures
        is_request_for(outcome, help, text_of(timeout), text_of(action)),
{
    if help {
        return Ok(CliRequest::Help);
    }
    let timeout_text: Option<&str> = match &timeout {
        Some(text) => Some(text.as_str()),
        None => None,
    };
    let action_text: Option<&str> = match &action {
        Some(text) => Some(text.as_str()),
        None => None,
    };
    match Config::from_options(timeout_text, action_text) {
        Ok(config) => Ok(CliRequest::Run(config)),
        Err(ConfigError::TimeoutNotAnInteger) => Err(CliError::TimeoutNotAnInteger),
    }
}

/// Reads the command line; `args` are the arguments after the program's name.
/// `getopts` takes the arguments apart under the three options of this
/// program. Arguments that it refuses give its refusal as a usage error.
/// Otherwise the outcome is what `request_from_options` makes of what it
/// found: whether `-h` occurred, and the first values of `-t` and `-c`.
pub fn parse_cli(args: &Vec<String>) -> (outcome: Result<CliRequest, CliError>)
    ensures
        is_outcome_for(outcome, watcher_found(args.deep_view())),
{
    let options = watcher_options();
    proof {
        lemma_watcher_names();
    }
    match parse_arguments(&options, args) {
        Err(fail) => Err(CliError::Usage(usage_error(fail))),
        Ok(matches) => {
            let help = option_present(&matches, "h");
            let timeout = option_value(&matches, "t");
            let action = option_value(&matches, "c");
            request_from_options(help, timeout, action)
        },
    }
}

} // verus!
