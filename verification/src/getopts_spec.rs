//! What is taken on trust of the `getopts` crate.
//!
//! The command line is parsed by `getopts`. Nothing in this file is proved:
//! each contract restates what the source of `getopts` shows, over a model
//! of the two values that the crate hands around. An `Options` value is
//! modelled by the groups that were declared in it; a `Matches` value by the
//! occurrences that it recorded for every declared name.

use vstd::prelude::*;
use vstd::string::is_ascii;

verus! {

/// `getopts::Options`, the description of the options that a program
/// takes. Its contents are private to `getopts`; see [`option_groups`] and
/// [`plain_style`].
#[verifier::external_type_specification]
#[verifier::external_body]
pub struct ExOptions(getopts::Options);

/// `getopts::Matches`, the result of a successful parse. Its contents are
/// private to `getopts`; see [`occurrences`].
#[verifier::external_type_specification]
#[verifier::external_body]
pub struct ExMatches(getopts::Matches);

/// `getopts::Fail`, the reason why arguments do not conform. Each variant
/// carries the name of the option concerned.
#[verifier::external_type_specification]
pub struct ExFail(getopts::Fail);

/// Whether an option comes with a value.
pub enum Takes {
    /// The option requires a value.
    Value,
    /// The option takes no value.
    Nothing,
    /// The option may come with or without a value.
    ValueOrNothing,
}

/// How often an option may be given.
pub enum Occurs {
    /// Exactly once.
    Once,
    /// Once or not at all.
    AtMostOnce,
    /// Any number of times.
    Freely,
}

/// One declared option: its two names, either of which may be empty, the
/// texts for the usage message, whether it takes a value, and how often it
/// may be given.
pub struct OptionGroup {
    pub short: Seq<char>,
    pub long: Seq<char>,
    pub description: Seq<char>,
    pub hint: Seq<char>,
    pub takes: Takes,
    pub occurs: Occurs,
}

/// Every time an option was given, in order: `Some` with the value that came
/// with it, `None` where it came bare.
pub type Occurrences = Seq<Option<Seq<char>>>;

/// The groups declared in `options`, in the order of their declaration.
pub uninterp spec fn option_groups(options: getopts::Options) -> Seq<OptionGroup>;

/// Whether `options` parses in the style it is created with: options and
/// free arguments may be mixed, and long names need two dashes.
pub uninterp spec fn plain_style(options: getopts::Options) -> bool;

/// What `matches` recorded, by option name.
pub uninterp spec fn occurrences(matches: getopts::Matches) -> Map<Seq<char>, Occurrences>;

/// What parsing `arguments` against `groups` in the plain style gives: the
/// occurrences by name, or the failure.
pub uninterp spec fn parse_result(groups: Seq<OptionGroup>, arguments: Seq<Seq<char>>) -> Result<
    Map<Seq<char>, Occurrences>,
    getopts::Fail,
>;

/// The usage message for `groups` under the heading `brief`.
pub uninterp spec fn usage_text(groups: Seq<OptionGroup>, brief: Seq<char>) -> Seq<char>;

/// The names that `getopts` accepts in a declaration: a short name is empty
/// or one ASCII character, a long name is empty or longer than one character.
pub open spec fn names_accepted(short: &str, long: &str) -> bool {
    &&& short@.len() == 0 || (short@.len() == 1 && is_ascii(short))
    &&& long@.len() != 1
}

/// Whether every group has a name.
pub open spec fn all_named(groups: Seq<OptionGroup>) -> bool {
    forall|i: int| 0 <= i < groups.len() ==> (#[trigger] groups[i]).short.len() + groups[i].long.len() > 0
}

/// The names under which the options of `groups` can be looked up.
pub open spec fn declared_names(groups: Seq<OptionGroup>) -> Set<Seq<char>> {
    Set::new(
        |name: Seq<char>|
            name.len() > 0 && exists|i: int|
                0 <= i < groups.len() && ((#[trigger] groups[i]).short == name || groups[i].long
                    == name),
    )
}

/// The texts of a list of strings.
pub open spec fn texts(strings: Seq<String>) -> Seq<Seq<char>> {
    strings.map_values(|s: String| s@)
}

/// The value that an option was first given with, if it was given with one.
pub open spec fn first_value(given: Occurrences) -> Option<Seq<char>> {
    if given.len() > 0 {
        given[0]
    } else {
        None
    }
}

/// The text of an optional string.
pub open spec fn text_of(string: Option<String>) -> Option<Seq<char>> {
    match string {
        Some(s) => Some(s@),
        None => None,
    }
}

/// The message that `getopts` words a failure with.
pub open spec fn fail_message(failure: getopts::Fail) -> Seq<char> {
    match failure {
        getopts::Fail::ArgumentMissing(name) => "Argument to option '"@ + name@ + "' missing"@,
        getopts::Fail::UnrecognizedOption(name) => "Unrecognized option: '"@ + name@ + "'"@,
        getopts::Fail::OptionMissing(name) => "Required option '"@ + name@ + "' missing"@,
        getopts::Fail::OptionDuplicated(name) => "Option '"@ + name@ + "' given more than once"@,
        getopts::Fail::UnexpectedArgument(name) => "Option '"@ + name@
            + "' does not take an argument"@,
    }
}

/// `getopts::Options::new`: a value without groups, in the plain style.
#[verifier::external_body]
pub(crate) fn new_options() -> (options: getopts::Options)
    ensures
        option_groups(options) == Seq::<OptionGroup>::empty(),
        plain_style(options),
{
    getopts::Options::new()
}

/// `getopts::Options::optopt`: appends a group for an option that takes a
/// value and may be given at most once. The style stays as it is. The call
/// panics on names that are not accepted.
#[verifier::external_body]
pub(crate) fn declare_value(
    options: &mut getopts::Options,
    short: &str,
    long: &str,
    description: &str,
    hint: &str,
)
    requires
        names_accepted(short, long),
    ensures
        option_groups(*final(options)) == option_groups(*old(options)).push(
            OptionGroup {
                short: short@,
                long: long@,
                description: description@,
                hint: hint@,
                takes: Takes::Value,
                occurs: Occurs::AtMostOnce,
            },
        ),
        plain_style(*final(options)) == plain_style(*old(options)),
{
    options.optopt(short, long, description, hint);
}

/// `getopts::Options::optflag`: appends a group for an option that takes no
/// value and may be given at most once; its hint is empty. The style stays
/// as it is. The call panics on names that are not accepted.
#[verifier::external_body]
pub(crate) fn declare_flag(
    options: &mut getopts::Options,
    short: &str,
    long: &str,
    description: &str,
)
    requires
        names_accepted(short, long),
    ensures
        option_groups(*final(options)) == option_groups(*old(options)).push(
            OptionGroup {
                short: short@,
                long: long@,
                description: description@,
                hint: Seq::<char>::empty(),
                takes: Takes::Nothing,
                occurs: Occurs::AtMostOnce,
            },
        ),
        plain_style(*final(options)) == plain_style(*old(options)),
{
    options.optflag(short, long, description);
}

/// `getopts::Options::parse`: the outcome depends on the groups, the style
/// and the arguments alone. On success the matches can be asked about every
/// declared name and about no other. The call panics on a group without a
/// name.
#[verifier::external_body]
pub(crate) fn parse(options: &getopts::Options, arguments: &[String]) -> (outcome: Result<
    getopts::Matches,
    getopts::Fail,
>)
    requires
        plain_style(*options),
        all_named(option_groups(*options)),
    ensures
        parse_result(option_groups(*options), texts(arguments@)) == match outcome {
            Ok(matches) => Ok::<Map<Seq<char>, Occurrences>, getopts::Fail>(occurrences(matches)),
            Err(failure) => Err(failure),
        },
        outcome matches Ok(matches) ==> occurrences(matches).dom() == declared_names(
            option_groups(*options),
        ),
{
    options.parse(arguments)
}

/// `getopts::Matches::opt_present`: whether the option was given at all.
/// The call panics on a name that was not declared.
#[verifier::external_body]
pub(crate) fn opt_present(matches: &getopts::Matches, name: &str) -> (present: bool)
    requires
        occurrences(*matches).dom().contains(name@),
    ensures
        present == (occurrences(*matches)[name@].len() > 0),
{
    matches.opt_present(name)
}

/// `getopts::Matches::opt_str`: the value that the option was first given
/// with, `None` where it was not given or came bare. The call panics on a
/// name that was not declared.
#[verifier::external_body]
pub(crate) fn opt_str(matches: &getopts::Matches, name: &str) -> (value: Option<String>)
    requires
        occurrences(*matches).dom().contains(name@),
    ensures
        text_of(value) == first_value(occurrences(*matches)[name@]),
{
    matches.opt_str(name)
}

/// `getopts::Options::usage`: the usage message, which depends on the groups
/// and the heading alone.
#[verifier::external_body]
pub(crate) fn usage_message(options: &getopts::Options, brief: &str) -> (message: String)
    requires
        plain_style(*options),
    ensures
        message@ == usage_text(option_groups(*options), brief@),
{
    options.usage(brief)
}

/// The `Display` form of `getopts::Fail`.
#[verifier::external_body]
pub(crate) fn failure_text(failure: &getopts::Fail) -> (message: String)
    ensures
        message@ == fail_message(*failure),
{
    failure.to_string()
}

} // verus!
