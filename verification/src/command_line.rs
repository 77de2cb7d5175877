//! The command line: which options exist, and what was given for each.

use crate::error::{ConfigurationError, ConfigurationErrorView};
use crate::getopts_spec::{
    all_named, declare_flag, declare_value, declared_names, fail_message, failure_text,
    first_value, new_options, occurrences, opt_present, opt_str, option_groups, parse,
    parse_result, plain_style, text_of, texts, usage_message, usage_text, names_accepted,
    Occurrences, Occurs, OptionGroup, Takes,
};
use vstd::prelude::*;

verus! {

/// A group for an option that takes a value and may be given once.
pub open spec fn value_option(short: &str, long: &str, description: &str, hint: &str) -> OptionGroup {
    OptionGroup {
        short: short@,
        long: long@,
        description: description@,
        hint: hint@,
        takes: Takes::Value,
        occurs: Occurs::AtMostOnce,
    }
}

/// A group for an option that is either given, once, or not.
pub open spec fn flag_option(short: &str, long: &str, description: &str) -> OptionGroup {
    OptionGroup {
        short: short@,
        long: long@,
        description: description@,
        hint: Seq::<char>::empty(),
        takes: Takes::Nothing,
        occurs: Occurs::AtMostOnce,
    }
}

/// The options of the program, in the order in which the usage message
/// lists them.
pub open spec fn option_table() -> Seq<OptionGroup> {
    Seq::empty().push(
        value_option("c", "cache", "Path to a directory where files will be cached.", "CACHE"),
    ).push(flag_option("", "disable-audio-cache", "Disable caching of the audio data.")).push(
        value_option("n", "name", "Device name (defaults to Scrobbler)", "NAME"),
    ).push(value_option("", "device-type", "Displayed device type", "DEVICE_TYPE")).push(
        value_option("", "onstart", "Run PROGRAM when playback is about to begin.", "PROGRAM"),
    ).push(value_option("", "onstop", "Run PROGRAM when playback has ended.", "PROGRAM")).push(
        flag_option("v", "verbose", "Enable verbose output"),
    ).push(value_option("", "spotify-username", "Username to sign in with", "USERNAME")).push(
        value_option("", "spotify-password", "Password", "PASSWORD"),
    ).push(flag_option("", "disable-discovery", "Disable discovery mode")).push(
        value_option("", "device", "Audio device to use. Use '?' to list options", "DEVICE"),
    ).push(value_option("", "mixer", "Mixer to use", "MIXER")).push(
        value_option("", "lastfm-username", "Last.fm Username", "LASTFM_USERNAME"),
    ).push(value_option("", "lastfm-password", "Last.fm Password", "LASTFM_PASSWORD")).push(
        value_option("", "lastfm-api-key", "Last.fm API Key", "API_KEY"),
    ).push(value_option("", "lastfm-api-secret", "Last.fm API Secret", "SECRET"))
}

/// What was given on the command line, option by option.
#[derive(Clone, Debug, Default, PartialEq, Eq)]
pub struct CommandLine {
    pub cache: Option<String>,
    pub disable_audio_cache: bool,
    pub name: Option<String>,
    pub device_type: Option<String>,
    pub verbose: bool,
    pub username: Option<String>,
    pub password: Option<String>,
    pub disable_discovery: bool,
    pub mixer: Option<String>,
    pub lastfm_username: Option<String>,
    pub lastfm_password: Option<String>,
    pub lastfm_api_key: Option<String>,
    pub lastfm_api_secret: Option<String>,
}

/// The texts of a [`CommandLine`].
pub struct CommandLineView {
    pub cache: Option<Seq<char>>,
    pub disable_audio_cache: bool,
    pub name: Option<Seq<char>>,
    pub device_type: Option<Seq<char>>,
    pub verbose: bool,
    pub username: Option<Seq<char>>,
    pub password: Option<Seq<char>>,
    pub disable_discovery: bool,
    pub mixer: Option<Seq<char>>,
    pub lastfm_username: Option<Seq<char>>,
    pub lastfm_password: Option<Seq<char>>,
    pub lastfm_api_key: Option<Seq<char>>,
    pub lastfm_api_secret: Option<Seq<char>>,
}

impl View for CommandLine {
    type V = CommandLineView;

    open spec fn view(&self) -> CommandLineView {
        CommandLineView {
            cache: text_of(self.cache),
            disable_audio_cache: self.disable_audio_cache,
            name: text_of(self.name),
            device_type: text_of(self.device_type),
            verbose: self.verbose,
            username: text_of(self.username),
            password: text_of(self.password),
            disable_discovery: self.disable_discovery,
            mixer: text_of(self.mixer),
            lastfm_username: text_of(self.lastfm_username),
            lastfm_password: text_of(self.lastfm_password),
            lastfm_api_key: text_of(self.lastfm_api_key),
            lastfm_api_secret: text_of(self.lastfm_api_secret),
        }
    }
}

/// Whether an option is present in what parsing found.
pub open spec fn given(found: Map<Seq<char>, Occurrences>, name: &str) -> bool {
    found[name@].len() > 0
}

/// The value of an option in what parsing found.
pub open spec fn value(found: Map<Seq<char>, Occurrences>, name: &str) -> Option<Seq<char>> {
    first_value(found[name@])
}

/// The command line that is read off what parsing found. The cache is
/// looked up under its short name, every other option under its long name.
/// The options `onstart`, `onstop` and `device` are accepted and not read.
pub open spec fn command_line_of(found: Map<Seq<char>, Occurrences>) -> CommandLineView {
    CommandLineView {
        cache: value(found, "c"),
        disable_audio_cache: given(found, "disable-audio-cache"),
        name: value(found, "name"),
        device_type: value(found, "device-type"),
        verbose: given(found, "verbose"),
        username: value(found, "spotify-username"),
        password: value(found, "spotify-password"),
        disable_discovery: given(found, "disable-discovery"),
        mixer: value(found, "mixer"),
        lastfm_username: value(found, "lastfm-username"),
        lastfm_password: value(found, "lastfm-password"),
        lastfm_api_key: value(found, "lastfm-api-key"),
        lastfm_api_secret: value(found, "lastfm-api-secret"),
    }
}

/// The heading of the usage message.
pub open spec fn usage_heading(program: Seq<char>) -> Seq<char> {
    "Usage: "@ + program + " [options]"@
}

fn add_value(
    options: &mut getopts::Options,
    short: &str,
    long: &str,
    description: &str,
    hint: &str,
)
    requires
        names_accepted(short, long),
        long@.len() > 0,
        all_named(option_groups(*old(options))),
    ensures
        option_groups(*final(options)) == option_groups(*old(options)).push(
            value_option(short, long, description, hint),
        ),
        plain_style(*final(options)) == plain_style(*old(options)),
        all_named(option_groups(*final(options))),
{
    declare_value(options, short, long, description, hint);
}

fn add_flag(options: &mut getopts::Options, short: &str, long: &str, description: &str)
    requires
        names_accepted(short, long),
        long@.len() > 0,
        all_named(option_groups(*old(options))),
    ensures
        option_groups(*final(options)) == option_groups(*old(options)).push(
            flag_option(short, long, description),
        ),
        plain_style(*final(options)) == plain_style(*old(options)),
        all_named(option_groups(*final(options))),
{
    declare_flag(options, short, long, description);
}

proof fn reveal_names()
    ensures
        ""@.len() == 0,
        "c"@.len() == 1 && vstd::string::is_ascii("c"),
        "n"@.len() == 1 && vstd::string::is_ascii("n"),
        "v"@.len() == 1 && vstd::string::is_ascii("v"),
        "cache"@.len() == 5,
        "disable-audio-cache"@.len() == 19,
        "name"@.len() == 4,
        "device-type"@.len() == 11,
        "onstart"@.len() == 7,
        "onstop"@.len() == 6,
        "verbose"@.len() == 7,
        "spotify-username"@.len() == 16,
        "spotify-password"@.len() == 16,
        "disable-discovery"@.len() == 17,
        "device"@.len() == 6,
        "mixer"@.len() == 5,
        "lastfm-username"@.len() == 15,
        "lastfm-password"@.len() == 15,
        "lastfm-api-key"@.len() == 14,
        "lastfm-api-secret"@.len() == 17,
{
    reveal_strlit("");
    reveal_strlit("c");
    reveal_strlit("n");
    reveal_strlit("v");
    reveal_strlit("cache");
    reveal_strlit("disable-audio-cache");
    reveal_strlit("name");
    reveal_strlit("device-type");
    reveal_strlit("onstart");
    reveal_strlit("onstop");
    reveal_strlit("verbose");
    reveal_strlit("spotify-username");
    reveal_strlit("spotify-password");
    reveal_strlit("disable-discovery");
    reveal_strlit("device");
    reveal_strlit("mixer");
    reveal_strlit("lastfm-username");
    reveal_strlit("lastfm-password");
    reveal_strlit("lastfm-api-key");
    reveal_strlit("lastfm-api-secret");
}

/// Declares the options of the program.
fn declare_options() -> (options: getopts::Options)
    ensures
        option_groups(options) == option_table(),
        plain_style(options),
        all_named(option_groups(options)),
{
    proof {
        reveal_names();
    }
    let mut options = new_options();
    add_value(
        &mut options,
        "c",
        "cache",
        "Path to a directory where files will be cached.",
        "CACHE",
    );
    add_flag(&mut options, "", "disable-audio-cache", "Disable caching of the audio data.");
    add_value(&mut options, "n", "name", "Device name (defaults to Scrobbler)", "NAME");
    add_value(&mut options, "", "device-type", "Displayed device type", "DEVICE_TYPE");
    add_value(
        &mut options,
        "",
        "onstart",
        "Run PROGRAM when playback is about to begin.",
        "PROGRAM",
    );
    add_value(&mut options, "", "onstop", "Run PROGRAM when playback has ended.", "PROGRAM");
    add_flag(&mut options, "v", "verbose", "Enable verbose output");
    add_value(&mut options, "", "spotify-username", "Username to sign in with", "USERNAME");
    add_value(&mut options, "", "spotify-password", "Password", "PASSWORD");
    add_flag(&mut options, "", "disable-discovery", "Disable discovery mode");
    add_value(
        &mut options,
        "",
        "device",
        "Audio device to use. Use '?' to list options",
        "DEVICE",
    );
    add_value(&mut options, "", "mixer", "Mixer to use", "MIXER");
    add_value(&mut options, "", "lastfm-username", "Last.fm Username", "LASTFM_USERNAME");
    add_value(&mut options, "", "lastfm-password", "Last.fm Password", "LASTFM_PASSWORD");
    add_value(&mut options, "", "lastfm-api-key", "Last.fm API Key", "API_KEY");
    add_value(&mut options, "", "lastfm-api-secret", "Last.fm API Secret", "SECRET");
    options
}

proof fn lemma_names_are_declared()
    ensures
        declared_names(option_table()).contains("c"@),
        declared_names(option_table()).contains("disable-audio-cache"@),
        declared_names(option_table()).contains("name"@),
        declared_names(option_table()).contains("device-type"@),
        declared_names(option_table()).contains("verbose"@),
        declared_names(option_table()).contains("spotify-username"@),
        declared_names(option_table()).contains("spotify-password"@),
        declared_names(option_table()).contains("disable-discovery"@),
        declared_names(option_table()).contains("mixer"@),
        declared_names(option_table()).contains("lastfm-username"@),
        declared_names(option_table()).contains("lastfm-password"@),
        declared_names(option_table()).contains("lastfm-api-key"@),
        declared_names(option_table()).contains("lastfm-api-secret"@),
{
    reveal_names();
    let table = option_table();
    assert(table[0].short == "c"@);
    assert(table[1].long == "disable-audio-cache"@);
    assert(table[2].long == "name"@);
    assert(table[3].long == "device-type"@);
    assert(table[6].long == "verbose"@);
    assert(table[7].long == "spotify-username"@);
    assert(table[8].long == "spotify-password"@);
    assert(table[9].long == "disable-discovery"@);
    assert(table[11].long == "mixer"@);
    assert(table[12].long == "lastfm-username"@);
    assert(table[13].long == "lastfm-password"@);
    assert(table[14].long == "lastfm-api-key"@);
    assert(table[15].long == "lastfm-api-secret"@);
}

/// Reads the command line off the matches of a successful parse.
fn read_matches(matches: &getopts::Matches) -> (command_line: CommandLine)
    requires
        occurrences(*matches).dom() == declared_names(option_table()),
    ensures
        command_line@ == command_line_of(occurrences(*matches)),
{
    proof {
        lemma_names_are_declared();
    }
    CommandLine {
        cache: opt_str(matches, "c"),
        disable_audio_cache: opt_present(matches, "disable-audio-cache"),
        name: opt_str(matches, "name"),
        device_type: opt_str(matches, "device-type"),
        verbose: opt_present(matches, "verbose"),
        username: opt_str(matches, "spotify-username"),
        password: opt_str(matches, "spotify-password"),
        disable_discovery: opt_present(matches, "disable-discovery"),
        mixer: opt_str(matches, "mixer"),
        lastfm_username: opt_str(matches, "lastfm-username"),
        lastfm_password: opt_str(matches, "lastfm-password"),
        lastfm_api_key: opt_str(matches, "lastfm-api-key"),
        lastfm_api_secret: opt_str(matches, "lastfm-api-secret"),
    }
}

/// Parses the arguments of the program, the program's own name left out,
/// against the option table. Where the arguments conform, the result is the
/// command line read off what was found. Where they do not, the error
/// carries the parser's own words.
pub fn parse_command_line(arguments: &[String]) -> (result: Result<
    CommandLine,
    ConfigurationError,
>)
    ensures
        match result {
            Ok(command_line) => parse_result(option_table(), texts(arguments@)) matches Ok(found)
                && command_line@ == command_line_of(found),
            Err(error) => parse_result(option_table(), texts(arguments@)) matches Err(failure)
                && error@ == ConfigurationErrorView::Arguments(fail_message(failure)),
        },
{
    let options = declare_options();
    match parse(&options, arguments) {
        Ok(matches) => Ok(read_matches(&matches)),
        Err(failure) => Err(ConfigurationError::Arguments(failure_text(&failure))),
    }
}

/// `String::push_str` of std: appends `text` to `target`.
#[verifier::external_body]
fn push_str(target: &mut String, text: &str)
    ensures
        final(target)@ == old(target)@ + text@,
{
    target.push_str(text)
}

/// The usage message of the program: a heading that names the program,
/// then the options of the table.
pub fn usage(program: &str) -> (message: String)
    ensures
        message@ == usage_text(option_table(), usage_heading(program@)),
{
    let options = declare_options();
    let mut brief = "Usage: ".to_owned();
    push_str(&mut brief, program);
    push_str(&mut brief, " [options]");
    usage_message(&options, brief.as_str())
}

} // verus!
