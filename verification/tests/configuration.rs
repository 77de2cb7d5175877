use orchestrator::command_line::{parse_command_line, usage, CommandLine};
use orchestrator::error::{ConfigurationError, Required};
use orchestrator::logging::{log_plan, LogPlan};
use orchestrator::settings::{setup, CacheSettings, ScrobblerConfig, Settings};

fn args(words: &[&str]) -> Vec<String> {
    words.iter().map(|w| w.to_string()).collect()
}

fn text(s: &str) -> Option<String> {
    Some(s.to_string())
}

fn scrobbler_args() -> Vec<&'static str> {
    vec![
        "--lastfm-api-key",
        "key",
        "--lastfm-api-secret",
        "secret",
        "--lastfm-username",
        "alice",
        "--lastfm-password",
        "hunter2",
    ]
}

fn complete_command_line() -> CommandLine {
    CommandLine {
        lastfm_api_key: text("key"),
        lastfm_api_secret: text("secret"),
        lastfm_username: text("alice"),
        lastfm_password: text("hunter2"),
        ..CommandLine::default()
    }
}

#[test]
fn no_arguments_give_an_empty_command_line() {
    assert_eq!(parse_command_line(&args(&[])), Ok(CommandLine::default()));
}

#[test]
fn every_option_is_read() {
    let given = args(&[
        "-c",
        "/var/cache/spot",
        "--disable-audio-cache",
        "-n",
        "Kitchen",
        "--device-type",
        "speaker",
        "--onstart",
        "/bin/true",
        "--onstop",
        "/bin/false",
        "-v",
        "--spotify-username",
        "bob",
        "--spotify-password",
        "pw",
        "--disable-discovery",
        "--device",
        "hw:0",
        "--mixer",
        "softvol",
        "--lastfm-username",
        "alice",
        "--lastfm-password",
        "hunter2",
        "--lastfm-api-key",
        "key",
        "--lastfm-api-secret",
        "secret",
    ]);
    assert_eq!(
        parse_command_line(&given),
        Ok(CommandLine {
            cache: text("/var/cache/spot"),
            disable_audio_cache: true,
            name: text("Kitchen"),
            device_type: text("speaker"),
            verbose: true,
            username: text("bob"),
            password: text("pw"),
            disable_discovery: true,
            mixer: text("softvol"),
            lastfm_username: text("alice"),
            lastfm_password: text("hunter2"),
            lastfm_api_key: text("key"),
            lastfm_api_secret: text("secret"),
        })
    );
}

#[test]
fn long_and_short_names_are_the_same_option() {
    let long = parse_command_line(&args(&["--cache", "here", "--name=Den", "--verbose"]));
    let short = parse_command_line(&args(&["-chere", "-n", "Den", "-v"]));
    assert_eq!(long, short);
    let found = long.unwrap();
    assert_eq!(found.cache, text("here"));
    assert_eq!(found.name, text("Den"));
    assert!(found.verbose);
}

#[test]
fn free_arguments_are_ignored() {
    let found = parse_command_line(&args(&["stray", "--mixer", "alsa", "more"])).unwrap();
    assert_eq!(found, CommandLine { mixer: text("alsa"), ..CommandLine::default() });
}

#[test]
fn an_unknown_option_is_an_error() {
    assert_eq!(
        parse_command_line(&args(&["--bogus"])),
        Err(ConfigurationError::Arguments("Unrecognized option: 'bogus'".to_string()))
    );
}

#[test]
fn a_missing_argument_is_an_error() {
    assert_eq!(
        parse_command_line(&args(&["--name"])),
        Err(ConfigurationError::Arguments("Argument to option 'name' missing".to_string()))
    );
}

#[test]
fn a_repeated_option_is_an_error() {
    assert_eq!(
        parse_command_line(&args(&["-v", "--verbose"])),
        Err(ConfigurationError::Arguments("Option 'verbose' given more than once".to_string()))
    );
}

#[test]
fn a_value_for_a_flag_is_an_error() {
    assert_eq!(
        parse_command_line(&args(&["--disable-discovery=yes"])),
        Err(ConfigurationError::Arguments(
            "Option 'disable-discovery' does not take an argument".to_string()
        ))
    );
}

#[test]
fn usage_names_the_program_and_lists_the_options() {
    let message = usage("spotd");
    assert!(message.starts_with("Usage: spotd [options]\n\nOptions:\n"));
    assert!(message.ends_with('\n'));
    let lines: Vec<&str> = message.lines().collect();
    assert_eq!(lines[3], "    -c, --cache CACHE   Path to a directory where files will be cached.");
    assert!(lines.contains(&"    -v, --verbose       Enable verbose output"));
    assert!(lines.contains(&"        --mixer MIXER   Mixer to use"));
    for name in [
        "--disable-audio-cache",
        "--name NAME",
        "--device-type DEVICE_TYPE",
        "--onstart PROGRAM",
        "--onstop PROGRAM",
        "--spotify-username USERNAME",
        "--spotify-password PASSWORD",
        "--disable-discovery",
        "--device DEVICE",
        "--lastfm-username LASTFM_USERNAME",
        "--lastfm-password LASTFM_PASSWORD",
        "--lastfm-api-key API_KEY",
        "--lastfm-api-secret SECRET",
    ] {
        assert!(message.contains(name), "{} is not listed", name);
    }
    assert_ne!(usage("a"), usage("b"));
}

#[test]
fn settings_take_their_defaults() {
    assert_eq!(
        Settings::from_command_line(complete_command_line()),
        Ok(Settings {
            cache: None,
            name: "Scrobbler".to_string(),
            device_type: None,
            verbose: false,
            username: None,
            password: None,
            enable_discovery: true,
            mixer: None,
            scrobbler: ScrobblerConfig {
                api_key: "key".to_string(),
                api_secret: "secret".to_string(),
                username: "alice".to_string(),
                password: "hunter2".to_string(),
            },
        })
    );
}

#[test]
fn settings_follow_the_command_line() {
    let given = CommandLine {
        cache: text("/c"),
        disable_audio_cache: true,
        name: text("Den"),
        device_type: text("tv"),
        verbose: true,
        username: text("bob"),
        password: text("pw"),
        disable_discovery: true,
        mixer: text("softvol"),
        ..complete_command_line()
    };
    let settings = Settings::from_command_line(given).unwrap();
    assert_eq!(
        settings.cache,
        Some(CacheSettings { location: "/c".to_string(), use_audio_cache: false })
    );
    assert_eq!(settings.name, "Den");
    assert_eq!(settings.device_type, text("tv"));
    assert!(settings.verbose);
    assert_eq!(settings.username, text("bob"));
    assert_eq!(settings.password, text("pw"));
    assert!(!settings.enable_discovery);
    assert_eq!(settings.mixer, text("softvol"));
}

#[test]
fn audio_is_cached_unless_disabled() {
    let given = CommandLine { cache: text("/c"), ..complete_command_line() };
    let settings = Settings::from_command_line(given).unwrap();
    assert_eq!(
        settings.cache,
        Some(CacheSettings { location: "/c".to_string(), use_audio_cache: true })
    );
    // Without a directory there is no cache, whatever the flag says.
    let given = CommandLine { disable_audio_cache: true, ..complete_command_line() };
    assert_eq!(Settings::from_command_line(given).unwrap().cache, None);
}

#[test]
fn the_first_missing_value_is_reported() {
    let missing = |given: CommandLine| Settings::from_command_line(given).unwrap_err();
    assert_eq!(
        missing(CommandLine::default()),
        ConfigurationError::Missing(Required::LastfmApiKey)
    );
    assert_eq!(
        missing(CommandLine { lastfm_api_key: None, ..complete_command_line() }),
        ConfigurationError::Missing(Required::LastfmApiKey)
    );
    assert_eq!(
        missing(CommandLine { lastfm_api_secret: None, ..complete_command_line() }),
        ConfigurationError::Missing(Required::LastfmApiSecret)
    );
    assert_eq!(
        missing(CommandLine { lastfm_username: None, ..complete_command_line() }),
        ConfigurationError::Missing(Required::LastfmUsername)
    );
    assert_eq!(
        missing(CommandLine { lastfm_password: None, ..complete_command_line() }),
        ConfigurationError::Missing(Required::LastfmPassword)
    );
    assert_eq!(
        missing(CommandLine {
            lastfm_api_secret: None,
            lastfm_password: None,
            ..complete_command_line()
        }),
        ConfigurationError::Missing(Required::LastfmApiSecret)
    );
}

#[test]
fn error_messages() {
    assert_eq!(
        ConfigurationError::Arguments("Unrecognized option: 'x'".to_string()).message(),
        "Unrecognized option: 'x'"
    );
    assert_eq!(
        ConfigurationError::Missing(Required::LastfmApiKey).message(),
        "Invalid Last.fm API key"
    );
    assert_eq!(
        ConfigurationError::Missing(Required::LastfmApiSecret).message(),
        "Invalid Last.fm API secret"
    );
    assert_eq!(
        ConfigurationError::Missing(Required::LastfmUsername).message(),
        "Invalid Last.fm username"
    );
    assert_eq!(
        ConfigurationError::Missing(Required::LastfmPassword).message(),
        "Invalid Last.fm password"
    );
}

#[test]
fn setup_parses_and_derives() {
    let mut given = scrobbler_args();
    given.extend(["--name", "Attic", "--disable-discovery", "-c", "/srv"]);
    let settings = setup(&args(&given)).unwrap();
    assert_eq!(settings.name, "Attic");
    assert!(!settings.enable_discovery);
    assert_eq!(
        settings.cache,
        Some(CacheSettings { location: "/srv".to_string(), use_audio_cache: true })
    );
    assert_eq!(settings.scrobbler.username, "alice");
    assert_eq!(settings.scrobbler.api_secret, "secret");
}

#[test]
fn setup_reports_both_kinds_of_error() {
    assert_eq!(
        setup(&args(&["--nonsense"])),
        Err(ConfigurationError::Arguments("Unrecognized option: 'nonsense'".to_string()))
    );
    assert_eq!(
        setup(&args(&["--lastfm-api-key", "key", "--lastfm-api-secret", "secret"])),
        Err(ConfigurationError::Missing(Required::LastfmUsername))
    );
}

#[test]
fn the_override_wins_over_the_flag() {
    assert_eq!(
        log_plan(text("debug"), true),
        LogPlan { filter: "debug".to_string(), flag_overridden: true }
    );
    assert_eq!(
        log_plan(text("debug"), false),
        LogPlan { filter: "debug".to_string(), flag_overridden: false }
    );
    assert_eq!(
        log_plan(text(""), true),
        LogPlan { filter: String::new(), flag_overridden: true }
    );
}

#[test]
fn the_flag_selects_the_filter() {
    assert_eq!(
        log_plan(None, true),
        LogPlan { filter: "mdns=info,librespot=trace".to_string(), flag_overridden: false }
    );
    assert_eq!(
        log_plan(None, false),
        LogPlan { filter: "mdns=info,librespot=info".to_string(), flag_overridden: false }
    );
}
