use idlewatcher::cli::{parse_cli, request_from_options, CliError, CliRequest, UsageError};
use idlewatcher::config::Config;

fn args(words: &[&str]) -> Vec<String> {
    words.iter().map(|w| String::from(*w)).collect()
}

fn run(threshold: u64, command: &str, arguments: &[&str]) -> Result<CliRequest, CliError> {
    Ok(CliRequest::Run(Config {
        idle_threshold: threshold,
        action_command: String::from(command),
        action_arguments: args(arguments),
    }))
}

#[test]
fn no_arguments_give_the_default_configuration() {
    assert_eq!(parse_cli(&args(&[])), run(3600, "/usr/bin/systemctl", &["suspend"]));
}

#[test]
fn short_timeout_is_read() {
    assert_eq!(parse_cli(&args(&["-t", "10"])), run(10, "/usr/bin/systemctl", &["suspend"]));
    assert_eq!(parse_cli(&args(&["-t10"])), run(10, "/usr/bin/systemctl", &["suspend"]));
}

#[test]
fn long_timeout_is_read() {
    assert_eq!(parse_cli(&args(&["--timeout", "25"])), run(25, "/usr/bin/systemctl", &["suspend"]));
    assert_eq!(parse_cli(&args(&["--timeout=25"])), run(25, "/usr/bin/systemctl", &["suspend"]));
}

#[test]
fn command_is_split_into_command_and_arguments() {
    assert_eq!(
        parse_cli(&args(&["-c", "/bin/echo going idle"])),
        run(3600, "/bin/echo", &["going", "idle"])
    );
    assert_eq!(parse_cli(&args(&["--command", "/bin/true"])), run(3600, "/bin/true", &[]));
}

#[test]
fn timeout_and_command_together() {
    assert_eq!(
        parse_cli(&args(&["-c", "/usr/bin/loginctl lock-session", "-t", "300"])),
        run(300, "/usr/bin/loginctl", &["lock-session"])
    );
}

#[test]
fn free_arguments_are_passed_over() {
    assert_eq!(
        parse_cli(&args(&["stray", "-t", "5", "words"])),
        run(5, "/usr/bin/systemctl", &["suspend"])
    );
}

#[test]
fn help_is_asked_for() {
    assert_eq!(parse_cli(&args(&["-h"])), Ok(CliRequest::Help));
    assert_eq!(parse_cli(&args(&["--help"])), Ok(CliRequest::Help));
}

#[test]
fn help_goes_before_a_malformed_timeout() {
    assert_eq!(parse_cli(&args(&["-t", "never", "-h"])), Ok(CliRequest::Help));
}

#[test]
fn malformed_timeout_is_refused() {
    assert_eq!(parse_cli(&args(&["-t", "never"])), Err(CliError::TimeoutNotAnInteger));
    assert_eq!(parse_cli(&args(&["--timeout=1.5"])), Err(CliError::TimeoutNotAnInteger));
    assert_eq!(parse_cli(&args(&["-t", "-3"])), Err(CliError::TimeoutNotAnInteger));
}

#[test]
fn unknown_option_is_refused() {
    assert_eq!(
        parse_cli(&args(&["-x"])),
        Err(CliError::Usage(UsageError::UnrecognizedOption(String::from("x"))))
    );
    assert_eq!(
        parse_cli(&args(&["--verbose"])),
        Err(CliError::Usage(UsageError::UnrecognizedOption(String::from("verbose"))))
    );
}

#[test]
fn option_without_its_value_is_refused() {
    assert_eq!(
        parse_cli(&args(&["-t"])),
        Err(CliError::Usage(UsageError::ArgumentMissing(String::from("t"))))
    );
    assert_eq!(
        parse_cli(&args(&["--command"])),
        Err(CliError::Usage(UsageError::ArgumentMissing(String::from("command"))))
    );
}

#[test]
fn option_given_twice_is_refused() {
    assert_eq!(
        parse_cli(&args(&["-t", "1", "--timeout", "2"])),
        Err(CliError::Usage(UsageError::OptionDuplicated(String::from("timeout"))))
    );
}

#[test]
fn value_for_the_help_flag_is_refused() {
    assert_eq!(
        parse_cli(&args(&["--help=yes"])),
        Err(CliError::Usage(UsageError::UnexpectedArgument(String::from("help"))))
    );
}

#[test]
fn request_from_options_help_first() {
    assert_eq!(
        request_from_options(true, Some(String::from("x")), Some(String::from("y"))),
        Ok(CliRequest::Help)
    );
}

#[test]
fn request_from_options_builds_the_configuration() {
    assert_eq!(
        request_from_options(false, Some(String::from("10")), Some(String::from("/bin/sleep 1"))),
        run(10, "/bin/sleep", &["1"])
    );
    assert_eq!(request_from_options(false, None, None), run(3600, "/usr/bin/systemctl", &["suspend"]));
}

#[test]
fn request_from_options_refuses_a_malformed_timeout() {
    assert_eq!(
        request_from_options(false, Some(String::from("ten")), None),
        Err(CliError::TimeoutNotAnInteger)
    );
}
