use idlewatcher::config::{
    split_words, Config, ConfigError, DEFAULT_IDLE_SECONDS, TICK_PERIOD_SECONDS,
};

fn strings(words: &[&str]) -> Vec<String> {
    words.iter().map(|w| String::from(*w)).collect()
}

#[test]
fn defaults_are_an_hour_and_five_seconds() {
    assert_eq!(DEFAULT_IDLE_SECONDS, 3600);
    assert_eq!(TICK_PERIOD_SECONDS, 5);
}

#[test]
fn default_config_suspends_after_an_hour() {
    let config = Config::default_config();
    assert_eq!(config.idle_threshold, 3600);
    assert_eq!(config.action_command, "/usr/bin/systemctl");
    assert_eq!(config.action_arguments, strings(&["suspend"]));
}

#[test]
fn split_parts_a_text_at_each_space() {
    assert_eq!(split_words("a b c"), strings(&["a", "b", "c"]));
    assert_eq!(split_words("/bin/echo hello world"), strings(&["/bin/echo", "hello", "world"]));
    assert_eq!(split_words("single"), strings(&["single"]));
}

#[test]
fn split_keeps_empty_words() {
    assert_eq!(split_words(""), strings(&[""]));
    assert_eq!(split_words(" "), strings(&["", ""]));
    assert_eq!(split_words("a  b"), strings(&["a", "", "b"]));
    assert_eq!(split_words(" a"), strings(&["", "a"]));
    assert_eq!(split_words("a "), strings(&["a", ""]));
    assert_eq!(split_words("   "), strings(&["", "", "", ""]));
}

#[test]
fn split_parts_at_spaces_only() {
    assert_eq!(split_words("a\tb\nc"), strings(&["a\tb\nc"]));
    assert_eq!(split_words("é ü"), strings(&["é", "ü"]));
}

#[test]
fn split_agrees_with_the_standard_library() {
    for text in ["", " ", "a", "a b", " a b ", "a   b", "systemctl suspend", "x\u{a0}y z"] {
        let expected: Vec<String> = text.split(' ').map(String::from).collect();
        assert_eq!(split_words(text), expected, "text {:?}", text);
    }
}

#[test]
fn joined_again_the_words_give_the_text() {
    for text in ["", " ", "a b", "  lead", "trail  ", "one two  three"] {
        assert_eq!(split_words(text).join(" "), text);
    }
}

#[test]
fn from_options_without_anything_is_the_default() {
    assert_eq!(Config::from_options(None, None), Ok(Config::default_config()));
}

#[test]
fn from_options_takes_the_threshold() {
    let config = Config::from_options(Some("10"), None).unwrap();
    assert_eq!(config.idle_threshold, 10);
    assert_eq!(config.action_command, "/usr/bin/systemctl");
    assert_eq!(config.action_arguments, strings(&["suspend"]));
}

#[test]
fn from_options_takes_the_action() {
    let config = Config::from_options(None, Some("/bin/touch /tmp/idle now")).unwrap();
    assert_eq!(config.idle_threshold, 3600);
    assert_eq!(config.action_command, "/bin/touch");
    assert_eq!(config.action_arguments, strings(&["/tmp/idle", "now"]));
}

#[test]
fn from_options_with_a_bare_command_has_no_arguments() {
    let config = Config::from_options(Some("+7"), Some("/bin/true")).unwrap();
    assert_eq!(config.idle_threshold, 7);
    assert_eq!(config.action_command, "/bin/true");
    assert_eq!(config.action_arguments, Vec::<String>::new());
}

#[test]
fn from_options_with_an_empty_action_has_an_empty_command() {
    let config = Config::from_options(None, Some("")).unwrap();
    assert_eq!(config.action_command, "");
    assert_eq!(config.action_arguments, Vec::<String>::new());
}

#[test]
fn from_options_refuses_a_threshold_that_is_no_number() {
    assert_eq!(Config::from_options(Some("soon"), None), Err(ConfigError::TimeoutNotAnInteger));
    assert_eq!(Config::from_options(Some(""), None), Err(ConfigError::TimeoutNotAnInteger));
    assert_eq!(Config::from_options(Some("-1"), None), Err(ConfigError::TimeoutNotAnInteger));
    assert_eq!(
        Config::from_options(Some("18446744073709551616"), Some("/bin/true")),
        Err(ConfigError::TimeoutNotAnInteger)
    );
}
