//! The configuration of the watcher: the idle threshold and the action.

use vstd::prelude::*;
use vstd::string::*;
use crate::decimal::{parse_decimal, parse_decimal_spec};

verus! {

/// The idle threshold, in seconds, where none is given.
pub const DEFAULT_IDLE_SECONDS: u64 = 3600;

/// Seconds from one tick to the next.
pub const TICK_PERIOD_SECONDS: u64 = 5;

/// The character that parts the words of an action.
pub open spec fn word_separator() -> char {
    ' '
}

/// The command of the action where none is given.
pub open spec fn default_command() -> Seq<char> {
    "/usr/bin/systemctl"@
}

/// The one argument of the action where none is given.
pub open spec fn default_argument() -> Seq<char> {
    "suspend"@
}

/// What the watcher is set up with. It does not change after startup.
#[derive(Debug, PartialEq, Eq)]
pub struct Config {
    /// The idle threshold, in seconds.
    pub idle_threshold: u64,
    /// The path of the command to run when the machine is idle.
    pub action_command: String,
    /// The arguments of that command, in their order.
    pub action_arguments: Vec<String>,
}

/// A configuration as plain values.
pub struct ConfigView {
    pub idle_threshold: u64,
    pub action_command: Seq<char>,
    pub action_arguments: Seq<Seq<char>>,
}

/// Why a configuration could not be made.
#[derive(Clone, Copy, Debug, PartialEq, Eq, Structural)]
pub enum ConfigError {
    /// The threshold given is no number of seconds.
    TimeoutNotAnInteger,
}

impl View for Config {
    type V = ConfigView;

    open spec fn view(&self) -> ConfigView {
        ConfigView {
            idle_threshold: self.idle_threshold,
            action_command: self.action_command@,
            action_arguments: self.action_arguments.deep_view(),
        }
    }
}

/// The words joined again, with the separator between each two of them.
pub open spec fn join_words(words: Seq<Seq<char>>) -> Seq<char>
    decreases words.len(),
{
    if words.len() == 0 {
        Seq::empty()
    } else if words.len() == 1 {
        words[0]
    } else {
        join_words(words.drop_last()) + seq![word_separator()] + words.last()
    }
}

/// Whether `words` are the words of `text`: there is at least one, none holds
/// the separator, and joined they give the text. Two separators in a row have
/// an empty word between them, and so has a separator at either end.
pub open spec fn are_words_of(words: Seq<Seq<char>>, text: Seq<char>) -> bool {
    &&& words.len() >= 1
    &&& forall|i: int| 0 <= i < words.len() ==> !(#[trigger] words[i]).contains(word_separator())
    &&& join_words(words) == text
}

/// The idle threshold for the text given on the command line, if one was
/// given: the default without a text, and the number that the text denotes.
pub open spec fn threshold_for(timeout: Option<Seq<char>>) -> Result<u64, ConfigError> {
    match timeout {
        None => Ok(DEFAULT_IDLE_SECONDS),
        Some(text) => match parse_decimal_spec(text) {
            Some(seconds) => Ok(seconds),
            None => Err(ConfigError::TimeoutNotAnInteger),
        },
    }
}

/// Whether `command` and `arguments` are the action for the text given on the
/// command line, if one was given: the default action without a text, and else
/// the first word of the text as the command and the other words as its
/// arguments.
pub open spec fn is_action_for(
    command: Seq<char>,
    arguments: Seq<Seq<char>>,
    action: Option<Seq<char>>,
) -> bool {
    match action {
        None => command == default_command() && arguments == seq![default_argument()],
        Some(text) => are_words_of(seq![command] + arguments, text),
    }
}

/// Whether `outcome` is what the two texts of the command line lead to.
pub open spec fn is_config_for(
    outcome: Result<Config, ConfigError>,
    timeout: Option<Seq<char>>,
    action: Option<Seq<char>>,
) -> bool {
    match threshold_for(timeout) {
        Err(error) => outcome == Err::<Config, ConfigError>(error),
        Ok(seconds) => {
            &&& outcome matches Ok(config)
            &&& config.idle_threshold == seconds
            &&& is_action_for(config@.action_command, config@.action_arguments, action)
        },
    }
}

/// A text has one splitting into words only.
pub proof fn lemma_words_unique(first: Seq<Seq<char>>, second: Seq<Seq<char>>, text: Seq<char>)
    requires
        are_words_of(first, text),
        are_words_of(second, text),
    ensures
        first == second,
    decreases first.len(),
{
    let sep = word_separator();
    let a = first.last();
    let b = second.last();
    assert(!a.contains(sep));
    assert(!b.contains(sep));
    if first.len() == 1 && second.len() == 1 {
        assert(first =~= second);
    } else if first.len() == 1 {
        // the text holds no separator, yet the second splitting puts one in it
        let at = join_words(second.drop_last()).len() as int;
        assert(text[at] == sep);
        assert(a[at] == sep);
        assert(a.contains(sep));
    } else if second.len() == 1 {
        let at = join_words(first.drop_last()).len() as int;
        assert(text[at] == sep);
        assert(b[at] == sep);
        assert(b.contains(sep));
    } else {
        let head_a = join_words(first.drop_last());
        let head_b = join_words(second.drop_last());
        assert(text == head_a + seq![sep] + a);
        assert(text == head_b + seq![sep] + b);
        // the last separator of the text ends both heads
        if a.len() < b.len() {
            let at = text.len() - 1 - a.len();
            assert(text[at] == sep);
            assert(b[at - head_b.len() - 1] == sep);
            assert(b.contains(sep));
        } else if b.len() < a.len() {
            let at = text.len() - 1 - b.len();
            assert(text[at] == sep);
            assert(a[at - head_a.len() - 1] == sep);
            assert(a.contains(sep));
        }
        assert(a =~= text.skip(text.len() - a.len()));
        assert(b =~= text.skip(text.len() - b.len()));
        assert(head_a =~= text.take(text.len() - a.len() - 1));
        assert(head_b =~= text.take(text.len() - b.len() - 1));
        assert forall|i: int| 0 <= i < first.drop_last().len() implies !(
        #[trigger] first.drop_last()[i]).contains(sep) by {
            assert(first.drop_last()[i] == first[i]);
        }
        assert forall|i: int| 0 <= i < second.drop_last().len() implies !(
        #[trigger] second.drop_last()[i]).contains(sep) by {
            assert(second.drop_last()[i] == second[i]);
        }
        lemma_words_unique(first.drop_last(), second.drop_last(), head_a);
        assert(first =~= first.drop_last().push(a));
        assert(second =~= second.drop_last().push(b));
    }
}

/// Splits a text into its words, at each separator.
pub fn split_words(text: &str) -> (words: Vec<String>)
    ensures
        are_words_of(words.deep_view(), text@),
{
    let len: usize = text.unicode_len();
    let mut words: Vec<String> = Vec::new();
    let mut start: usize = 0;
    let mut k: usize = 0;
    let ghost sep = word_separator();
    assert(text@.subrange(0, 0) =~= Seq::<char>::empty());
    assert(words.deep_view().push(text@.subrange(0, 0)) =~= seq![Seq::<char>::empty()]);
    assert(text@.take(0) =~= Seq::<char>::empty());
    while k < len
        invariant
            start <= k <= len,
            len == text@.len(),
            sep == word_separator(),
            are_words_of(
                words.deep_view().push(text@.subrange(start as int, k as int)),
                text@.take(k as int),
            ),
        decreases len - k,
    {
        let ghost done = words.deep_view();
        let ghost current = text@.subrange(start as int, k as int);
        let ghost so_far = done.push(current);
        let c: char = text.get_char(k);
        if c == ' ' {
            let word = String::from_str(text.substring_char(start, k));
            words.push(word);
            start = k + 1;
            proof {
                let empty = text@.subrange(start as int, start as int);
                let next = words.deep_view().push(empty);
                assert(words.deep_view() =~= so_far);
                assert(empty =~= Seq::<char>::empty());
                assert(next.drop_last() =~= so_far);
                assert(join_words(next) =~= text@.take(k as int) + seq![sep] + empty);
                assert(text@.take(k + 1) =~= text@.take(k as int) + seq![sep]);
                assert forall|i: int| 0 <= i < next.len() implies !(#[trigger] next[i]).contains(
                    sep,
                ) by {
                    if i < so_far.len() {
                        assert(next[i] == so_far[i]);
                    }
                }
            }
        } else {
            proof {
                let longer = text@.subrange(start as int, k + 1);
                let next = done.push(longer);
                assert(longer =~= current.push(c));
                assert(text@.take(k + 1) =~= text@.take(k as int).push(c));
                if done.len() == 0 {
                    assert(join_words(so_far) == current);
                    assert(join_words(next) == longer);
                } else {
                    assert(so_far.drop_last() =~= done);
                    assert(next.drop_last() =~= done);
                    assert(join_words(next) =~= join_words(so_far).push(c));
                }
                assert forall|i: int| 0 <= i < next.len() implies !(#[trigger] next[i]).contains(
                    sep,
                ) by {
                    if i < done.len() {
                        assert(next[i] == so_far[i]);
                    } else {
                        assert(!so_far[i].contains(sep));
                        if longer.contains(sep) {
                            let j = choose|j: int| 0 <= j < longer.len() && longer[j] == sep;
                            if j < current.len() {
                                assert(current[j] == sep);
                                assert(current.contains(sep));
                            }
                        }
                    }
                }
            }
        }
        k += 1;
    }
    let ghost done = words.deep_view();
    let last = String::from_str(text.substring_char(start, k));
    words.push(last);
    assert(text@.take(k as int) =~= text@);
    assert(words.deep_view() =~= done.push(text@.subrange(start as int, k as int)));
    words
}

impl Config {
    /// The configuration where the command line gives nothing: the default
    /// threshold and the default action.
    pub fn default_config() -> (config: Config)
        ensures
            config.idle_threshold == DEFAULT_IDLE_SECONDS,
            is_action_for(config@.action_command, config@.action_arguments, None),
    {
        let mut arguments: Vec<String> = Vec::new();
        arguments.push(String::from_str("suspend"));
        let config = Config {
            idle_threshold: DEFAULT_IDLE_SECONDS,
            action_command: String::from_str("/usr/bin/systemctl"),
            action_arguments: arguments,
        };
        assert(config@.action_arguments =~= seq![default_argument()]);
        config
    }

    /// The configuration for the two texts that the command line may give: the
    /// idle threshold in seconds and the action with its arguments. A threshold
    /// that is no number is refused.
    pub fn from_options(timeout: Option<&str>, action: Option<&str>) -> (outcome: Result<
        Config,
        ConfigError,
    >)
        ensures
            is_config_for(
                outcome,
                match timeout {
                    Some(text) => Some(text@),
                    None => None,
                },
                match action {
                    Some(text) => Some(text@),
                    None => None,
                },
            ),
    {
        let idle_threshold: u64 = match timeout {
            None => DEFAULT_IDLE_SECONDS,
            Some(text) => match parse_decimal(text) {
                Some(seconds) => seconds,
                None => {
                    return Err(ConfigError::TimeoutNotAnInteger);
                },
            },
        };
        match action {
            None => {
                let mut config = Config::default_config();
                config.idle_threshold = idle_threshold;
                Ok(config)
            },
            Some(text) => {
                let mut words = split_words(text);
                let ghost all = words.deep_view();
                let action_command = words.remove(0);
                let config = Config { idle_threshold, action_command, action_arguments: words };
                assert(seq![config@.action_command] + config@.action_arguments =~= all);
                Ok(config)
            },
        }
    }
}

} // verus!
