//! The update intervals, and the text form in which they are kept.

use vstd::prelude::*;
use vstd::string::*;
use crate::text::{
    decimal, decimal_string, find_char, index_of, line_end, parse_number, parse_unsigned, str_eq,
    trim, trimmed,
};

verus! {

/// The update intervals, in seconds.
#[derive(Debug, Clone, Copy, PartialEq, Eq, Structural)]
pub struct Config {
    /// Between two updates of the clock.
    pub clock_interval: u64,
    /// Between two updates of the battery.
    pub battery_interval: u64,
    /// Between two checks for outdated packages.
    pub brew_interval: u64,
    /// Between two checks for chat notifications.
    pub teams_interval: u64,
}

/// The intervals that hold where nothing else is configured.
pub open spec fn default_config() -> Config {
    Config { clock_interval: 15, battery_interval: 120, brew_interval: 3600, teams_interval: 30 }
}

impl Default for Config {
    fn default() -> (config: Self)
        ensures
            config == default_config(),
    {
        Config { clock_interval: 15, battery_interval: 120, brew_interval: 3600, teams_interval: 30 }
    }
}

/// The message for a value that is no number of seconds.
pub open spec fn invalid_value(key: Seq<char>, value: Seq<char>) -> Seq<char> {
    "Invalid value for "@ + key + ": "@ + value
}

/// What one line does to the configuration. An empty line, a comment (`#`)
/// and a line without `=` change nothing. Otherwise the text before the first
/// `=` is the key and the text after it the value, both without surrounding
/// white space: a known key takes the value where that is an unsigned decimal
/// number that fits 64 bits and fails otherwise; an unknown key changes
/// nothing.
pub open spec fn config_after_line(config: Config, line: Seq<char>) -> Result<Config, Seq<char>> {
    let t = trimmed(line);
    let eq = index_of(t, '=', 0);
    if t.len() == 0 || t[0] == '#' || eq >= t.len() {
        Ok(config)
    } else {
        let key = trimmed(t.subrange(0, eq));
        let value = trimmed(t.subrange(eq + 1, t.len() as int));
        let number = parse_unsigned(value, u64::MAX as nat);
        if key == "clock_interval"@ {
            match number {
                Some(v) => Ok(Config { clock_interval: v as u64, ..config }),
                None => Err(invalid_value(key, value)),
            }
        } else if key == "battery_interval"@ {
            match number {
                Some(v) => Ok(Config { battery_interval: v as u64, ..config }),
                None => Err(invalid_value(key, value)),
            }
        } else if key == "brew_interval"@ {
            match number {
                Some(v) => Ok(Config { brew_interval: v as u64, ..config }),
                None => Err(invalid_value(key, value)),
            }
        } else if key == "teams_interval"@ {
            match number {
                Some(v) => Ok(Config { teams_interval: v as u64, ..config }),
                None => Err(invalid_value(key, value)),
            }
        } else {
            Ok(config)
        }
    }
}

/// What the lines of `text` from index `from` on do to the configuration, one
/// after the other; the first line that fails ends the reading.
pub open spec fn config_after_lines(config: Config, text: Seq<char>, from: int) -> Result<
    Config,
    Seq<char>,
>
    decreases text.len() + 1 - from,
{
    if from < 0 || from >= text.len() {
        Ok(config)
    } else {
        let end = line_end(text, from);
        match config_after_line(config, text.subrange(from, end)) {
            Ok(next) => config_after_lines(next, text, end + 1),
            Err(message) => Err(message),
        }
    }
}

/// The configuration that `text` holds: the defaults, changed by its lines.
pub open spec fn parsed_config(text: Seq<char>) -> Result<Config, Seq<char>> {
    config_after_lines(default_config(), text, 0)
}

/// Whether an executable result is the one that the model gives.
pub open spec fn same_result(result: Result<Config, String>, model: Result<Config, Seq<char>>) -> bool {
    match result {
        Ok(config) => model == Ok::<Config, Seq<char>>(config),
        Err(message) => model == Err::<Config, Seq<char>>(message@),
    }
}

/// The text form of a configuration.
pub open spec fn rendered_config(config: Config) -> Seq<char> {
    "# Sketchybartender Configuration\n# Update intervals in seconds\n\n# Clock update interval (default: 15)\nclock_interval = "@
        + decimal(config.clock_interval as nat)
        + "\n\n# Battery update interval (default: 120)\nbattery_interval = "@ + decimal(
        config.battery_interval as nat,
    ) + "\n\n# Brew outdated check interval (default: 3600)\nbrew_interval = "@ + decimal(
        config.brew_interval as nat,
    ) + "\n\n# Teams notification check interval (default: 30)\nteams_interval = "@ + decimal(
        config.teams_interval as nat,
    ) + "\n"@
}

fn invalid_value_message(key: &str, value: &str) -> (message: String)
    ensures
        message@ == invalid_value(key@, value@),
{
    let mut message = String::from_str("Invalid value for ");
    message.append(key);
    message.append(": ");
    message.append(value);
    message
}

fn apply_line(config: Config, line: &str) -> (result: Result<Config, String>)
    ensures
        same_result(result, config_after_line(config, line@)),
{
    let t = trim(line);
    let n: usize = t.unicode_len();
    if n == 0 || t.get_char(0) == '#' {
        return Ok(config);
    }
    let eq = find_char(t, '=', 0);
    if eq >= n {
        return Ok(config);
    }
    let key = trim(t.substring_char(0, eq));
    let value = trim(t.substring_char(eq + 1, n));
    let clock = str_eq(key, "clock_interval");
    let battery = str_eq(key, "battery_interval");
    let brew = str_eq(key, "brew_interval");
    let teams = str_eq(key, "teams_interval");
    if !(clock || battery || brew || teams) {
        return Ok(config);
    }
    match parse_number(value, u64::MAX) {
        Some(v) => {
            if clock {
                Ok(Config { clock_interval: v, ..config })
            } else if battery {
                Ok(Config { battery_interval: v, ..config })
            } else if brew {
                Ok(Config { brew_interval: v, ..config })
            } else {
                Ok(Config { teams_interval: v, ..config })
            }
        },
        None => Err(invalid_value_message(key, value)),
    }
}

impl Config {
    /// Reads a configuration from its text form.
    pub fn parse(text: &str) -> (result: Result<Config, String>)
        ensures
            same_result(result, parsed_config(text@)),
    {
        let n: usize = text.unicode_len();
        let mut config = Config::default();
        let mut from: usize = 0;
        while from < n
            invariant
                n == text@.len(),
                from <= n,
                parsed_config(text@) == config_after_lines(config, text@, from as int),
            decreases n - from,
        {
            let end = find_char(text, '\n', from);
            match apply_line(config, text.substring_char(from, end)) {
                Ok(next) => {
                    config = next;
                },
                Err(message) => {
                    return Err(message);
                },
            }
            if end >= n {
                assert(config_after_lines(config, text@, end + 1) == Ok::<Config, Seq<char>>(
                    config,
                ));
                return Ok(config);
            }
            from = end + 1;
        }
        Ok(config)
    }

    /// The configuration to run with: what the file holds where there is one
    /// and it can be read, the defaults otherwise.
    pub fn load(contents: Option<&str>) -> (config: Config)
        ensures
            config == match contents {
                Some(text) => match parsed_config(text@) {
                    Ok(parsed) => parsed,
                    Err(_) => default_config(),
                },
                None => default_config(),
            },
    {
        match contents {
            Some(text) => match Config::parse(text) {
                Ok(config) => config,
                Err(_) => Config::default(),
            },
            None => Config::default(),
        }
    }

    /// Writes the configuration in its text form.
    pub fn render(&self) -> (text: String)
        ensures
            text@ == rendered_config(*self),
    {
        let mut text = String::from_str(
            "# Sketchybartender Configuration\n# Update intervals in seconds\n\n# Clock update interval (default: 15)\nclock_interval = ",
        );
        text.append(decimal_string(self.clock_interval).as_str());
        text.append("\n\n# Battery update interval (default: 120)\nbattery_interval = ");
        text.append(decimal_string(self.battery_interval).as_str());
        text.append("\n\n# Brew outdated check interval (default: 3600)\nbrew_interval = ");
        text.append(decimal_string(self.brew_interval).as_str());
        text.append("\n\n# Teams notification check interval (default: 30)\nteams_interval = ");
        text.append(decimal_string(self.teams_interval).as_str());
        text.append("\n");
        text
    }
}

} // verus!
