//! The configuration record: the prompt template and the size ceiling.

use vstd::prelude::*;
use vstd::string::*;
use crate::prompt::DEFAULT_MAX_PROMPT_SIZE;
use crate::whitespace::{is_blank, is_blank_text};

verus! {

/// What the configuration file holds.
#[derive(Debug)]
pub struct Config {
    /// Template that is put in front of the diff.
    pub prompt: String,
    /// Ceiling on the combined size of template and diff, in bytes.
    pub max_prompt_size: usize,
}

/// A configuration as plain values.
pub struct ConfigView {
    pub prompt: Seq<char>,
    pub max_prompt_size: nat,
}

impl View for Config {
    type V = ConfigView;

    open spec fn view(&self) -> ConfigView {
        ConfigView { prompt: self.prompt@, max_prompt_size: self.max_prompt_size as nat }
    }
}

/// Why a configuration is turned down.
#[derive(Debug)]
pub enum ConfigError {
    /// The template is empty or holds only whitespace. `path` names the file
    /// the configuration came from.
    BlankPrompt { path: String },
    /// The size ceiling is zero. `path` names the file the configuration came
    /// from.
    ZeroLimit { path: String },
}

/// The ceiling that applies where the configuration file names none.
pub fn default_max_prompt_size() -> (size: usize)
    ensures
        size == DEFAULT_MAX_PROMPT_SIZE,
{
    DEFAULT_MAX_PROMPT_SIZE
}

impl Config {
    /// The invariant of a loaded configuration: the ceiling is positive.
    pub open spec fn wf(&self) -> bool {
        self@.max_prompt_size > 0
    }

    /// Whether the configuration can be used to generate a message: it is
    /// well-formed and its template says something.
    ///
    /// An empty or blank template is a mistake in the file, not a request for
    /// a prompt without instructions, so it is turned down when the
    /// configuration is loaded rather than passed on.
    pub open spec fn usable(&self) -> bool {
        self.wf() && !is_blank(self@.prompt)
    }
}

impl ConfigError {
    /// The text that reports this error.
    pub open spec fn message(&self) -> Seq<char> {
        match self {
            ConfigError::BlankPrompt { path } => {
                "Configuration error: 'prompt' field cannot be empty or whitespace-only. Please provide a valid prompt template in "@
                    + path@
            },
            ConfigError::ZeroLimit { path } => {
                "Configuration error: 'max_prompt_size' must be greater than zero. Please provide a valid size limit in "@
                    + path@
            },
        }
    }

    /// Renders the report for the user.
    pub fn to_string(&self) -> (text: String)
        ensures
            text@ == self.message(),
    {
        match self {
            ConfigError::BlankPrompt { path } => {
                let mut text = String::from_str(
                    "Configuration error: 'prompt' field cannot be empty or whitespace-only. Please provide a valid prompt template in ",
                );
                text.append(path.as_str());
                text
            },
            ConfigError::ZeroLimit { path } => {
                let mut text = String::from_str(
                    "Configuration error: 'max_prompt_size' must be greater than zero. Please provide a valid size limit in ",
                );
                text.append(path.as_str());
                text
            },
        }
    }
}

/// Accepts a configuration read from the file at `config_path`, or says what
/// is wrong with it.
///
/// A usable configuration is handed back unchanged. A blank template is
/// reported first, then a ceiling of zero.
pub fn check_config(config: Config, config_path: &str) -> (result: Result<Config, ConfigError>)
    ensures
        result is Ok <==> config.usable(),
        match result {
            Ok(accepted) => accepted == config,
            Err(ConfigError::BlankPrompt { path }) => is_blank(config@.prompt) && path@
                == config_path@,
            Err(ConfigError::ZeroLimit { path }) => !is_blank(config@.prompt)
                && config@.max_prompt_size == 0 && path@ == config_path@,
        },
{
    if is_blank_text(config.prompt.as_str()) {
        Err(ConfigError::BlankPrompt { path: String::from_str(config_path) })
    } else if config.max_prompt_size == 0 {
        Err(ConfigError::ZeroLimit { path: String::from_str(config_path) })
    } else {
        Ok(config)
    }
}

} // verus!
