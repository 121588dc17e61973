use crate::prompts::{default_template, Prompts};
use vstd::prelude::*;

verus! {

/// The settings as they are stored: the API key is given by the name of the
/// environment variable that holds it.
#[derive(Clone, Debug)]
pub struct IrisSettings {
    /// Name of the environment variable where the API key is saved
    pub openai_api_key: String,
    /// URL of the Open AI API (including '/v1')
    pub openai_api_endpoint: String,
    /// Prompt templates for the different actions
    pub prompts: Prompts,
}

/// The configuration in use, with the API key itself in place of its variable's name.
#[derive(Clone, Debug)]
pub struct IrisConfig {
    /// The API key, sent as a bearer credential
    pub openai_api_key: String,
    /// URL of the Open AI API (including '/v1')
    pub openai_api_endpoint: String,
    /// Prompt templates for the different actions
    pub prompts: Prompts,
}

/// Why no configuration could be had.
#[derive(Clone, Debug)]
pub enum ConfigLoadError {
    /// The stored settings could not be read or parsed.
    Unreadable(String),
    /// The environment variable named for the API key could not be read.
    MissingVariable { name: String, reason: String },
}

impl ConfigLoadError {
    /// The text shown to the user.
    pub open spec fn spec_message(&self) -> Seq<char> {
        match self {
            ConfigLoadError::Unreadable(e) => "Unable to load Iris config: "@ + e@,
            ConfigLoadError::MissingVariable { name, reason } => "Error retrieving "@ + name@
                + ": "@ + reason@,
        }
    }

    /// The text shown to the user.
    pub fn message(&self) -> (r: String)
        ensures
            r@ == self.spec_message(),
    {
        match self {
            ConfigLoadError::Unreadable(e) => String::from_str(
                "Unable to load Iris config: ",
            ).concat(e.as_str()),
            ConfigLoadError::MissingVariable { name, reason } => String::from_str(
                "Error retrieving ",
            ).concat(name.as_str()).concat(": ").concat(reason.as_str()),
        }
    }
}

impl Default for IrisSettings {
    /// The key in `OPENAI_API_KEY`, the public OpenAI endpoint, and the default templates.
    fn default() -> (r: Self)
        ensures
            r.openai_api_key@ == "OPENAI_API_KEY"@,
            r.openai_api_endpoint@ == "https://api.openai.com/v1"@,
            forall|a| #[trigger] r.prompts.template(a) == default_template(a),
    {
        IrisSettings {
            openai_api_key: String::from_str("OPENAI_API_KEY"),
            openai_api_endpoint: String::from_str("https://api.openai.com/v1"),
            prompts: Prompts::default(),
        }
    }
}

impl IrisConfig {
    /// The configuration of `settings`, given what reading the environment variable
    /// that they name gave: its value, or why it could not be read. The key is never
    /// taken from anywhere else.
    pub fn load(settings: IrisSettings, api_key: Result<String, String>) -> (r: Result<
        IrisConfig,
        ConfigLoadError,
    >)
        ensures
            match api_key {
                Ok(key) => r == Ok::<IrisConfig, ConfigLoadError>(
                    IrisConfig {
                        openai_api_key: key,
                        openai_api_endpoint: settings.openai_api_endpoint,
                        prompts: settings.prompts,
                    },
                ),
                Err(reason) => r == Err::<IrisConfig, ConfigLoadError>(
                    ConfigLoadError::MissingVariable { name: settings.openai_api_key, reason },
                ),
            },
    {
        match api_key {
            Ok(key) => Ok(
                IrisConfig {
                    openai_api_key: key,
                    openai_api_endpoint: settings.openai_api_endpoint,
                    prompts: settings.prompts,
                },
            ),
            Err(reason) => Err(
                ConfigLoadError::MissingVariable { name: settings.openai_api_key, reason },
            ),
        }
    }
}

} // verus!
