use vstd::prelude::*;

pub mod config;
pub mod openai;
pub mod prompts;
pub mod session;
pub mod shortcuts;
pub mod text;

pub use config::{ConfigLoadError, IrisConfig, IrisSettings};
pub use openai::{
    completions_url, CompletionError, OpenAIChoices, OpenAIMessage, OpenAIRequest,
    OpenAIResponse,
};
pub use prompts::{Prompt, Prompts};
pub use session::{append_line, AppStates};
pub use shortcuts::{
    ActionKeyboardShortcuts, KeyChord, ResponseKeyboardShortcuts, SubmitKeyboardShortcut,
};

verus! {

/// The four things the assistant can be asked to do with a text.
#[derive(Clone, Copy, Debug, PartialEq, Eq, Structural, Hash)]
pub enum Actions {
    /// Explains a given context or input.
    Explain,
    /// Summarizes a given context or input.
    Summarize,
    /// Edits a given context or input.
    Edit,
    /// Asks a question based on the given context or input.
    Ask,
}

impl Actions {
    /// The label under which the action is shown.
    pub open spec fn spec_label(self) -> Seq<char> {
        match self {
            Actions::Explain => "Explain"@,
            Actions::Summarize => "Summarize"@,
            Actions::Edit => "Edit"@,
            Actions::Ask => "Ask"@,
        }
    }

    /// Whether the action works on a request typed in by the user besides the text.
    pub open spec fn spec_takes_user_input(self) -> bool {
        self is Edit || self is Ask
    }

    /// Every action, in the order in which they are offered.
    pub fn all() -> (r: Vec<Actions>)
        ensures
            r@ == seq![Actions::Explain, Actions::Summarize, Actions::Edit, Actions::Ask],
    {
        vec![Actions::Explain, Actions::Summarize, Actions::Edit, Actions::Ask]
    }

    /// The label under which the action is shown.
    pub fn label(&self) -> (r: &'static str)
        ensures
            r@ == self.spec_label(),
    {
        match self {
            Actions::Explain => "Explain",
            Actions::Summarize => "Summarize",
            Actions::Edit => "Edit",
            Actions::Ask => "Ask",
        }
    }

    /// Whether the action works on a request typed in by the user besides the text.
    pub fn takes_user_input(&self) -> (r: bool)
        ensures
            r == self.spec_takes_user_input(),
    {
        match self {
            Actions::Edit | Actions::Ask => true,
            _ => false,
        }
    }

    /// An example request shown in the empty input field of the actions that take one.
    pub fn input_hint(&self) -> (r: Option<&'static str>)
        ensures
            r.is_some() == self.spec_takes_user_input(),
            *self is Edit ==> r == Some("Rewrite in a professional tone."),
            *self is Ask ==> r == Some("What is the distance between the earth and the moon?"),
    {
        match self {
            Actions::Edit => Some("Rewrite in a professional tone."),
            Actions::Ask => Some("What is the distance between the earth and the moon?"),
            _ => None,
        }
    }
}

/// The one completion call that executing an action makes: the URL it is posted to,
/// the bearer credential, and the request.
#[derive(Clone, Debug)]
pub struct CompletionCall {
    pub url: String,
    pub api_key: String,
    pub request: OpenAIRequest,
}

/// The first half of executing an action: the completion call that answers `action` on
/// `context`, and the user's own request where there is one. The template bound to
/// `action` is rendered and sent as the one user message to the endpoint of `config`.
/// The call's outcome goes to [`finish`].
pub fn run(action: &Actions, context: &str, user_input: Option<&str>, config: &IrisConfig) -> (r:
    CompletionCall)
    ensures
        r.url@ == config.openai_api_endpoint@ + openai::completions_path(),
        r.api_key@ == config.openai_api_key@,
        r.request.is_user_prompt(
            prompts::render(config.prompts.template(*action), context@, prompts::opt_view(user_input)),
        ),
{
    let prompt = config.prompts.render(action, context, user_input);
    CompletionCall {
        url: completions_url(config.openai_api_endpoint.as_str()),
        api_key: config.openai_api_key.clone(),
        request: OpenAIRequest::user_prompt(prompt),
    }
}

/// The second half of executing an action: the reply that the completion call brought,
/// or its failure unchanged; a response without choices is a decode error.
pub fn finish(outcome: Result<OpenAIResponse, CompletionError>) -> (r: Result<
    String,
    CompletionError,
>)
    ensures
        match outcome {
            Ok(resp) => if resp.choices@.len() > 0 {
                (r matches Ok(c) && c@ == resp.choices@[0].message.content@)
            } else {
                (r matches Err(CompletionError::Decode(m)) && m@ == openai::no_choices_message())
            },
            Err(e) => r == Err::<String, CompletionError>(e),
        },
{
    match outcome {
        Ok(resp) => match resp.first_reply() {
            Some(c) => Ok(c),
            None => Err(CompletionError::Decode(String::from_str("response holds no choices"))),
        },
        Err(e) => Err(e),
    }
}

} // verus!
