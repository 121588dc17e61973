use vstd::prelude::*;

verus! {

/// One message of a chat: who speaks, and what is said.
#[derive(Clone, Debug)]
pub struct OpenAIMessage {
    pub role: String,
    pub content: String,
}

/// A chat-completion request.
#[derive(Clone, Debug)]
pub struct OpenAIRequest {
    pub model: String,
    pub messages: Vec<OpenAIMessage>,
    pub stream: bool,
}

/// A chat-completion response.
#[derive(Clone, Debug)]
pub struct OpenAIResponse {
    pub id: String,
    pub object: String,
    pub created: i32,
    pub model: String,
    pub choices: Vec<OpenAIChoices>,
}

/// One choice of a chat-completion response.
#[derive(Clone, Debug)]
pub struct OpenAIChoices {
    pub message: OpenAIMessage,
}

/// Why a completion call brought no reply.
#[derive(Clone, Debug)]
pub enum CompletionError {
    /// The endpoint could not be reached or did not answer (connection, DNS, TLS, timeout).
    Transport(String),
    /// The answer was not a chat-completion response, or held no choice.
    Decode(String),
}

/// The relative path of the chat-completion endpoint under the API base URL.
pub open spec fn completions_path() -> Seq<char> {
    "/chat/completions"@
}

/// The text of the error reported for a response without choices.
pub open spec fn no_choices_message() -> Seq<char> {
    "response holds no choices"@
}

/// The URL that a completion request is posted to.
pub fn completions_url(api_base: &str) -> (r: String)
    ensures
        r@ == api_base@ + completions_path(),
{
    String::from_str(api_base).concat("/chat/completions")
}

impl OpenAIRequest {
    /// `self` asks the default model, without streaming, to answer `content` as the
    /// one user message.
    pub open spec fn is_user_prompt(&self, content: Seq<char>) -> bool {
        &&& self.model@ == "default"@
        &&& self.stream == false
        &&& self.messages@.len() == 1
        &&& self.messages@[0].role@ == "user"@
        &&& self.messages@[0].content@ == content
    }

    /// A request that asks the default model, without streaming, to answer `content`.
    pub fn user_prompt(content: String) -> (r: OpenAIRequest)
        ensures
            r.is_user_prompt(content@),
    {
        let message = OpenAIMessage { role: String::from_str("user"), content };
        OpenAIRequest { model: String::from_str("default"), messages: vec![message], stream: false }
    }
}

impl OpenAIResponse {
    /// The reply carried by the first choice.
    pub fn first_reply(&self) -> (r: Option<String>)
        ensures
            self.choices@.len() == 0 ==> r is None,
            self.choices@.len() > 0 ==> (r matches Some(c) && c@
                == self.choices@[0].message.content@),
    {
        if self.choices.len() == 0 {
            None
        } else {
            Some(self.choices[0].message.content.clone())
        }
    }
}

} // verus!
