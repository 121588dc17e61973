use crate::CompletionError;
use vstd::prelude::*;

verus! {

/// The states of an interactive session: choosing an action, waiting for the reply,
/// showing it, or showing why there is none.
#[derive(Clone, Debug)]
pub enum AppStates {
    Init,
    Wait,
    Error(String),
    Response(String),
}

/// The text shown when a request brought no reply.
pub open spec fn failed_message() -> Seq<char> {
    "Failed to generate response!"@
}

impl AppStates {
    /// The state a session starts in: choosing an action, unless reading the input or
    /// loading the configuration failed; the configuration's error is the one shown
    /// when both did.
    pub fn start(input_error: Option<String>, config_error: Option<String>) -> (r: AppStates)
        ensures
            r == match (config_error, input_error) {
                (Some(e), _) => AppStates::Error(e),
                (None, Some(e)) => AppStates::Error(e),
                (None, None) => AppStates::Init,
            },
    {
        match config_error {
            Some(e) => AppStates::Error(e),
            None => match input_error {
                Some(e) => AppStates::Error(e),
                None => AppStates::Init,
            },
        }
    }

    /// The state after the user submits: a session that was choosing an action now
    /// waits for its reply; any other state stays.
    pub fn submit(self) -> (r: AppStates)
        ensures
            self is Init ==> r is Wait,
            !(self is Init) ==> r == self,
    {
        match self {
            AppStates::Init => AppStates::Wait,
            other => other,
        }
    }

    /// The state after the reply to a waiting request came in: the reply is shown, or a
    /// failure is; a session that was not waiting stays as it was.
    pub fn complete(self, outcome: Result<String, CompletionError>) -> (r: AppStates)
        ensures
            self is Wait && outcome is Ok ==> r == AppStates::Response(outcome->Ok_0),
            self is Wait && outcome is Err ==> (r matches AppStates::Error(m) && m@
                == failed_message()),
            !(self is Wait) ==> r == self,
    {
        match self {
            AppStates::Wait => match outcome {
                Ok(text) => AppStates::Response(text),
                Err(_) => AppStates::Error(String::from_str("Failed to generate response!")),
            },
            other => other,
        }
    }
}

/// Adds one line read from the input to the context, after a line break.
pub fn append_line(context: &mut String, line: &str)
    ensures
        final(context)@ == old(context)@ + "\n"@ + line@,
{
    context.append("\n");
    context.append(line);
}

} // verus!
