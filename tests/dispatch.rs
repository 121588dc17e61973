use iris::{
    append_line, completions_url, finish, run, AppStates, CompletionError, ConfigLoadError,
    IrisConfig, IrisSettings, OpenAIChoices, OpenAIMessage, OpenAIResponse, Prompts,
};

fn config() -> IrisConfig {
    IrisConfig {
        openai_api_key: "sk-test".to_owned(),
        openai_api_endpoint: "http://localhost:8080/v1".to_owned(),
        prompts: Prompts::default(),
    }
}

fn response(contents: &[&str]) -> OpenAIResponse {
    OpenAIResponse {
        id: "id-1".to_owned(),
        object: "chat.completion".to_owned(),
        created: 1,
        model: "default".to_owned(),
        choices: contents
            .iter()
            .map(|c| OpenAIChoices {
                message: OpenAIMessage { role: "assistant".to_owned(), content: c.to_string() },
            })
            .collect(),
    }
}

#[test]
fn run_builds_one_user_message() {
    let call = run(&iris::Actions::Explain, "The sky is blue.", None, &config());
    assert_eq!(call.url, "http://localhost:8080/v1/chat/completions");
    assert_eq!(call.api_key, "sk-test");
    assert_eq!(call.request.model, "default");
    assert!(!call.request.stream);
    assert_eq!(call.request.messages.len(), 1);
    assert_eq!(call.request.messages[0].role, "user");
    assert_eq!(
        call.request.messages[0].content,
        "---TEXT---\nThe sky is blue.\n---END OF TEXT---\n\nPlease provide a short and precise explanation of the text given above."
    );
}

#[test]
fn run_passes_user_input() {
    let call = run(&iris::Actions::Edit, "abc", Some("Shorter."), &config());
    assert!(call.request.messages[0].content.ends_with("request: Shorter."));
}

#[test]
fn completions_url_appends_path() {
    assert_eq!(completions_url("https://api.openai.com/v1"), "https://api.openai.com/v1/chat/completions");
    assert_eq!(completions_url(""), "/chat/completions");
}

#[test]
fn finish_takes_first_choice() {
    let r = finish(Ok(response(&["first", "second"])));
    assert_eq!(r.unwrap(), "first");
}

#[test]
fn finish_empty_choices_is_decode_error() {
    let r = finish(Ok(response(&[])));
    match r {
        Err(CompletionError::Decode(m)) => assert_eq!(m, "response holds no choices"),
        _ => panic!("expected a decode error"),
    }
}

#[test]
fn finish_keeps_transport_error() {
    let r = finish(Err(CompletionError::Transport("connection refused".to_owned())));
    match r {
        Err(CompletionError::Transport(m)) => assert_eq!(m, "connection refused"),
        _ => panic!("expected a transport error"),
    }
}

#[test]
fn finish_keeps_decode_error() {
    let r = finish(Err(CompletionError::Decode("bad json".to_owned())));
    assert!(matches!(r, Err(CompletionError::Decode(m)) if m == "bad json"));
}

#[test]
fn load_without_variable_names_it() {
    let settings = IrisSettings::default();
    let r = IrisConfig::load(settings, Err("environment variable not found".to_owned()));
    match r {
        Err(e) => {
            assert!(matches!(&e, ConfigLoadError::MissingVariable { name, .. } if name == "OPENAI_API_KEY"));
            assert_eq!(e.message(), "Error retrieving OPENAI_API_KEY: environment variable not found");
        }
        Ok(_) => panic!("a missing key must not load"),
    }
}

#[test]
fn load_with_variable_takes_its_value() {
    let settings = IrisSettings::default();
    let c = IrisConfig::load(settings, Ok("secret".to_owned())).ok().unwrap();
    assert_eq!(c.openai_api_key, "secret");
    assert_eq!(c.openai_api_endpoint, "https://api.openai.com/v1");
}

#[test]
fn unreadable_settings_message() {
    let e = ConfigLoadError::Unreadable("bad toml".to_owned());
    assert_eq!(e.message(), "Unable to load Iris config: bad toml");
}

#[test]
fn session_start_states() {
    assert!(matches!(AppStates::start(None, None), AppStates::Init));
    assert!(matches!(AppStates::start(Some("in".to_owned()), None), AppStates::Error(m) if m == "in"));
    assert!(matches!(
        AppStates::start(Some("in".to_owned()), Some("conf".to_owned())),
        AppStates::Error(m) if m == "conf"
    ));
}

#[test]
fn session_round_trip() {
    let s = AppStates::Init.submit();
    assert!(matches!(s, AppStates::Wait));
    let done = s.complete(Ok("reply".to_owned()));
    assert!(matches!(done, AppStates::Response(ref m) if m == "reply"));
    assert!(matches!(done.submit(), AppStates::Response(_)));
    let failed = AppStates::Wait.complete(Err(CompletionError::Transport("x".to_owned())));
    assert!(matches!(failed, AppStates::Error(m) if m == "Failed to generate response!"));
    assert!(matches!(AppStates::Init.complete(Ok("late".to_owned())), AppStates::Init));
}

#[test]
fn append_line_adds_break_before() {
    let mut ctx = String::new();
    append_line(&mut ctx, "one");
    append_line(&mut ctx, "two");
    assert_eq!(ctx, "\none\ntwo");
}
