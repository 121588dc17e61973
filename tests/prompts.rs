use iris::text::replace_all;
use iris::{Actions, Prompt, Prompts};

fn explain_text(context: &str) -> String {
    format!(
        "---TEXT---\n{}\n---END OF TEXT---\n\nPlease provide a short and precise explanation of the text given above.",
        context
    )
}

#[test]
fn explain_default_render() {
    let prompts = Prompts::default();
    let r = prompts.render(&Actions::Explain, "The sky is blue.", None);
    assert_eq!(
        r,
        "---TEXT---\nThe sky is blue.\n---END OF TEXT---\n\nPlease provide a short and precise explanation of the text given above."
    );
}

#[test]
fn ask_default_render_holds_context_and_question() {
    let prompts = Prompts::default();
    let r = prompts.render(
        &Actions::Ask,
        "Paris is the capital of France.",
        Some("What is the capital of France?"),
    );
    assert!(r.contains("Paris is the capital of France."));
    assert!(r.contains("What is the capital of France?"));
    assert!(r.ends_with("Only answer based on the information given in the Text."));
    assert!(!r.contains("{user_input}"));
    assert!(!r.contains("{context}"));
}

#[test]
fn default_render_without_input_replaces_only_context() {
    let prompts = Prompts::default();
    for action in Actions::all() {
        let template = prompts.get(&action).content.clone();
        assert_eq!(template.matches("{context}").count(), 1);
        let r = prompts.render(&action, "some text", None);
        assert_eq!(r, template.replacen("{context}", "some text", 1));
        assert_eq!(r.contains("{user_input}"), action.takes_user_input());
    }
}

#[test]
fn summarize_and_edit_default_render() {
    let prompts = Prompts::default();
    assert_eq!(
        prompts.render(&Actions::Summarize, "abc", Some("ignored")),
        "---TEXT---\nabc\n---END OF TEXT---\n\nPlease provide a short and precise summary of the text given above."
    );
    assert_eq!(
        prompts.render(&Actions::Edit, "abc", Some("Make it shorter.")),
        "---TEXT---\nabc\n---END OF TEXT---\n\nPlease edit the text above to fulfill the following request: Make it shorter."
    );
}

#[test]
fn render_twice_is_the_same() {
    let prompts = Prompts::default();
    for action in Actions::all() {
        let a = prompts.render(&action, "ctx", Some("question"));
        let b = prompts.render(&action, "ctx", Some("question"));
        assert_eq!(a, b);
        let again = Prompt { content: a.clone() }.format("ctx", Some("question"));
        assert_eq!(again, a);
        let plain = prompts.render(&action, "ctx", None);
        let plain_again = Prompt { content: plain.clone() }.format("ctx", None);
        assert_eq!(plain_again, plain);
    }
}

#[test]
fn empty_context_renders() {
    let prompts = Prompts::default();
    assert_eq!(prompts.render(&Actions::Explain, "", None), explain_text(""));
}

#[test]
fn format_replaces_every_occurrence() {
    let p = Prompt { content: "{context}-{context}|{user_input}{user_input}".to_owned() };
    assert_eq!(p.format("a", Some("b")), "a-a|bb");
    assert_eq!(p.format("a", None), "a-a|{user_input}{user_input}");
}

#[test]
fn format_does_not_expand_context_twice() {
    let p = Prompt { content: "[{context}]".to_owned() };
    assert_eq!(p.format("{context}", None), "[{context}]");
}

#[test]
fn format_fills_user_input_after_context() {
    let p = Prompt { content: "{context}".to_owned() };
    assert_eq!(p.format("{user_input}", Some("x")), "x");
}

#[test]
fn format_unicode_context() {
    let p = Prompt { content: "« {context} »".to_owned() };
    assert_eq!(p.format("héllo wörld ✓", None), "« héllo wörld ✓ »");
}

#[test]
fn replace_all_is_left_to_right_without_overlap() {
    assert_eq!(replace_all("aaa", "aa", "b"), "ba");
    assert_eq!(replace_all("", "x", "y"), "");
    assert_eq!(replace_all("xyz", "q", "r"), "xyz");
    assert_eq!(replace_all("abab", "ab", ""), "");
    assert_eq!(replace_all("abc", "abc", "abcabc"), "abcabc");
}

#[test]
fn actions_in_order_with_labels() {
    let all = Actions::all();
    assert_eq!(all, vec![Actions::Explain, Actions::Summarize, Actions::Edit, Actions::Ask]);
    let labels: Vec<&str> = all.iter().map(|a| a.label()).collect();
    assert_eq!(labels, vec!["Explain", "Summarize", "Edit", "Ask"]);
}

#[test]
fn input_hints() {
    assert_eq!(Actions::Explain.input_hint(), None);
    assert_eq!(Actions::Summarize.input_hint(), None);
    assert_eq!(Actions::Edit.input_hint(), Some("Rewrite in a professional tone."));
    assert_eq!(
        Actions::Ask.input_hint(),
        Some("What is the distance between the earth and the moon?")
    );
    assert!(!Actions::Explain.takes_user_input());
    assert!(Actions::Ask.takes_user_input());
}
