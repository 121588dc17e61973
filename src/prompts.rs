use crate::text::{
    brace_free, brace_safe, lemma_brace_free_concat, lemma_brace_safe_concat, lemma_replaced_front,
    lemma_replaced_safe, lemma_replaced_safe_prefix, occurs_at, replace_all, replaced,
};
use crate::Actions;
use vstd::prelude::*;

verus! {

/// The placeholder that stands for the text worked on.
pub open spec fn context_token() -> Seq<char> {
    seq!['{', 'c', 'o', 'n', 't', 'e', 'x', 't', '}']
}

/// The placeholder that stands for the user's own request.
pub open spec fn user_input_token() -> Seq<char> {
    seq!['{', 'u', 's', 'e', 'r', '_', 'i', 'n', 'p', 'u', 't', '}']
}

/// The view of an optional string slice.
pub open spec fn opt_view(u: Option<&str>) -> Option<Seq<char>> {
    match u {
        Some(s) => Some(s@),
        None => None,
    }
}

/// Template `t` with every `{context}` replaced by `c` and then, where user input is
/// given, every `{user_input}` replaced by it; each kind in a single scan.
pub open spec fn render(t: Seq<char>, c: Seq<char>, u: Option<Seq<char>>) -> Seq<char> {
    let with_context = replaced(t, context_token(), c);
    match u {
        Some(v) => replaced(with_context, user_input_token(), v),
        None => with_context,
    }
}

/// Represents a prompt with content that can be formatted.
#[derive(Clone, Debug)]
pub struct Prompt {
    /// The content of the prompt, which may include placeholders like `{context}` and `{user_input}`.
    pub content: String,
}

impl Prompt {
    /// Formats the prompt's content by replacing placeholders with actual values.
    pub fn format(&self, context: &str, user_input: Option<&str>) -> (r: String)
        ensures
            r@ == render(self.content@, context@, opt_view(user_input)),
    {
        proof {
            reveal_strlit("{context}");
            reveal_strlit("{user_input}");
        }
        assert("{context}"@ =~= context_token());
        assert("{user_input}"@ =~= user_input_token());
        let tmp = replace_all(self.content.as_str(), "{context}", context);
        match user_input {
            Some(val) => replace_all(tmp.as_str(), "{user_input}", val),
            None => tmp,
        }
    }
}

/// Represents a collection of different types of prompts.
#[derive(Clone, Debug)]
pub struct Prompts {
    /// The prompt used for explaining content.
    pub explain: Prompt,
    /// The prompt used for summarizing content.
    pub summarize: Prompt,
    /// The prompt used for editing content.
    pub edit: Prompt,
    /// The prompt used for asking questions.
    pub ask: Prompt,
}

impl Prompts {
    /// The template bound to `action`.
    pub open spec fn template(&self, action: Actions) -> Seq<char> {
        match action {
            Actions::Explain => self.explain.content@,
            Actions::Summarize => self.summarize.content@,
            Actions::Edit => self.edit.content@,
            Actions::Ask => self.ask.content@,
        }
    }

    /// The prompt bound to `action`.
    pub fn get(&self, action: &Actions) -> (r: &Prompt)
        ensures
            r.content@ == self.template(*action),
    {
        match action {
            Actions::Explain => &self.explain,
            Actions::Summarize => &self.summarize,
            Actions::Edit => &self.edit,
            Actions::Ask => &self.ask,
        }
    }

    /// The prompt for `action` rendered with `context` and `user_input`.
    pub fn render(&self, action: &Actions, context: &str, user_input: Option<&str>) -> (r: String)
        ensures
            r@ == render(self.template(*action), context@, opt_view(user_input)),
    {
        self.get(action).format(context, user_input)
    }
}

/// What every default template starts with, up to the text.
pub open spec fn default_head() -> Seq<char> {
    "---TEXT---\n"@
}

/// What closes the text in every default template.
pub open spec fn end_of_text() -> Seq<char> {
    "\n---END OF TEXT---\n\n"@
}

pub open spec fn explain_instruction() -> Seq<char> {
    "Please provide a short and precise explanation of the text given above."@
}

pub open spec fn summarize_instruction() -> Seq<char> {
    "Please provide a short and precise summary of the text given above."@
}

pub open spec fn edit_instruction() -> Seq<char> {
    "Please edit the text above to fulfill the following request: "@
}

pub open spec fn ask_instruction() -> Seq<char> {
    "Based on the text above answer the following question: "@
}

pub open spec fn ask_disclaimer() -> Seq<char> {
    "\nOnly answer based on the information given in the Text."@
}

/// What follows `{context}` in the default template of `action`.
pub open spec fn default_tail(action: Actions) -> Seq<char> {
    match action {
        Actions::Explain => end_of_text() + explain_instruction(),
        Actions::Summarize => end_of_text() + summarize_instruction(),
        Actions::Edit => end_of_text() + edit_instruction() + user_input_token(),
        Actions::Ask => end_of_text() + ask_instruction() + user_input_token() + ask_disclaimer(),
    }
}

/// The default template of `action`: the text between two markers, then the instruction.
pub open spec fn default_template(action: Actions) -> Seq<char> {
    default_head() + context_token() + default_tail(action)
}

impl Default for Prompts {
    /// Provides default prompts with predefined content.
    fn default() -> (r: Self)
        ensures
            forall|a: Actions| #[trigger] r.template(a) == default_template(a),
    {
        proof {
            reveal_strlit("{context}");
            reveal_strlit("{user_input}");
        }
        assert("{context}"@ =~= context_token());
        assert("{user_input}"@ =~= user_input_token());
        let head = String::from_str("---TEXT---\n").concat("{context}").concat(
            "\n---END OF TEXT---\n\n",
        );
        let explain = head.clone().concat(
            "Please provide a short and precise explanation of the text given above.",
        );
        let summarize = head.clone().concat(
            "Please provide a short and precise summary of the text given above.",
        );
        let edit = head.clone().concat(
            "Please edit the text above to fulfill the following request: ",
        ).concat("{user_input}");
        let ask = head.concat("Based on the text above answer the following question: ").concat(
            "{user_input}",
        ).concat("\nOnly answer based on the information given in the Text.");
        let r = Prompts {
            explain: Prompt { content: explain },
            summarize: Prompt { content: summarize },
            edit: Prompt { content: edit },
            ask: Prompt { content: ask },
        };
        assert forall|a: Actions| #[trigger] r.template(a) == default_template(a) by {
            match a {
                Actions::Explain => {
                    assert(r.template(a) =~= default_template(a));
                },
                Actions::Summarize => {
                    assert(r.template(a) =~= default_template(a));
                },
                Actions::Edit => {
                    assert(r.template(a) =~= default_template(a));
                },
                Actions::Ask => {
                    assert(r.template(a) =~= default_template(a));
                },
            }
        }
        r
    }
}

proof fn lemma_default_parts()
    ensures
        brace_free(default_head()),
        brace_free(end_of_text()),
        brace_free(explain_instruction()),
        brace_free(summarize_instruction()),
        brace_free(edit_instruction()),
        brace_free(ask_instruction()),
        brace_free(ask_disclaimer()),
        brace_safe(user_input_token(), 'c'),
{
    reveal_strlit("---TEXT---\n");
    reveal_strlit("\n---END OF TEXT---\n\n");
    reveal_strlit("Please provide a short and precise explanation of the text given above.");
    reveal_strlit("Please provide a short and precise summary of the text given above.");
    reveal_strlit("Please edit the text above to fulfill the following request: ");
    reveal_strlit("Based on the text above answer the following question: ");
    reveal_strlit("\nOnly answer based on the information given in the Text.");
}

/// What follows `{context}` in a default template is left alone by the first scan.
proof fn lemma_default_tail_safe(a: Actions)
    ensures
        brace_safe(default_tail(a), 'c'),
        !a.spec_takes_user_input() ==> brace_free(default_tail(a)),
{
    lemma_default_parts();
    let e = end_of_text();
    match a {
        Actions::Explain => {
            lemma_brace_free_concat(e, explain_instruction());
        },
        Actions::Summarize => {
            lemma_brace_free_concat(e, summarize_instruction());
        },
        Actions::Edit => {
            lemma_brace_free_concat(e, edit_instruction());
            lemma_brace_safe_concat(e + edit_instruction(), user_input_token(), 'c');
        },
        Actions::Ask => {
            lemma_brace_free_concat(e, ask_instruction());
            lemma_brace_safe_concat(e + ask_instruction(), user_input_token(), 'c');
            lemma_brace_safe_concat(
                e + ask_instruction() + user_input_token(),
                ask_disclaimer(),
                'c',
            );
        },
    }
}

/// Rendering the default template of any action without user input replaces exactly
/// the one `{context}` by the context and keeps everything else, so that the
/// templates of Edit and Ask still hold a literal `{user_input}`.
pub proof fn lemma_default_render_without_input(a: Actions, c: Seq<char>)
    ensures
        render(default_template(a), c, None) == default_head() + c + default_tail(a),
        a.spec_takes_user_input() ==> exists|i: int|
            occurs_at(render(default_template(a), c, None), user_input_token(), i),
{
    lemma_default_parts();
    lemma_default_tail_safe(a);
    let h = default_head();
    let ctx = context_token();
    let t = default_tail(a);
    assert(default_template(a) =~= h + (ctx + t));
    lemma_replaced_safe_prefix(h, ctx + t, ctx, c);
    lemma_replaced_front(t, ctx, c);
    lemma_replaced_safe(t, ctx, c);
    let r = render(default_template(a), c, None);
    assert(r =~= h + c + t);
    if a.spec_takes_user_input() {
        let ins = if a is Edit {
            edit_instruction()
        } else {
            ask_instruction()
        };
        let i: int = (h.len() + c.len() + end_of_text().len() + ins.len()) as int;
        let u = user_input_token();
        assert(r.subrange(i, i + u.len() as int) =~= u);
        assert(occurs_at(r, u, i));
    }
}

/// Filling a lone `{user_input}` that sits between brace-free parts.
proof fn lemma_fill_user_input(p: Seq<char>, rest: Seq<char>, v: Seq<char>)
    requires
        brace_free(p),
        brace_free(rest),
        brace_free(v),
    ensures
        replaced(p + (user_input_token() + rest), user_input_token(), v) == p + (v + rest),
        brace_free(p + (v + rest)),
{
    let ui = user_input_token();
    lemma_replaced_safe_prefix(p, ui + rest, ui, v);
    lemma_replaced_front(rest, ui, v);
    lemma_replaced_safe(rest, ui, v);
    lemma_brace_free_concat(v, rest);
    lemma_brace_free_concat(p, v + rest);
}

/// The default template of an action that takes user input, rendered with brace-free
/// values, holds no `{`.
proof fn lemma_fill_default(a: Actions, c: Seq<char>, v: Seq<char>)
    requires
        a.spec_takes_user_input(),
        brace_free(c),
        brace_free(v),
    ensures
        brace_free(replaced(default_head() + c + default_tail(a), user_input_token(), v)),
{
    lemma_default_parts();
    let h = default_head();
    let e = end_of_text();
    let ins = if a is Edit {
        edit_instruction()
    } else {
        ask_instruction()
    };
    let rest = if a is Edit {
        Seq::<char>::empty()
    } else {
        ask_disclaimer()
    };
    assert(brace_free(rest));
    let p = h + c + e + ins;
    lemma_brace_free_concat(h, c);
    lemma_brace_free_concat(h + c, e);
    lemma_brace_free_concat(h + c + e, ins);
    assert(h + c + default_tail(a) =~= p + (user_input_token() + rest));
    lemma_fill_user_input(p, rest, v);
}

/// A default template rendered with brace-free values and user input holds no `{`.
proof fn lemma_default_render_with_input_brace_free(a: Actions, c: Seq<char>, v: Seq<char>)
    requires
        brace_free(c),
        brace_free(v),
    ensures
        brace_free(render(default_template(a), c, Some(v))),
{
    lemma_default_render_without_input(a, c);
    let r1 = default_head() + c + default_tail(a);
    if a.spec_takes_user_input() {
        lemma_fill_default(a, c, v);
    } else {
        lemma_default_parts();
        lemma_default_tail_safe(a);
        lemma_brace_free_concat(default_head(), c);
        lemma_brace_free_concat(default_head() + c, default_tail(a));
        lemma_replaced_safe(r1, user_input_token(), v);
    }
}

/// Rendering a default template is idempotent when neither the context nor the user
/// input holds a `{`: rendering the result again with the same values changes nothing.
pub proof fn lemma_default_render_idempotent(a: Actions, c: Seq<char>, u: Option<Seq<char>>)
    requires
        brace_free(c),
        u matches Some(v) ==> brace_free(v),
    ensures
        render(render(default_template(a), c, u), c, u) == render(default_template(a), c, u),
{
    match u {
        None => {
            lemma_default_parts();
            lemma_default_tail_safe(a);
            lemma_default_render_without_input(a, c);
            let r1 = default_head() + c + default_tail(a);
            lemma_brace_free_concat(default_head(), c);
            lemma_brace_safe_concat(default_head() + c, default_tail(a), 'c');
            lemma_replaced_safe(r1, context_token(), c);
        },
        Some(v) => {
            let r = render(default_template(a), c, u);
            lemma_default_render_with_input_brace_free(a, c, v);
            lemma_replaced_safe(r, context_token(), c);
            lemma_replaced_safe(r, user_input_token(), v);
        },
    }
}

} // verus!
