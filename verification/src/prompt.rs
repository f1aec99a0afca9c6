//! Assembly of the conversation sent to the model.
//!
//! A conversation is an ordered sequence of turns: one system turn carrying
//! the directive prompt, a user turn carrying the labelled diff, an optional
//! user turn carrying the caller's hint, and a final user turn stating
//! whether a message body is requested. The order is significant — it puts
//! the diff before the hint and the body directive last, where the model
//! weighs it most — and is pinned exactly by the contracts here.

use vstd::prelude::*;

verus! {

/// The role of a conversation turn.
#[derive(Clone, Copy, PartialEq, Eq, Structural, Debug)]
pub enum Role {
    System,
    User,
}

/// One turn of the conversation.
#[derive(Debug)]
pub struct ChatMessage {
    pub role: Role,
    pub content: String,
}

impl ChatMessage {
    /// The turn as the spec model sees it: its role and its text.
    pub open spec fn view_turn(self) -> (Role, Seq<char>) {
        (self.role, self.content@)
    }
}

/// The turns of `msgs`, as the spec model sees them.
pub open spec fn turns_of(msgs: Seq<ChatMessage>) -> Seq<(Role, Seq<char>)> {
    msgs.map_values(|m: ChatMessage| m.view_turn())
}

/// The text of the user turn that wraps the diff, labelled so the model can
/// tell it from the hint.
pub open spec fn spec_diff_turn_text(diff: Seq<char>) -> Seq<char> {
    "Git diff content: \n"@ + diff + "\n"@
}

/// The text of the user turn that wraps the caller's hint, labelled as
/// guidance that outranks what the diff alone suggests.
pub open spec fn spec_hint_turn_text(hint: Seq<char>) -> Seq<char> {
    "User input hints: "@ + hint + "\n"@
}

/// The text of the final user turn: an unconditional directive that either
/// requests a message body or forbids one.
pub open spec fn spec_body_directive(include_body: bool) -> Seq<char> {
    if include_body {
        "Please include a detailed description in the commit message body."@
    } else {
        "Please generate the commit title only, do not generate commit body."@
    }
}

/// The whole conversation for a system prompt, a diff, an optional hint and
/// the body flag.
pub open spec fn spec_conversation(
    prompt: Seq<char>,
    diff: Seq<char>,
    hint: Option<Seq<char>>,
    include_body: bool,
) -> Seq<(Role, Seq<char>)> {
    let opening = seq![
        (Role::System, prompt),
        (Role::User, spec_diff_turn_text(diff)),
    ];
    let with_hint = match hint {
        Some(h) => opening.push((Role::User, spec_hint_turn_text(h))),
        None => opening,
    };
    with_hint.push((Role::User, spec_body_directive(include_body)))
}

/// Builds the conversation: system turn first, labelled diff second, the
/// labelled hint third when one is given, and the body directive always
/// last.
pub fn assemble_conversation(
    prompt: &str,
    diff: &str,
    hint: Option<String>,
    include_body: bool,
) -> (msgs: Vec<ChatMessage>)
    ensures
        turns_of(msgs@) == spec_conversation(prompt@, diff@, hint.deep_view(), include_body),
{
    let mut msgs: Vec<ChatMessage> = Vec::new();
    msgs.push(ChatMessage { role: Role::System, content: String::from_str(prompt) });
    msgs.push(ChatMessage {
        role: Role::User,
        content: String::from_str("Git diff content: \n").concat(diff).concat("\n"),
    });
    match hint {
        Some(h) => {
            msgs.push(ChatMessage {
                role: Role::User,
                content: String::from_str("User input hints: ").concat(h.as_str()).concat("\n"),
            });
        },
        None => {},
    }
    let directive = if include_body {
        "Please include a detailed description in the commit message body."
    } else {
        "Please generate the commit title only, do not generate commit body."
    };
    msgs.push(ChatMessage { role: Role::User, content: String::from_str(directive) });
    proof {
        assert(turns_of(msgs@) =~= spec_conversation(
            prompt@,
            diff@,
            hint.deep_view(),
            include_body,
        ));
    }
    msgs
}

/// Law: the turn order is invariant. The system turn is first and is the
/// only one, the diff-bearing user turn is second, the hint turn (when a
/// hint is given) is third, and the body directive is always the last turn.
pub proof fn lemma_turn_order(
    prompt: Seq<char>,
    diff: Seq<char>,
    hint: Option<Seq<char>>,
    include_body: bool,
)
    ensures
        ({
            let c = spec_conversation(prompt, diff, hint, include_body);
            &&& c.len() == (if hint is Some { 4int } else { 3int })
            &&& c[0] == (Role::System, prompt)
            &&& c[1] == (Role::User, spec_diff_turn_text(diff))
            &&& (hint matches Some(h) ==> c[2] == (Role::User, spec_hint_turn_text(h)))
            &&& c.last() == (Role::User, spec_body_directive(include_body))
            &&& (forall|i: int| 1 <= i < c.len() ==> (#[trigger] c[i]).0 == Role::User)
        }),
{
}

} // verus!
