use crate::conversation::{ConversationStore, Role, Turn, TurnView, history_in, turns_view};
use vstd::prelude::*;

verus! {

/// The completion model that every request names.
pub const MODEL: &'static str = "gpt-4o";

/// The text that `serde_json::to_string` makes of the string `s`: a JSON
/// string literal, quotes and escapes included.
pub uninterp spec fn json_string_text(s: Seq<char>) -> Seq<char>;

/// Relies on `serde_json::to_string` applied to a `str`: it writes the JSON
/// string literal of `s` into a `Vec<u8>`, a writer that never fails, so the
/// result is always `Ok`.
#[verifier::external_body]
fn json_string(s: &str) -> (r: String)
    ensures
        r@ == json_string_text(s@),
{
    serde_json::to_string(s).unwrap_or_default()
}

/// The wire name of a role.
pub open spec fn role_text(role: Role) -> Seq<char> {
    match role {
        Role::User => "user"@,
        Role::Assistant => "assistant"@,
    }
}

/// The JSON object of one turn, as serde_json writes a struct with the fields
/// `role` and `content`.
pub open spec fn message_json(t: TurnView) -> Seq<char> {
    "{\"role\":"@ + json_string_text(role_text(t.0)) + ",\"content\":"@ + json_string_text(t.1) + "}"@
}

/// The turns of `h` as JSON objects, separated by commas.
pub open spec fn messages_json(h: Seq<TurnView>) -> Seq<char>
    decreases h.len(),
{
    if h.len() == 0 {
        Seq::empty()
    } else if h.len() == 1 {
        message_json(h[0])
    } else {
        messages_json(h.drop_last()) + ","@ + message_json(h.last())
    }
}

/// The request body that asks `model` to continue the conversation `h`.
pub open spec fn request_json(model: Seq<char>, h: Seq<TurnView>) -> Seq<char> {
    "{\"model\":"@ + json_string_text(model) + ",\"messages\":["@ + messages_json(h) + "]}"@
}

fn role_name(role: Role) -> (r: &'static str)
    ensures
        r@ == role_text(role),
{
    match role {
        Role::User => "user",
        Role::Assistant => "assistant",
    }
}

/// Appends the JSON object of `t` to `out`.
fn push_message(out: &mut String, t: &Turn)
    ensures
        final(out)@ == old(out)@ + message_json(t@),
{
    out.append("{\"role\":");
    let role = json_string(role_name(t.role));
    out.append(role.as_str());
    out.append(",\"content\":");
    let content = json_string(t.content.as_str());
    out.append(content.as_str());
    out.append("}");
}

/// The request body for `model` over the whole history `h`.
pub fn request_body(model: &str, h: &Vec<Turn>) -> (r: String)
    ensures
        r@ == request_json(model@, turns_view(h@)),
{
    let mut out = String::from_str("{\"model\":");
    let m = json_string(model);
    out.append(m.as_str());
    out.append(",\"messages\":[");
    let ghost start = out@;
    let mut i: usize = 0;
    while i < h.len()
        invariant
            i <= h@.len(),
            out@ == start + messages_json(turns_view(h@).subrange(0, i as int)),
        decreases h@.len() - i,
    {
        let ghost tv = turns_view(h@);
        let ghost prefix = tv.subrange(0, i as int);
        let ghost next = tv.subrange(0, i + 1);
        assert(next.drop_last() =~= prefix);
        if i > 0 {
            out.append(",");
        }
        push_message(&mut out, &h[i]);
        assert(out@ =~= start + messages_json(next));
        i = i + 1;
    }
    assert(turns_view(h@).subrange(0, h@.len() as int) =~= turns_view(h@));
    out.append("]}");
    out
}

impl ConversationStore {
    /// The completion request body for `model` over the current history of
    /// `channel`.
    pub fn request_body(&self, channel: u64, model: &str) -> (r: String)
        ensures
            r@ == request_json(model@, history_in(self@, channel)),
    {
        match self.history(channel) {
            Some(h) => request_body(model, h),
            None => {
                let empty: Vec<Turn> = Vec::new();
                assert(turns_view(empty@) =~= Seq::<TurnView>::empty());
                request_body(model, &empty)
            },
        }
    }
}

/// Why a completion produced no reply.
#[derive(Clone, Copy, Debug, PartialEq, Eq, Structural)]
pub enum CompletionError {
    Transport,
    BadStatus,
    BadBody,
    EmptyChoices,
}

/// The reply of a completion response with HTTP status `status`, whose body
/// was read as the message contents of its choices (`None` where the body
/// did not have the expected shape).
pub fn completion_reply(status: u16, choices: Option<Vec<String>>) -> (r: Result<
    String,
    CompletionError,
>)
    ensures
        status != 200 ==> r == Err::<String, CompletionError>(CompletionError::BadStatus),
        status == 200 ==> match choices {
            None => r == Err::<String, CompletionError>(CompletionError::BadBody),
            Some(c) => if c@.len() == 0 {
                r == Err::<String, CompletionError>(CompletionError::EmptyChoices)
            } else {
                r == Ok::<String, CompletionError>(c@[0])
            },
        },
{
    if status != 200 {
        return Err(CompletionError::BadStatus);
    }
    match choices {
        None => Err(CompletionError::BadBody),
        Some(mut c) => {
            if c.len() == 0 {
                Err(CompletionError::EmptyChoices)
            } else {
                Ok(c.swap_remove(0))
            }
        },
    }
}

} // verus!
