//! What can go wrong, and how a refused request is answered.
use crate::lists;
use crate::text;
use serde_json::Value;
use vstd::prelude::*;
use vstd::string::StringExecFns;

verus! {

/// Why a request failed.
#[derive(Debug)]
pub enum ResearchError {
    InvalidConfig(String),
    Network(String),
    InvalidResponse(String),
    Server(String),
    Crypto(String),
}

/// What a [`ResearchError`] holds.
#[verifier::ext_equal]
pub enum ResearchErrorView {
    InvalidConfig(Seq<char>),
    Network(Seq<char>),
    InvalidResponse(Seq<char>),
    Server(Seq<char>),
    Crypto(Seq<char>),
}

impl DeepView for ResearchError {
    type V = ResearchErrorView;

    open spec fn deep_view(&self) -> ResearchErrorView {
        match self {
            ResearchError::InvalidConfig(detail) => ResearchErrorView::InvalidConfig(detail@),
            ResearchError::Network(detail) => ResearchErrorView::Network(detail@),
            ResearchError::InvalidResponse(detail) => ResearchErrorView::InvalidResponse(detail@),
            ResearchError::Server(detail) => ResearchErrorView::Server(detail@),
            ResearchError::Crypto(detail) => ResearchErrorView::Crypto(detail@),
        }
    }
}

/// What a result holds, on either side.
pub open spec fn outcome<T: DeepView, E: DeepView>(r: Result<T, E>) -> Result<T::V, E::V> {
    match r {
        Ok(value) => Ok(value.deep_view()),
        Err(error) => Err(error.deep_view()),
    }
}

/// The text that is shown for an error.
pub open spec fn error_message(e: ResearchErrorView) -> Seq<char> {
    match e {
        ResearchErrorView::InvalidConfig(detail) => "Invalid API configuration: "@ + detail,
        ResearchErrorView::Network(detail) => "Could not reach Ollama Cloud: "@ + detail,
        ResearchErrorView::InvalidResponse(detail) =>
            "Ollama Cloud returned an invalid response: "@ + detail,
        ResearchErrorView::Server(detail) => "Ollama Cloud rejected the request: "@ + detail,
        ResearchErrorView::Crypto(detail) => "Could not encrypt settings: "@ + detail,
    }
}

impl ResearchError {
    /// The text that is shown for this error.
    pub fn message(&self) -> (r: String)
        ensures
            r@ == error_message(self.deep_view()),
    {
        match self {
            ResearchError::InvalidConfig(detail) => text::join("Invalid API configuration: ", detail),
            ResearchError::Network(detail) => text::join("Could not reach Ollama Cloud: ", detail),
            ResearchError::InvalidResponse(detail) => text::join(
                "Ollama Cloud returned an invalid response: ",
                detail,
            ),
            ResearchError::Server(detail) => text::join("Ollama Cloud rejected the request: ", detail),
            ResearchError::Crypto(detail) => text::join("Could not encrypt settings: ", detail),
        }
    }
}

/// What `serde_json::from_str` finds in a text that is a JSON object: its
/// members, each with its name and, where the value is a string, that string.
/// `None` for any other text.
pub uninterp spec fn json_members(text: Seq<char>) -> Option<
    Seq<(Seq<char>, Option<Seq<char>>)>,
>;

/// Calls `serde_json::from_str` for a JSON value. The claim is that what comes
/// back depends on the text alone; the members are handed out as `json_members`
/// describes.
#[verifier::external_body]
fn parse_json_members(text: &str) -> (r: Option<Vec<(String, Option<String>)>>)
    ensures
        r.deep_view() == json_members(text@),
{
    let text_of = |value| match value {
        Value::String(text) => Some(text),
        Value::Null | Value::Bool(_) | Value::Number(_) | Value::Array(_) | Value::Object(_) => None,
    };
    match serde_json::from_str(text) {
        Ok(Value::Object(members)) => Some(
            members.into_iter().map(|(name, value)| (name, text_of(value))).collect(),
        ),
        _ => None,
    }
}

/// Whether a member has the given name.
pub open spec fn member_named(name: Seq<char>) -> spec_fn((Seq<char>, Option<Seq<char>>)) -> bool {
    |member: (Seq<char>, Option<Seq<char>>)| member.0 == name
}

/// What a refused request says about itself: the `error` member of a JSON
/// object, or else its `message` member, if that is a string. Anything else is
/// quoted, up to 240 characters.
pub open spec fn error_detail(
    body: Seq<char>,
    members: Option<Seq<(Seq<char>, Option<Seq<char>>)>>,
) -> Seq<char> {
    let found = match members {
        Some(list) => match lists::first_where(list, member_named("error"@)) {
            Some(member) => Some(member),
            None => lists::first_where(list, member_named("message"@)),
        },
        None => None,
    };
    match found {
        Some((_, Some(text))) => text,
        _ => text::clipped(body, 240),
    }
}

/// The error for a reply with a status that is no success.
pub open spec fn refusal(
    status: nat,
    body: Seq<char>,
    members: Option<Seq<(Seq<char>, Option<Seq<char>>)>>,
) -> ResearchErrorView {
    ResearchErrorView::Server(text::decimal(status) + ": "@ + error_detail(body, members))
}

/// The first member with the given name.
fn find_member<'a>(members: &'a Vec<(String, Option<String>)>, name: &str) -> (r: Option<
    &'a (String, Option<String>),
>)
    ensures
        r.deep_view() == lists::first_where(members.deep_view(), member_named(name@)),
{
    for i in 0..members.len()
        invariant
            forall|j: int|
                0 <= j < i ==> !member_named(name@)(#[trigger] members.deep_view()[j]),
    {
        if text::same_text(&members[i].0, name) {
            proof {
                lists::lemma_first_where(members.deep_view(), member_named(name@), i as int);
            }
            return Some(&members[i]);
        }
    }
    proof {
        lists::lemma_first_where(members.deep_view(), member_named(name@), members@.len() as int);
    }
    None
}

/// The error for a reply with the given status and body, where the body has
/// the given JSON members.
pub fn refusal_from_members(
    status: u16,
    body: &str,
    members: Option<Vec<(String, Option<String>)>>,
) -> (r: ResearchError)
    ensures
        r.deep_view() == refusal(status as nat, body@, members.deep_view()),
{
    let mut detail = text::decimal_text(status as usize);
    detail.append(": ");
    if let Some(list) = &members {
        let found = match find_member(list, "error") {
            Some(member) => Some(member),
            None => find_member(list, "message"),
        };
        if let Some(member) = found {
            if let Some(told) = &member.1 {
                detail.append(told);
                return ResearchError::Server(detail);
            }
        }
    }
    detail.append(&text::clip(body, 240));
    ResearchError::Server(detail)
}

/// The error for a reply with the given status and body.
pub fn server_error(status: u16, body: &str) -> (r: ResearchError)
    ensures
        r.deep_view() == refusal(status as nat, body@, json_members(body@)),
{
    refusal_from_members(status, body, parse_json_members(body))
}

/// The error where a local server cannot be reached for an answer.
pub fn local_chat_unreachable(base_url: &str, cause: &str) -> (r: ResearchError)
    ensures
        r.deep_view() == ResearchErrorView::Network(
            "could not reach the local Ollama server at "@ + base_url@ + "; is it running? ("@
                + cause@ + ")"@,
        ),
{
    let mut detail = text::join("could not reach the local Ollama server at ", base_url);
    detail.append("; is it running? (");
    detail.append(cause);
    detail.append(")");
    ResearchError::Network(detail)
}

/// The error where a local server cannot be reached for its models.
pub fn local_server_unreachable(base: &str, cause: &str) -> (r: ResearchError)
    ensures
        r.deep_view() == ResearchErrorView::Network(
            "could not reach "@ + base@ + ": "@ + cause@,
        ),
{
    let mut detail = text::join("could not reach ", base);
    detail.append(": ");
    detail.append(cause);
    ResearchError::Network(detail)
}

/// An error is shown as its kind followed by its detail.
pub proof fn an_error_is_shown_with_its_detail(detail: Seq<char>)
    ensures
        error_message(ResearchErrorView::InvalidConfig(detail)) == "Invalid API configuration: "@
            + detail,
        error_message(ResearchErrorView::Network(detail)) == "Could not reach Ollama Cloud: "@
            + detail,
        error_message(ResearchErrorView::InvalidResponse(detail))
            == "Ollama Cloud returned an invalid response: "@ + detail,
        error_message(ResearchErrorView::Server(detail)) == "Ollama Cloud rejected the request: "@
            + detail,
        error_message(ResearchErrorView::Crypto(detail)) == "Could not encrypt settings: "@
            + detail,
{
}

/// A refusal tells the status, then the string of the first `error` member.
pub proof fn a_refusal_tells_the_error_member(
    status: nat,
    body: Seq<char>,
    members: Seq<(Seq<char>, Option<Seq<char>>)>,
    i: int,
)
    requires
        0 <= i < members.len(),
        members[i].0 == "error"@,
        forall|j: int| 0 <= j < i ==> (#[trigger] members[j]).0 != "error"@,
    ensures
        members[i].1 matches Some(told) ==> refusal(status, body, Some(members))
            == ResearchErrorView::Server(text::decimal(status) + ": "@ + told),
        members[i].1 is None && body.len() <= 240 ==> refusal(status, body, Some(members))
            == ResearchErrorView::Server(text::decimal(status) + ": "@ + body),
        members[i].1 is None && body.len() > 240 ==> refusal(status, body, Some(members))
            == ResearchErrorView::Server(text::decimal(status) + ": "@ + body.take(240)),
{
    lists::lemma_first_where(members, member_named("error"@), i);
}

/// Without an `error` member, a refusal tells the string of the first `message`
/// member.
pub proof fn a_refusal_tells_the_message_member_next(
    status: nat,
    body: Seq<char>,
    members: Seq<(Seq<char>, Option<Seq<char>>)>,
    i: int,
)
    requires
        forall|j: int| 0 <= j < members.len() ==> (#[trigger] members[j]).0 != "error"@,
        0 <= i < members.len(),
        members[i].0 == "message"@,
        forall|j: int| 0 <= j < i ==> (#[trigger] members[j]).0 != "message"@,
    ensures
        members[i].1 matches Some(told) ==> refusal(status, body, Some(members))
            == ResearchErrorView::Server(text::decimal(status) + ": "@ + told),
        members[i].1 is None && body.len() <= 240 ==> refusal(status, body, Some(members))
            == ResearchErrorView::Server(text::decimal(status) + ": "@ + body),
        members[i].1 is None && body.len() > 240 ==> refusal(status, body, Some(members))
            == ResearchErrorView::Server(text::decimal(status) + ": "@ + body.take(240)),
{
    lists::lemma_first_where(members, member_named("error"@), members.len() as int);
    lists::lemma_first_where(members, member_named("message"@), i);
}

/// Any other body is quoted, up to 240 characters.
pub proof fn a_refusal_quotes_any_other_body(
    status: nat,
    body: Seq<char>,
    members: Option<Seq<(Seq<char>, Option<Seq<char>>)>>,
)
    requires
        members matches Some(list) ==> forall|j: int|
            0 <= j < list.len() ==> (#[trigger] list[j]).0 != "error"@ && list[j].0
                != "message"@,
    ensures
        body.len() <= 240 ==> refusal(status, body, members) == ResearchErrorView::Server(
            text::decimal(status) + ": "@ + body,
        ),
        body.len() > 240 ==> refusal(status, body, members) == ResearchErrorView::Server(
            text::decimal(status) + ": "@ + body.take(240),
        ),
{
    if let Some(list) = members {
        lists::lemma_first_where(list, member_named("error"@), list.len() as int);
        lists::lemma_first_where(list, member_named("message"@), list.len() as int);
    }
}

/// The views hold what the types here hold, field by field.
pub proof fn views_hold_what_is_there(
    research_error: ResearchError,
)
    ensures
        research_error matches ResearchError::InvalidConfig(x)
            ==> research_error.deep_view() == ResearchErrorView::InvalidConfig(x@),
        research_error matches ResearchError::Network(x)
            ==> research_error.deep_view() == ResearchErrorView::Network(x@),
        research_error matches ResearchError::InvalidResponse(x)
            ==> research_error.deep_view() == ResearchErrorView::InvalidResponse(x@),
        research_error matches ResearchError::Server(x)
            ==> research_error.deep_view() == ResearchErrorView::Server(x@),
        research_error matches ResearchError::Crypto(x)
            ==> research_error.deep_view() == ResearchErrorView::Crypto(x@),
{
}

/// The outcome of a result is what it holds, on its own side.
pub proof fn an_outcome_is_what_a_result_holds<T: DeepView, E: DeepView>(value: T, error: E)
    ensures
        outcome(Ok::<T, E>(value)) == Ok::<T::V, E::V>(value.deep_view()),
        outcome(Err::<T, E>(error)) == Err::<T::V, E::V>(error.deep_view()),
{
}

} // verus!
