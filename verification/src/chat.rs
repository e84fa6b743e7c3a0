//! The conversations that are sent to a model: the one that asks for an answer
//! and the one that asks for search phrases.
use crate::api;
use crate::api::{ApiRequest, ChatMessage, ChatRequest, RequestBody, Role};
use crate::records::HistoryEntry;
use crate::text;
use vstd::prelude::*;
use vstd::string::StringExecFns;

verus! {

/// What the model is told where the question comes without images.
pub const RESEARCH_SYSTEM: &'static str =
    "You are a research assistant. Answer the user's question using the provided sources. \
     Be precise, cite sources with inline URLs in markdown, and highlight uncertainty. \
     If sources conflict, say so. Keep answers focused and complete.";

/// What the model is told where images come with the question.
pub const VISION_SYSTEM: &'static str =
    "You are a research assistant with vision. Describe and analyse the attached images in the \
     context of the user's question. Reference the earlier conversation when relevant. \
     Keep answers focused and complete.";

/// What the model is told before the question, where it shall find phrases to
/// search for.
pub const PHRASES_PROMPT: &'static str =
    "Generate exactly 3 short web search phrases to research this question. \
     Return one per line, no numbering, no JSON, no quotes.\n\nQuestion: ";

/// The last `n` entries of a conversation, or all of them where there are
/// fewer.
pub open spec fn recent<T>(history: Seq<T>, n: nat) -> Seq<T> {
    if history.len() <= n {
        history
    } else {
        history.skip(history.len() - n)
    }
}

/// A message without images.
pub open spec fn plain_message(role: Role, content: Seq<char>) -> api::ChatMessageView {
    api::ChatMessageView { role, content, images: Seq::empty() }
}

/// An earlier message as the model sees it: the assistant's own, or else the
/// user's.
pub open spec fn past_message(entry: crate::records::HistoryEntryView) -> api::ChatMessageView {
    plain_message(
        if entry.role == "assistant"@ {
            Role::Assistant
        } else {
            Role::User
        },
        entry.content,
    )
}

/// The last `n` earlier messages as the model sees them.
pub open spec fn past_messages(
    history: Seq<crate::records::HistoryEntryView>,
    n: nat,
) -> Seq<api::ChatMessageView> {
    recent(history, n).map_values(|entry: crate::records::HistoryEntryView| past_message(entry))
}

/// The last `n` earlier messages as the model sees them.
fn push_past_messages(messages: &mut Vec<ChatMessage>, history: &[HistoryEntry], n: usize)
    ensures
        final(messages).deep_view() == old(messages).deep_view() + past_messages(
            history.deep_view(),
            n as nat,
        ),
{
    let len: usize = history.len();
    let first: usize = if len <= n {
        0
    } else {
        len - n
    };
    let ghost before = messages.deep_view();
    let ghost past = past_messages(history.deep_view(), n as nat);
    assert(past.len() == len - first);
    assert(messages.deep_view() == before + past.take(0));
    for i in first..len
        invariant
            first <= len == history@.len(),
            past.len() == len - first,
            past == past_messages(history.deep_view(), n as nat),
            first == (if len <= n {
                0int
            } else {
                len - n
            }),
            messages.deep_view() == before + past.take(i - first),
    {
        let entry = &history[i];
        let role = if text::same_text(&entry.role, "assistant") {
            Role::Assistant
        } else {
            Role::User
        };
        let ghost shown = messages.deep_view();
        let message = ChatMessage { role, content: entry.content.clone(), images: Vec::new() };
        messages.push(message);
        proof {
            assert(recent(history.deep_view(), n as nat)[i - first] == history.deep_view()[i as int]);
            assert(message.images.deep_view() == Seq::<Seq<char>>::empty());
            assert(message.deep_view() == past[i - first]);
            assert(messages.deep_view() == shown.push(message.deep_view()));
            assert(past.take(i - first + 1) == past.take(i - first).push(past[i - first]));
        }
    }
    assert(past.take(len - first) == past);
}

/// The question as it is asked: on its own, or followed by the sources.
pub open spec fn question(query: Seq<char>, context: Seq<char>) -> Seq<char> {
    if context.len() == 0 {
        query
    } else {
        "Question: "@ + query + "\n\nSources:\n"@ + context
    }
}

/// The conversation that asks for an answer: the instructions, the last ten
/// messages, then the question with its sources and images.
pub open spec fn answer_messages(
    query: Seq<char>,
    context: Seq<char>,
    history: Seq<crate::records::HistoryEntryView>,
    images: Seq<Seq<char>>,
) -> Seq<api::ChatMessageView> {
    seq![
        plain_message(
            Role::System,
            if images.len() == 0 {
                RESEARCH_SYSTEM@
            } else {
                VISION_SYSTEM@
            },
        ),
    ] + past_messages(history, 10) + seq![
        api::ChatMessageView { role: Role::User, content: question(query, context), images },
    ]
}

/// The conversation that asks for an answer.
pub fn build_answer_messages(
    query: &str,
    context: &str,
    history: &[HistoryEntry],
    images: &Vec<String>,
) -> (r: Vec<ChatMessage>)
    ensures
        r.deep_view() == answer_messages(
            query@,
            context@,
            history.deep_view(),
            images.deep_view(),
        ),
{
    let system = if images.len() == 0 {
        RESEARCH_SYSTEM
    } else {
        VISION_SYSTEM
    };
    let mut messages: Vec<ChatMessage> = Vec::new();
    let instructions = ChatMessage {
        role: Role::System,
        content: system.to_owned(),
        images: Vec::new(),
    };
    messages.push(instructions);
    assert(instructions.images.deep_view() == Seq::<Seq<char>>::empty());
    assert(messages.deep_view() == seq![instructions.deep_view()]);
    push_past_messages(&mut messages, history, 10);
    let content = if context.is_empty() {
        query.to_owned()
    } else {
        let mut asked = text::join("Question: ", query);
        asked.append("\n\nSources:\n");
        asked.append(context);
        asked
    };
    let asked = ChatMessage { role: Role::User, content, images: images.clone() };
    let ghost shown = messages.deep_view();
    messages.push(asked);
    assert(asked.images.deep_view() == images.deep_view());
    assert(messages.deep_view() == shown.push(asked.deep_view()));
    messages
}

/// The body of a streamed chat request, the same for cloud and local servers.
pub open spec fn streamed_chat(
    model: Seq<char>,
    messages: Seq<api::ChatMessageView>,
    thinking: bool,
    num_ctx: usize,
) -> api::ChatRequestView {
    api::ChatRequestView {
        model,
        messages,
        stream: true,
        think: Some(thinking),
        temperature_tenths: 2,
        num_ctx: Some(num_ctx),
        num_predict: None,
    }
}

/// Build a chat request body for Ollama's `/chat`, shared by cloud and local
/// endpoints (`think` is only honoured by thinking-capable models).
pub fn chat_body(model: &str, messages: Vec<ChatMessage>, thinking: bool, num_ctx: usize) -> (r:
    ChatRequest)
    ensures
        r.deep_view() == streamed_chat(model@, messages.deep_view(), thinking, num_ctx),
{
    ChatRequest {
        model: model.to_owned(),
        messages,
        stream: true,
        think: Some(thinking),
        temperature_tenths: 2,
        num_ctx: Some(num_ctx),
        num_predict: None,
    }
}

/// The conversation that asks for search phrases: the last six messages, then
/// the question.
pub open spec fn phrases_messages(
    query: Seq<char>,
    history: Seq<crate::records::HistoryEntryView>,
) -> Seq<api::ChatMessageView> {
    past_messages(history, 6).push(plain_message(Role::User, PHRASES_PROMPT@ + query))
}

/// The body of the request for search phrases.
pub open spec fn phrases_chat(
    model: Seq<char>,
    query: Seq<char>,
    history: Seq<crate::records::HistoryEntryView>,
) -> api::ChatRequestView {
    api::ChatRequestView {
        model,
        messages: phrases_messages(query, history),
        stream: false,
        think: None,
        temperature_tenths: 1,
        num_ctx: None,
        num_predict: Some(128),
    }
}

/// The body of the request for search phrases.
pub fn phrases_body(model: &str, query: &str, history: &[HistoryEntry]) -> (r: ChatRequest)
    ensures
        r.deep_view() == phrases_chat(model@, query@, history.deep_view()),
{
    let mut messages: Vec<ChatMessage> = Vec::new();
    assert(messages.deep_view() == Seq::<api::ChatMessageView>::empty());
    push_past_messages(&mut messages, history, 6);
    let asked = ChatMessage {
        role: Role::User,
        content: text::join(PHRASES_PROMPT, query),
        images: Vec::new(),
    };
    let ghost shown = messages.deep_view();
    messages.push(asked);
    assert(asked.images.deep_view() == Seq::<Seq<char>>::empty());
    assert(messages.deep_view() == shown.push(asked.deep_view()));
    assert(messages.deep_view() == phrases_messages(query@, history.deep_view()));
    ChatRequest {
        model: model.to_owned(),
        messages,
        stream: false,
        think: None,
        temperature_tenths: 1,
        num_ctx: None,
        num_predict: Some(128),
    }
}

/// Asks a cloud model for search phrases.
pub fn cloud_phrases_request(
    api_key: &str,
    model: &str,
    query: &str,
    history: &[HistoryEntry],
) -> (r: ApiRequest)
    ensures
        r.deep_view() == api::cloud_call(
            "/chat"@,
            api_key@,
            api::RequestBodyView::Chat(phrases_chat(model@, query@, history.deep_view())),
        ),
{
    api::cloud_request("/chat", api_key, RequestBody::Chat(phrases_body(model, query, history)))
}

/// Asks a local model for search phrases.
pub fn local_phrases_request(
    base: &str,
    model: &str,
    query: &str,
    history: &[HistoryEntry],
) -> (r: ApiRequest)
    ensures
        r.deep_view() == api::local_call(
            base@,
            "/api/chat"@,
            api::RequestBodyView::Chat(phrases_chat(model@, query@, history.deep_view())),
        ),
{
    api::local_request(base, "/api/chat", RequestBody::Chat(phrases_body(model, query, history)))
}

/// A conversation keeps at most the messages that were asked for, the latest
/// ones, and in their order.
pub proof fn recent_messages_are_a_suffix<T>(history: Seq<T>, n: nat)
    ensures
        recent(history, n).is_suffix_of(history),
        recent(history, n).len() == if history.len() <= n {
            history.len()
        } else {
            n
        },
{
}

/// A model is asked for an answer with the whole recent conversation: the
/// instructions come first, then the last ten messages one by one, each with
/// its content and its side, then the question. This is so whatever the
/// sources and the images are.
pub proof fn an_answer_is_asked_for_within_the_conversation(
    query: Seq<char>,
    context: Seq<char>,
    history: Seq<crate::records::HistoryEntryView>,
    images: Seq<Seq<char>>,
)
    ensures
        ({
            let messages = answer_messages(query, context, history, images);
            let n = if history.len() < 10 {
                history.len() as int
            } else {
                10
            };
            let first = history.len() - n;
            &&& messages.len() == n + 2
            &&& messages[0].role == Role::System && messages[0].images.len() == 0
            &&& images.len() == 0 ==> messages[0].content == RESEARCH_SYSTEM@
            &&& images.len() > 0 ==> messages[0].content == VISION_SYSTEM@
            &&& forall|i: int|
                0 <= i < n ==> {
                    &&& (#[trigger] messages[1 + i]).content == history[first + i].content
                    &&& messages[1 + i].role == Role::Assistant <==> history[first + i].role
                        == "assistant"@
                    &&& messages[1 + i].role == Role::User <==> history[first + i].role
                        != "assistant"@
                    &&& messages[1 + i].images.len() == 0
                }
            &&& messages[n + 1].role == Role::User
            &&& messages[n + 1].images == images
            &&& context.len() == 0 ==> messages[n + 1].content == query
            &&& context.len() > 0 ==> messages[n + 1].content == "Question: "@ + query
                + "\n\nSources:\n"@ + context
        }),
{
    let messages = answer_messages(query, context, history, images);
    let past = past_messages(history, 10);
    let n = past.len() as int;
    assert forall|i: int| 0 <= i < n implies #[trigger] messages[1 + i] == past[i] by {}
    assert(messages[n + 1].role == Role::User);
}

/// A model is asked for search phrases with the last six messages one by one,
/// each with its content and its side, then with the question.
pub proof fn phrases_are_asked_for_within_the_conversation(
    query: Seq<char>,
    history: Seq<crate::records::HistoryEntryView>,
)
    ensures
        ({
            let messages = phrases_messages(query, history);
            let n = if history.len() < 6 {
                history.len() as int
            } else {
                6
            };
            let first = history.len() - n;
            &&& messages.len() == n + 1
            &&& forall|i: int|
                0 <= i < n ==> {
                    &&& (#[trigger] messages[i]).content == history[first + i].content
                    &&& messages[i].role == Role::Assistant <==> history[first + i].role
                        == "assistant"@
                    &&& messages[i].role == Role::User <==> history[first + i].role
                        != "assistant"@
                    &&& messages[i].images.len() == 0
                }
            &&& messages[n].role == Role::User
            &&& messages[n].images.len() == 0
            &&& messages[n].content == PHRASES_PROMPT@ + query
        }),
{
    let messages = phrases_messages(query, history);
    let past = past_messages(history, 6);
    assert forall|i: int| 0 <= i < past.len() implies #[trigger] messages[i] == past[i] by {}
}

/// A request for an answer names the model, carries the messages as they are,
/// asks for a stream, and says whether to think and how much to read.
pub proof fn a_request_for_an_answer_asks_for_a_stream(
    model: Seq<char>,
    messages: Seq<api::ChatMessageView>,
    thinking: bool,
    num_ctx: usize,
)
    ensures
        streamed_chat(model, messages, thinking, num_ctx).model == model,
        streamed_chat(model, messages, thinking, num_ctx).messages == messages,
        streamed_chat(model, messages, thinking, num_ctx).stream,
        streamed_chat(model, messages, thinking, num_ctx).think == Some(thinking),
        streamed_chat(model, messages, thinking, num_ctx).temperature_tenths == 2,
        streamed_chat(model, messages, thinking, num_ctx).num_ctx == Some(num_ctx),
        streamed_chat(model, messages, thinking, num_ctx).num_predict is None,
{
}

/// A request for search phrases names the model, carries the conversation, and
/// asks for a short reply at once.
pub proof fn a_request_for_phrases_asks_for_a_short_reply(
    model: Seq<char>,
    query: Seq<char>,
    history: Seq<crate::records::HistoryEntryView>,
)
    ensures
        phrases_chat(model, query, history).model == model,
        phrases_chat(model, query, history).messages == phrases_messages(query, history),
        !phrases_chat(model, query, history).stream,
        phrases_chat(model, query, history).think is None,
        phrases_chat(model, query, history).temperature_tenths == 1,
        phrases_chat(model, query, history).num_ctx is None,
        phrases_chat(model, query, history).num_predict == Some(128usize),
{
}

/// What the model is told: to answer from the sources, to look at the images,
/// or to find phrases.
pub proof fn what_the_model_is_told()
    ensures
        RESEARCH_SYSTEM@
            == "You are a research assistant. Answer the user's question using the provided sources. Be precise, cite sources with inline URLs in markdown, and highlight uncertainty. If sources conflict, say so. Keep answers focused and complete."@,
        VISION_SYSTEM@
            == "You are a research assistant with vision. Describe and analyse the attached images in the context of the user's question. Reference the earlier conversation when relevant. Keep answers focused and complete."@,
        PHRASES_PROMPT@
            == "Generate exactly 3 short web search phrases to research this question. Return one per line, no numbering, no JSON, no quotes.\n\nQuestion: "@,
{
}

} // verus!
