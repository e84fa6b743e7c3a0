//! The requests that the host sends, and how a reply's status is judged.
use crate::errors;
use crate::errors::ResearchError;
use crate::text;
use vstd::prelude::*;

verus! {

/// Where Ollama Cloud answers.
pub const API_BASE: &'static str = "https://ollama.com/api";

/// Who a chat message is from.
#[derive(Debug, Clone, Copy, PartialEq, Eq, Structural)]
pub enum Role {
    System,
    User,
    Assistant,
}

impl DeepView for Role {
    type V = Role;

    open spec fn deep_view(&self) -> Role {
        *self
    }
}

/// A message of a chat request; it carries an `images` member only where there
/// are images.
#[derive(Debug)]
pub struct ChatMessage {
    pub role: Role,
    pub content: String,
    pub images: Vec<String>,
}

/// What a [`ChatMessage`] holds.
#[verifier::ext_equal]
pub struct ChatMessageView {
    pub role: Role,
    pub content: Seq<char>,
    pub images: Seq<Seq<char>>,
}

impl DeepView for ChatMessage {
    type V = ChatMessageView;

    open spec fn deep_view(&self) -> ChatMessageView {
        ChatMessageView {
            role: self.role,
            content: self.content@,
            images: self.images.deep_view(),
        }
    }
}

/// The body of a request to `/chat`. A member that is `None` is left out.
#[derive(Debug)]
pub struct ChatRequest {
    pub model: String,
    pub messages: Vec<ChatMessage>,
    pub stream: bool,
    pub think: Option<bool>,
    /// The sampling temperature in tenths.
    pub temperature_tenths: u32,
    pub num_ctx: Option<usize>,
    pub num_predict: Option<usize>,
}

/// What a [`ChatRequest`] holds.
#[verifier::ext_equal]
pub struct ChatRequestView {
    pub model: Seq<char>,
    pub messages: Seq<ChatMessageView>,
    pub stream: bool,
    pub think: Option<bool>,
    pub temperature_tenths: u32,
    pub num_ctx: Option<usize>,
    pub num_predict: Option<usize>,
}

impl DeepView for ChatRequest {
    type V = ChatRequestView;

    open spec fn deep_view(&self) -> ChatRequestView {
        ChatRequestView {
            model: self.model@,
            messages: self.messages.deep_view(),
            stream: self.stream,
            think: self.think,
            temperature_tenths: self.temperature_tenths,
            num_ctx: self.num_ctx,
            num_predict: self.num_predict,
        }
    }
}

/// What a request carries besides its headers. `Nothing` is a GET, the others
/// are a POST with a JSON object.
#[derive(Debug)]
pub enum RequestBody {
    Nothing,
    Show { model: String },
    Search { query: String, max_results: u32 },
    Fetch { url: String },
    Chat(ChatRequest),
}

/// What a [`RequestBody`] holds.
#[verifier::ext_equal]
pub enum RequestBodyView {
    Nothing,
    Show { model: Seq<char> },
    Search { query: Seq<char>, max_results: u32 },
    Fetch { url: Seq<char> },
    Chat(ChatRequestView),
}

impl DeepView for RequestBody {
    type V = RequestBodyView;

    open spec fn deep_view(&self) -> RequestBodyView {
        match self {
            RequestBody::Nothing => RequestBodyView::Nothing,
            RequestBody::Show { model } => RequestBodyView::Show { model: model@ },
            RequestBody::Search { query, max_results } => RequestBodyView::Search {
                query: query@,
                max_results: *max_results,
            },
            RequestBody::Fetch { url } => RequestBodyView::Fetch { url: url@ },
            RequestBody::Chat(chat) => RequestBodyView::Chat(chat.deep_view()),
        }
    }
}

/// A request: where it goes, the API key that it is sent with, and its body.
#[derive(Debug)]
pub struct ApiRequest {
    pub url: String,
    pub bearer: Option<String>,
    pub body: RequestBody,
}

/// What an [`ApiRequest`] holds.
#[verifier::ext_equal]
pub struct ApiRequestView {
    pub url: Seq<char>,
    pub bearer: Option<Seq<char>>,
    pub body: RequestBodyView,
}

impl DeepView for ApiRequest {
    type V = ApiRequestView;

    open spec fn deep_view(&self) -> ApiRequestView {
        ApiRequestView {
            url: self.url@,
            bearer: self.bearer.deep_view(),
            body: self.body.deep_view(),
        }
    }
}

/// A request to Ollama Cloud, which carries the API key.
pub open spec fn cloud_call(
    path: Seq<char>,
    api_key: Seq<char>,
    body: RequestBodyView,
) -> ApiRequestView {
    ApiRequestView { url: API_BASE@ + path, bearer: Some(api_key), body }
}

/// A request to a local Ollama server, which carries no key.
pub open spec fn local_call(
    base: Seq<char>,
    path: Seq<char>,
    body: RequestBodyView,
) -> ApiRequestView {
    ApiRequestView { url: base + path, bearer: None, body }
}

/// Whether an API key travels with the request only if it goes to Ollama Cloud.
pub open spec fn keeps_key_home(request: ApiRequestView) -> bool {
    request.bearer is Some ==> API_BASE@.is_prefix_of(request.url)
}

/// An API key is sent to Ollama Cloud and nowhere else.
pub proof fn api_key_goes_to_ollama_cloud_only(
    path: Seq<char>,
    api_key: Seq<char>,
    base: Seq<char>,
    body: RequestBodyView,
)
    ensures
        keeps_key_home(cloud_call(path, api_key, body)),
        keeps_key_home(local_call(base, path, body)),
        local_call(base, path, body).bearer is None,
{
    assert(API_BASE@ == cloud_call(path, api_key, body).url.subrange(0, API_BASE@.len() as int));
}

/// A request to Ollama Cloud.
pub fn cloud_request(path: &str, api_key: &str, body: RequestBody) -> (r: ApiRequest)
    ensures
        r.deep_view() == cloud_call(path@, api_key@, body.deep_view()),
{
    ApiRequest { url: text::join(API_BASE, path), bearer: Some(api_key.to_owned()), body }
}

/// A request to a local Ollama server.
pub fn local_request(base: &str, path: &str, body: RequestBody) -> (r: ApiRequest)
    ensures
        r.deep_view() == local_call(base@, path@, body.deep_view()),
{
    ApiRequest { url: text::join(base, path), bearer: None, body }
}

/// Asks Ollama Cloud for its models.
pub fn tags_request(api_key: &str) -> (r: ApiRequest)
    ensures
        r.deep_view() == cloud_call("/tags"@, api_key@, RequestBodyView::Nothing),
{
    cloud_request("/tags", api_key, RequestBody::Nothing)
}

/// Asks a local server for its models.
pub fn local_tags_request(base: &str) -> (r: ApiRequest)
    ensures
        r.deep_view() == local_call(base@, "/api/tags"@, RequestBodyView::Nothing),
{
    local_request(base, "/api/tags", RequestBody::Nothing)
}

/// Asks Ollama Cloud what a model can do.
pub fn show_request(api_key: &str, model: &str) -> (r: ApiRequest)
    ensures
        r.deep_view() == cloud_call("/show"@, api_key@, RequestBodyView::Show { model: model@ }),
{
    cloud_request("/show", api_key, RequestBody::Show { model: model.to_owned() })
}

/// Asks a local server what a model can do.
pub fn local_show_request(base: &str, model: &str) -> (r: ApiRequest)
    ensures
        r.deep_view() == local_call(base@, "/api/show"@, RequestBodyView::Show { model: model@ }),
{
    local_request(base, "/api/show", RequestBody::Show { model: model.to_owned() })
}

/// A web search; it asks for ten results at most.
pub open spec fn search_call(
    query: Seq<char>,
    max_results: u32,
    api_key: Seq<char>,
) -> ApiRequestView {
    cloud_call(
        "/web_search"@,
        api_key,
        RequestBodyView::Search {
            query,
            max_results: if max_results <= 10 {
                max_results
            } else {
                10
            },
        },
    )
}

/// Searches the web for `query`; asks for ten results at most.
pub fn web_search_request(query: &str, max_results: u32, api_key: &str) -> (r: ApiRequest)
    ensures
        r.deep_view() == search_call(query@, max_results, api_key@),
{
    let limit: u32 = if max_results <= 10 {
        max_results
    } else {
        10
    };
    cloud_request(
        "/web_search",
        api_key,
        RequestBody::Search { query: query.to_owned(), max_results: limit },
    )
}

/// Fetches a page from the web.
pub fn web_fetch_request(url: &str, api_key: &str) -> (r: ApiRequest)
    ensures
        r.deep_view() == cloud_call("/web_fetch"@, api_key@, RequestBodyView::Fetch { url: url@ }),
{
    cloud_request("/web_fetch", api_key, RequestBody::Fetch { url: url.to_owned() })
}

/// Whether a status says that the request succeeded.
pub fn is_success(status: u16) -> (r: bool)
    ensures
        r == (200 <= status < 300),
{
    200 <= status && status < 300
}

/// What is wrong with a reply, if anything: a status that is no success.
pub open spec fn reply_trouble(
    status: u16,
    body: Seq<char>,
    members: Option<Seq<(Seq<char>, Option<Seq<char>>)>>,
) -> Option<errors::ResearchErrorView> {
    if 200 <= status < 300 {
        None
    } else {
        Some(errors::refusal(status as nat, body, members))
    }
}

/// What is wrong with a reply that shows whether the API key was accepted.
pub open spec fn keyed_reply_trouble(
    status: u16,
    body: Seq<char>,
    members: Option<Seq<(Seq<char>, Option<Seq<char>>)>>,
) -> Option<errors::ResearchErrorView> {
    if status == 401 {
        Some(
            errors::ResearchErrorView::Server(
                "invalid API key; check your key at ollama.com/settings/keys"@,
            ),
        )
    } else {
        reply_trouble(status, body, members)
    }
}

/// What is wrong with a reply, if anything. The body counts only where the
/// status is no success.
pub fn reply_problem(status: u16, body: &str) -> (r: Option<ResearchError>)
    ensures
        r.deep_view() == reply_trouble(status, body@, errors::json_members(body@)),
{
    if is_success(status) {
        None
    } else {
        Some(errors::server_error(status, body))
    }
}

/// What is wrong with a reply that shows whether the API key was accepted, if
/// anything.
pub fn keyed_reply_problem(status: u16, body: &str) -> (r: Option<ResearchError>)
    ensures
        r.deep_view() == keyed_reply_trouble(status, body@, errors::json_members(body@)),
{
    if status == 401 {
        Some(
            ResearchError::Server(
                "invalid API key; check your key at ollama.com/settings/keys".to_owned(),
            ),
        )
    } else {
        reply_problem(status, body)
    }
}

/// A reply is let through exactly where its status says that the request
/// succeeded; a key that was not accepted is told apart from other refusals.
pub proof fn only_successful_replies_pass(
    status: u16,
    body: Seq<char>,
    members: Option<Seq<(Seq<char>, Option<Seq<char>>)>>,
)
    ensures
        reply_trouble(status, body, members) is None <==> 200 <= status < 300,
        keyed_reply_trouble(status, body, members) is None <==> 200 <= status < 300,
        status != 401 ==> keyed_reply_trouble(status, body, members) == reply_trouble(
            status,
            body,
            members,
        ),
        reply_trouble(status, body, members) matches Some(problem) ==> problem is Server,
        keyed_reply_trouble(status, body, members) matches Some(problem) ==> problem is Server,
{
}

/// A request to Ollama Cloud goes to its address with the key; one to a local
/// server goes to that server without any. Both carry what they are given.
pub proof fn requests_go_to_their_side(
    base: Seq<char>,
    path: Seq<char>,
    api_key: Seq<char>,
    body: RequestBodyView,
)
    ensures
        cloud_call(path, api_key, body).url == "https://ollama.com/api"@ + path,
        cloud_call(path, api_key, body).bearer == Some(api_key),
        cloud_call(path, api_key, body).body == body,
        local_call(base, path, body).url == base + path,
        local_call(base, path, body).bearer is None,
        local_call(base, path, body).body == body,
{
}

/// A web search asks Ollama Cloud for the query as it is, and for as many
/// results as wanted, ten at most.
pub proof fn a_search_asks_for_the_query(query: Seq<char>, max_results: u32, api_key: Seq<char>)
    ensures
        search_call(query, max_results, api_key).url == "https://ollama.com/api"@
            + "/web_search"@,
        search_call(query, max_results, api_key).bearer == Some(api_key),
        max_results <= 10 ==> search_call(query, max_results, api_key).body == (
        RequestBodyView::Search { query, max_results }),
        max_results > 10 ==> search_call(query, max_results, api_key).body == (
        RequestBodyView::Search { query, max_results: 10 }),
{
}

/// A reply that is no success is refused with its status and body; only where
/// the key counts, and only for the status 401, is the key named instead.
pub proof fn refused_replies_tell_why(
    status: u16,
    body: Seq<char>,
    members: Option<Seq<(Seq<char>, Option<Seq<char>>)>>,
)
    ensures
        status < 200 || status >= 300 ==> reply_trouble(status, body, members) == Some(
            errors::refusal(status as nat, body, members),
        ),
        (status < 200 || status >= 300) && status != 401 ==> keyed_reply_trouble(
            status,
            body,
            members,
        ) == Some(errors::refusal(status as nat, body, members)),
        keyed_reply_trouble(401, body, members) == Some(
            errors::ResearchErrorView::Server(
                "invalid API key; check your key at ollama.com/settings/keys"@,
            ),
        ),
{
}

/// The views hold what the types here hold, field by field.
pub proof fn views_hold_what_is_there(
    role: Role,
    chat_message: ChatMessage,
    chat_request: ChatRequest,
    request_body: RequestBody,
    api_request: ApiRequest,
)
    ensures
        role.deep_view() == role,
        chat_message.deep_view().role == chat_message.role,
        chat_message.deep_view().content == chat_message.content@,
        chat_message.deep_view().images == chat_message.images.deep_view(),
        chat_request.deep_view().model == chat_request.model@,
        chat_request.deep_view().messages == chat_request.messages.deep_view(),
        chat_request.deep_view().stream == chat_request.stream,
        chat_request.deep_view().think == chat_request.think,
        chat_request.deep_view().temperature_tenths == chat_request.temperature_tenths,
        chat_request.deep_view().num_ctx == chat_request.num_ctx,
        chat_request.deep_view().num_predict == chat_request.num_predict,
        request_body is Nothing ==> request_body.deep_view() is Nothing,
        request_body matches RequestBody::Show { model }
            ==> request_body.deep_view() == (RequestBodyView::Show { model: model@ }),
        request_body matches RequestBody::Search { query, max_results }
            ==> request_body.deep_view()
            == (RequestBodyView::Search { query: query@, max_results: max_results }),
        request_body matches RequestBody::Fetch { url }
            ==> request_body.deep_view() == (RequestBodyView::Fetch { url: url@ }),
        request_body matches RequestBody::Chat(x)
            ==> request_body.deep_view() == RequestBodyView::Chat(x.deep_view()),
        api_request.deep_view().url == api_request.url@,
        api_request.deep_view().bearer == api_request.bearer.deep_view(),
        api_request.deep_view().body == api_request.body.deep_view(),
{
}

} // verus!
