//! A research turn: from the question to the answer, one step at a time. The
//! host performs each action and reports what came of it.
use crate::api;
use crate::api::{ApiRequest, RequestBody};
use crate::chat;
use crate::errors;
use crate::errors::ResearchError;
use crate::images;
use crate::lists;
use crate::models;
use crate::records;
use crate::records::{
    AppSettings, CloudModel, Endpoint, HistoryEntry, ModelInfo, ResearchResponse, SearchSource,
    StreamEvent,
};
use crate::routing;
use crate::routing::ResearchClient;
use crate::servers;
use crate::sources;
use crate::stream;
use crate::stream::StreamChunk;
use crate::text;
use vstd::prelude::*;

verus! {

/// Whether a mode is one of the three.
pub open spec fn is_mode(mode: Seq<char>) -> bool {
    mode == "speed"@ || mode == "balanced"@ || mode == "quality"@
}

/// What is wrong with a question, if anything: it must not be blank, and the
/// mode must be known.
pub open spec fn research_problem(query: Seq<char>, mode: Seq<char>) -> Result<
    (),
    errors::ResearchErrorView,
> {
    if text::trimmed(query).len() == 0 {
        Err(errors::ResearchErrorView::InvalidConfig("the query cannot be empty"@))
    } else if !is_mode(mode) {
        Err(errors::ResearchErrorView::InvalidConfig("unknown research mode"@))
    } else {
        Ok(())
    }
}

/// Checks a question before anything is sent.
pub fn validate_research(query: &str, mode: &str) -> (r: Result<(), ResearchError>)
    ensures
        errors::outcome(r) == research_problem(query@, mode@),
{
    if text::is_blank(query) {
        return Err(ResearchError::InvalidConfig("the query cannot be empty".to_owned()));
    }
    if !(text::same_text(mode, "speed") || text::same_text(mode, "balanced") || text::same_text(
        mode,
        "quality",
    )) {
        return Err(ResearchError::InvalidConfig("unknown research mode".to_owned()));
    }
    Ok(())
}

/// How far a turn has come.
#[derive(Debug, Clone, Copy, PartialEq, Eq, Structural)]
pub enum Stage {
    /// Nothing has been sent.
    Ready,
    /// The model was asked for search phrases.
    Planning,
    /// The web is being searched.
    Searching,
    /// The model is answering.
    Writing,
    /// The answer is complete.
    Finished,
}

impl DeepView for Stage {
    type V = Stage;

    open spec fn deep_view(&self) -> Stage {
        *self
    }
}

/// A research turn.
#[derive(Debug)]
pub struct Turn {
    pub stage: Stage,
    /// Which side answers.
    pub endpoint: Endpoint,
    /// Where the local server answers; used by local turns only.
    pub base_url: String,
    /// The key for Ollama Cloud; used by cloud turns and by web searches.
    pub api_key: String,
    /// The name of the model that answers.
    pub model: String,
    pub query: String,
    pub mode: String,
    pub history: Vec<HistoryEntry>,
    pub images: Vec<String>,
    /// Whether the model can show its reasoning.
    pub thinking: bool,
    /// What the web search found, once it has been done.
    pub sources: Option<Vec<SearchSource>>,
    /// The response as far as it is known.
    pub response: ResearchResponse,
}

/// What a [`Turn`] holds.
#[verifier::ext_equal]
pub struct TurnView {
    pub stage: Stage,
    pub endpoint: Endpoint,
    pub base_url: Seq<char>,
    pub api_key: Seq<char>,
    pub model: Seq<char>,
    pub query: Seq<char>,
    pub mode: Seq<char>,
    pub history: Seq<records::HistoryEntryView>,
    pub images: Seq<Seq<char>>,
    pub thinking: bool,
    pub sources: Option<Seq<records::SearchSourceView>>,
    pub response: records::ResearchResponseView,
}

impl DeepView for Turn {
    type V = TurnView;

    open spec fn deep_view(&self) -> TurnView {
        TurnView {
            stage: self.stage,
            endpoint: self.endpoint,
            base_url: self.base_url@,
            api_key: self.api_key@,
            model: self.model@,
            query: self.query@,
            mode: self.mode@,
            history: self.history.deep_view(),
            images: self.images.deep_view(),
            thinking: self.thinking,
            sources: self.sources.deep_view(),
            response: self.response.deep_view(),
        }
    }
}

/// What the host reports.
#[derive(Debug)]
pub enum Event {
    /// The turn may begin.
    Start,
    /// What the model answered when it was asked for phrases, if it did.
    Phrases(Option<String>),
    /// What each search found, in the order of the requests; `None` for one
    /// that failed.
    Found(Vec<Option<Vec<SearchSource>>>),
    /// A chunk of the streamed answer.
    Chunk(StreamChunk),
    /// The end of the streamed answer.
    End,
}

/// What an [`Event`] holds.
#[verifier::ext_equal]
pub enum EventView {
    Start,
    Phrases(Option<Seq<char>>),
    Found(Seq<Option<Seq<records::SearchSourceView>>>),
    Chunk(stream::StreamChunkView),
    End,
}

impl DeepView for Event {
    type V = EventView;

    open spec fn deep_view(&self) -> EventView {
        match self {
            Event::Start => EventView::Start,
            Event::Phrases(reply) => EventView::Phrases(reply.deep_view()),
            Event::Found(searches) => EventView::Found(searches.deep_view()),
            Event::Chunk(chunk) => EventView::Chunk(chunk.deep_view()),
            Event::End => EventView::End,
        }
    }
}

/// What the host has to do.
#[derive(Debug)]
pub enum Action {
    /// Ask a model for search phrases.
    Ask(ApiRequest),
    /// Search the web, all at once or one request after the other.
    Search { requests: Vec<ApiRequest>, concurrent: bool },
    /// Ask a model for the answer and report it chunk by chunk.
    Stream(ApiRequest),
    /// Hand out the response.
    Finish(ResearchResponse),
}

/// What an [`Action`] holds.
#[verifier::ext_equal]
pub enum ActionView {
    Ask(api::ApiRequestView),
    Search { requests: Seq<api::ApiRequestView>, concurrent: bool },
    Stream(api::ApiRequestView),
    Finish(records::ResearchResponseView),
}

impl DeepView for Action {
    type V = ActionView;

    open spec fn deep_view(&self) -> ActionView {
        match self {
            Action::Ask(request) => ActionView::Ask(request.deep_view()),
            Action::Search { requests, concurrent } => ActionView::Search {
                requests: requests.deep_view(),
                concurrent: *concurrent,
            },
            Action::Stream(request) => ActionView::Stream(request.deep_view()),
            Action::Finish(response) => ActionView::Finish(response.deep_view()),
        }
    }
}

/// What follows a report: the progress to make known, and then what to do, if
/// there is anything to do.
#[derive(Debug)]
pub struct Progress {
    pub events: Vec<StreamEvent>,
    pub action: Option<Action>,
}

/// What a [`Progress`] holds.
#[verifier::ext_equal]
pub struct ProgressView {
    pub events: Seq<records::StreamEventView>,
    pub action: Option<ActionView>,
}

impl DeepView for Progress {
    type V = ProgressView;

    open spec fn deep_view(&self) -> ProgressView {
        ProgressView { events: self.events.deep_view(), action: self.action.deep_view() }
    }
}

/// Whether the web is searched before the answer: not where images come with
/// the question, and not without a key for it.
pub open spec fn searches_web(turn: TurnView) -> bool {
    turn.images.len() == 0 && (turn.endpoint == Endpoint::Cloud || turn.api_key.len() > 0)
}

/// The progress that names a stage.
pub open spec fn phase(name: Seq<char>) -> Seq<records::StreamEventView> {
    seq![records::StreamEventView::Phase { phase: name }]
}

/// Asks for search phrases.
pub open spec fn phrases_request(turn: TurnView) -> api::ApiRequestView {
    let body = api::RequestBodyView::Chat(
        chat::phrases_chat(turn.model, turn.query, turn.history),
    );
    match turn.endpoint {
        Endpoint::Cloud => api::cloud_call("/chat"@, turn.api_key, body),
        Endpoint::Local => api::local_call(turn.base_url, "/api/chat"@, body),
    }
}

/// The terms that are searched for: the first three.
pub open spec fn selected(terms: Seq<Seq<char>>) -> Seq<Seq<char>> {
    if terms.len() <= 3 {
        terms
    } else {
        terms.take(3)
    }
}

/// How many results each search asks for.
pub open spec fn results_per_search(mode: Seq<char>) -> u32 {
    if mode == "speed"@ {
        5
    } else {
        6
    }
}

/// The searches for the given terms.
pub open spec fn search_requests(turn: TurnView, terms: Seq<Seq<char>>) -> Seq<
    api::ApiRequestView,
> {
    terms.map_values(
        |term: Seq<char>| api::search_call(term, results_per_search(turn.mode), turn.api_key),
    )
}

/// The sources as the model sees them. A local model gets as much of them as
/// the balanced mode allows.
pub open spec fn turn_context(turn: TurnView) -> Seq<char> {
    match turn.sources {
        Some(found) => sources::context_text(
            found,
            match turn.endpoint {
                Endpoint::Cloud => turn.mode,
                Endpoint::Local => "balanced"@,
            },
        ),
        None => seq![],
    }
}

/// Asks for the answer.
pub open spec fn answer_request(turn: TurnView) -> api::ApiRequestView {
    let messages = chat::answer_messages(
        turn.query,
        turn_context(turn),
        turn.history,
        turn.images,
    );
    match turn.endpoint {
        Endpoint::Cloud => api::cloud_call(
            "/chat"@,
            turn.api_key,
            api::RequestBodyView::Chat(
                chat::streamed_chat(turn.model, messages, turn.thinking, 32_768),
            ),
        ),
        Endpoint::Local => api::local_call(
            turn.base_url,
            "/api/chat"@,
            api::RequestBodyView::Chat(
                chat::streamed_chat(turn.model, messages, turn.thinking, 8_192),
            ),
        ),
    }
}

/// Where nothing changes and nothing is to be done.
pub open spec fn unmoved(turn: TurnView) -> (TurnView, ProgressView) {
    (turn, ProgressView { events: seq![], action: None })
}

/// The step to the answer.
pub open spec fn to_writing(turn: TurnView) -> (TurnView, ProgressView) {
    (
        TurnView { stage: Stage::Writing, ..turn },
        ProgressView {
            events: phase("writing"@),
            action: Some(ActionView::Stream(answer_request(turn))),
        },
    )
}

/// The turn with the sources that were found. The response names them from now
/// on.
pub open spec fn with_sources(
    turn: TurnView,
    found: Seq<records::SearchSourceView>,
) -> TurnView {
    TurnView {
        sources: Some(found),
        response: records::ResearchResponseView { sources: found, ..turn.response },
        ..turn
    }
}

/// The response as it is handed out: the answer without white space around it.
pub open spec fn final_response(turn: TurnView) -> records::ResearchResponseView {
    records::ResearchResponseView {
        message: text::trimmed(turn.response.message),
        ..turn.response
    }
}

/// The turn after a report, and what follows from it. A report that does not
/// fit the stage changes nothing.
pub open spec fn next(turn: TurnView, event: EventView) -> (TurnView, ProgressView) {
    match (turn.stage, event) {
        (Stage::Ready, EventView::Start) => if searches_web(turn) {
            (
                TurnView { stage: Stage::Planning, ..turn },
                ProgressView {
                    events: phase("planning"@),
                    action: Some(ActionView::Ask(phrases_request(turn))),
                },
            )
        } else {
            to_writing(turn)
        },
        (Stage::Planning, EventView::Phrases(reply)) => (
            TurnView { stage: Stage::Searching, ..turn },
            ProgressView {
                events: phase("searching"@),
                action: Some(
                    ActionView::Search {
                        requests: search_requests(
                            turn,
                            selected(sources::search_terms(reply, turn.query)),
                        ),
                        concurrent: turn.mode != "speed"@,
                    },
                ),
            },
        ),
        (Stage::Searching, EventView::Found(searches)) => to_writing(
            with_sources(turn, sources::gathered(searches)),
        ),
        (Stage::Writing, EventView::Chunk(chunk)) => (
            TurnView { response: stream::extended(turn.response, chunk), ..turn },
            ProgressView { events: stream::chunk_events(turn.response, chunk), action: None },
        ),
        (Stage::Writing, EventView::End) => (
            TurnView { stage: Stage::Finished, response: final_response(turn), ..turn },
            ProgressView {
                events: seq![records::StreamEventView::Done(final_response(turn))],
                action: Some(ActionView::Finish(final_response(turn))),
            },
        ),
        _ => unmoved(turn),
    }
}

/// A list of one event.
fn one_event(event: StreamEvent) -> (r: Vec<StreamEvent>)
    ensures
        r.deep_view() == seq![event.deep_view()],
{
    let mut r: Vec<StreamEvent> = Vec::new();
    r.push(event);
    assert(r.deep_view() == seq![event.deep_view()]);
    r
}

/// The progress that names a stage.
fn phase_event(name: &str) -> (r: Vec<StreamEvent>)
    ensures
        r.deep_view() == phase(name@),
{
    one_event(StreamEvent::Phase { phase: name.to_owned() })
}

impl Turn {
    /// The turn goes on to the answer.
    fn start_writing(&mut self) -> (r: Progress)
        ensures
            (final(self).deep_view(), r.deep_view()) == to_writing(old(self).deep_view()),
    {
        let context = match &self.sources {
            Some(found) => match self.endpoint {
                Endpoint::Cloud => sources::build_context(found, &self.mode),
                Endpoint::Local => sources::build_context(found, "balanced"),
            },
            None => String::new(),
        };
        assert(context@ == turn_context(self.deep_view()));
        let messages = chat::build_answer_messages(
            &self.query,
            &context,
            &self.history,
            &self.images,
        );
        let request = match self.endpoint {
            Endpoint::Cloud => api::cloud_request(
                "/chat",
                &self.api_key,
                RequestBody::Chat(chat::chat_body(&self.model, messages, self.thinking, 32_768)),
            ),
            Endpoint::Local => api::local_request(
                &self.base_url,
                "/api/chat",
                RequestBody::Chat(chat::chat_body(&self.model, messages, self.thinking, 8_192)),
            ),
        };
        self.stage = Stage::Writing;
        Progress { events: phase_event("writing"), action: Some(Action::Stream(request)) }
    }

    /// The searches for the first three terms.
    fn plan_searches(&self, terms: &Vec<String>) -> (r: Vec<ApiRequest>)
        ensures
            r.deep_view() == search_requests(self.deep_view(), selected(terms.deep_view())),
    {
        let count: usize = if terms.len() <= 3 {
            terms.len()
        } else {
            3
        };
        let max_results: u32 = if text::same_text(&self.mode, "speed") {
            5
        } else {
            6
        };
        let mut r: Vec<ApiRequest> = Vec::new();
        for i in 0..count
            invariant
                count <= terms@.len(),
                max_results == results_per_search(self.mode@),
                r@.len() == i,
                forall|j: int|
                    0 <= j < i ==> (#[trigger] r@[j]).deep_view() == api::search_call(
                        terms@[j]@,
                        max_results,
                        self.api_key@,
                    ),
        {
            r.push(api::web_search_request(&terms[i], max_results, &self.api_key));
        }
        assert(r.deep_view() =~= search_requests(self.deep_view(), selected(terms.deep_view())));
        r
    }

    /// Takes in a report and says what follows from it.
    pub fn step(&mut self, event: Event) -> (r: Progress)
        ensures
            (final(self).deep_view(), r.deep_view()) == next(
                old(self).deep_view(),
                event.deep_view(),
            ),
    {
        match (self.stage, event) {
            (Stage::Ready, Event::Start) => {
                let searches = self.images.len() == 0 && match self.endpoint {
                    Endpoint::Cloud => true,
                    Endpoint::Local => !self.api_key.as_str().is_empty(),
                };
                if !searches {
                    return self.start_writing();
                }
                let request = match self.endpoint {
                    Endpoint::Cloud => chat::cloud_phrases_request(
                        &self.api_key,
                        &self.model,
                        &self.query,
                        &self.history,
                    ),
                    Endpoint::Local => chat::local_phrases_request(
                        &self.base_url,
                        &self.model,
                        &self.query,
                        &self.history,
                    ),
                };
                self.stage = Stage::Planning;
                Progress { events: phase_event("planning"), action: Some(Action::Ask(request)) }
            },
            (Stage::Planning, Event::Phrases(reply)) => {
                let terms = sources::choose_terms(&reply, &self.query);
                let requests = self.plan_searches(&terms);
                let concurrent = !text::same_text(&self.mode, "speed");
                self.stage = Stage::Searching;
                Progress {
                    events: phase_event("searching"),
                    action: Some(Action::Search { requests, concurrent }),
                }
            },
            (Stage::Searching, Event::Found(searches)) => {
                let found = sources::gather_sources(&searches);
                self.response.sources = found.clone();
                self.sources = Some(found);
                self.start_writing()
            },
            (Stage::Writing, Event::Chunk(chunk)) => {
                let events = stream::apply_chunk(&mut self.response, chunk);
                Progress { events, action: None }
            },
            (Stage::Writing, Event::End) => {
                self.response.message = text::trim(&self.response.message);
                self.stage = Stage::Finished;
                Progress {
                    events: one_event(StreamEvent::Done(self.response.clone())),
                    action: Some(Action::Finish(self.response.clone())),
                }
            },
            _ => {
                let events: Vec<StreamEvent> = Vec::new();
                assert(events.deep_view() == Seq::<records::StreamEventView>::empty());
                Progress { events, action: None }
            },
        }
    }
}

/// The report on the model that was asked for phrases, where it replied with
/// the given status and, if that could be read, the given content. A cloud
/// reply counts whatever its status says.
pub open spec fn phrases_report(
    endpoint: Endpoint,
    status: u16,
    content: Option<Seq<char>>,
) -> EventView {
    match endpoint {
        Endpoint::Cloud => EventView::Phrases(content),
        Endpoint::Local => EventView::Phrases(
            if 200 <= status < 300 {
                content
            } else {
                None
            },
        ),
    }
}

/// What is wrong with the reply that shall stream the answer, if anything.
pub open spec fn answer_trouble(
    endpoint: Endpoint,
    status: u16,
    body: Seq<char>,
    members: Option<Seq<(Seq<char>, Option<Seq<char>>)>>,
) -> Option<errors::ResearchErrorView> {
    match endpoint {
        Endpoint::Cloud => api::keyed_reply_trouble(status, body, members),
        Endpoint::Local => api::reply_trouble(status, body, members),
    }
}

impl Turn {
    /// The report on the model that was asked for phrases and replied.
    pub fn phrases_event(&self, status: u16, content: Option<String>) -> (r: Event)
        ensures
            r.deep_view() == phrases_report(self.endpoint, status, content.deep_view()),
    {
        match self.endpoint {
            Endpoint::Cloud => Event::Phrases(content),
            Endpoint::Local => if api::is_success(status) {
                Event::Phrases(content)
            } else {
                Event::Phrases(None)
            },
        }
    }

    /// What is wrong with the reply that shall stream the answer, if anything.
    pub fn answer_problem(&self, status: u16, body: &str) -> (r: Option<ResearchError>)
        ensures
            r.deep_view() == answer_trouble(
                self.endpoint,
                status,
                body@,
                errors::json_members(body@),
            ),
    {
        match self.endpoint {
            Endpoint::Cloud => api::keyed_reply_problem(status, body),
            Endpoint::Local => api::reply_problem(status, body),
        }
    }

    /// The error where the server that shall answer cannot be reached.
    pub fn unreachable(&self, cause: &str) -> (r: ResearchError)
        ensures
            r.deep_view() == match self.endpoint {
                Endpoint::Cloud => errors::ResearchErrorView::Network(cause@),
                Endpoint::Local => errors::ResearchErrorView::Network(
                    "could not reach the local Ollama server at "@ + self.base_url@
                        + "; is it running? ("@ + cause@ + ")"@,
                ),
            },
    {
        match self.endpoint {
            Endpoint::Cloud => ResearchError::Network(cause.to_owned()),
            Endpoint::Local => errors::local_chat_unreachable(&self.base_url, cause),
        }
    }
}

/// Whether the first known cloud model with the given name can show its
/// reasoning.
pub open spec fn cloud_thinks(known: Seq<records::CloudModelView>, name: Seq<char>) -> bool {
    lists::first_where(known, routing::cloud_named(name)) matches Some(m) && models::thinks(
        m.capabilities,
    )
}

/// Whether a model is the local one with the given name.
pub open spec fn local_named(name: Seq<char>) -> spec_fn(records::ModelInfoView) -> bool {
    |m: records::ModelInfoView| m.endpoint == Endpoint::Local && m.name == name
}

/// Whether the first known local model with the given name can show its
/// reasoning.
pub open spec fn local_thinks(known: Seq<records::ModelInfoView>, name: Seq<char>) -> bool {
    lists::first_where(known, local_named(name)) matches Some(m) && models::thinks(m.capabilities)
}

/// A response with nothing in it but the model.
pub open spec fn empty_response(model: Seq<char>) -> records::ResearchResponseView {
    records::ResearchResponseView { message: seq![], sources: seq![], model, thinking: seq![] }
}

/// The model that answers a cloud turn: the client's own where there are no
/// images, else one that can see.
pub open spec fn cloud_model_for(
    client: routing::ResearchClientView,
    images: Seq<Seq<char>>,
    fallback: Option<Seq<char>>,
    known: Seq<records::CloudModelView>,
) -> Result<Seq<char>, errors::ResearchErrorView> {
    if images.len() == 0 {
        Ok(client.model)
    } else {
        routing::vision_choice(client.model, fallback, known)
    }
}

/// The cloud turn that answers a question, ready to start.
pub open spec fn cloud_turn(
    client: routing::ResearchClientView,
    query: Seq<char>,
    mode: Seq<char>,
    history: Seq<records::HistoryEntryView>,
    images: Seq<Seq<char>>,
    fallback: Option<Seq<char>>,
    known: Seq<records::CloudModelView>,
) -> Result<TurnView, errors::ResearchErrorView> {
    let kept = images::sanitized(images);
    match research_problem(query, mode) {
        Err(problem) => Err(problem),
        Ok(_) => match cloud_model_for(client, kept, fallback, known) {
            Err(problem) => Err(problem),
            Ok(model) => Ok(
                TurnView {
                    stage: Stage::Ready,
                    endpoint: Endpoint::Cloud,
                    base_url: seq![],
                    api_key: client.api_key,
                    model,
                    query,
                    mode,
                    history,
                    images: kept,
                    thinking: cloud_thinks(known, model),
                    sources: None,
                    response: empty_response(model),
                },
            ),
        },
    }
}

/// The local turn that answers a question, ready to start.
pub open spec fn local_turn(
    settings: records::AppSettingsView,
    model: Seq<char>,
    query: Seq<char>,
    mode: Seq<char>,
    history: Seq<records::HistoryEntryView>,
    images: Seq<Seq<char>>,
    known: Seq<records::ModelInfoView>,
) -> TurnView {
    TurnView {
        stage: Stage::Ready,
        endpoint: Endpoint::Local,
        base_url: servers::base_url(settings.local_base_url),
        api_key: text::trimmed(settings.api_key),
        model,
        query,
        mode,
        history,
        images,
        thinking: local_thinks(known, model),
        sources: None,
        response: empty_response(models::model_id(Endpoint::Local, model)),
    }
}

/// Whether a model is a cloud model.
pub open spec fn on_cloud() -> spec_fn(records::ModelInfoView) -> bool {
    |m: records::ModelInfoView| m.endpoint == Endpoint::Cloud
}

/// The cloud models among the known ones, in order.
pub open spec fn cloud_part(known: Seq<records::ModelInfoView>) -> Seq<records::CloudModelView> {
    known.filter(on_cloud()).map_values(
        |m: records::ModelInfoView|
            records::CloudModelView {
                name: m.name,
                parameter_size: m.parameter_size,
                capabilities: m.capabilities,
            },
    )
}

/// The turn that answers a question on whichever side the model is.
pub open spec fn any_turn(
    client: routing::ResearchClientView,
    settings: records::AppSettingsView,
    query: Seq<char>,
    mode: Seq<char>,
    history: Seq<records::HistoryEntryView>,
    images: Seq<Seq<char>>,
    known: Seq<records::ModelInfoView>,
) -> Result<TurnView, errors::ResearchErrorView> {
    let kept = images::sanitized(images);
    let (endpoint, name) = models::parsed_model_id(client.model);
    match routing::turn_model(endpoint, name, settings, kept.len() > 0, known) {
        Err(problem) => Err(problem),
        Ok(answering) => match answering.cloud {
            Some(cloud) => cloud_turn(
                cloud,
                query,
                mode,
                history,
                kept,
                None,
                cloud_part(known),
            ),
            None => Ok(
                local_turn(settings, answering.model_name, query, mode, history, kept, known),
            ),
        },
    }
}

/// The cloud models among the known ones, in order.
fn cloud_models_of(known: &Vec<ModelInfo>) -> (r: Vec<CloudModel>)
    ensures
        r.deep_view() == cloud_part(known.deep_view()),
{
    let mut r: Vec<CloudModel> = Vec::new();
    let ghost all = known.deep_view();
    proof {
        reveal(Seq::filter);
        assert(r.deep_view() == cloud_part(all.take(0)));
    }
    for i in 0..known.len()
        invariant
            all == known.deep_view(),
            r.deep_view() == cloud_part(all.take(i as int)),
    {
        proof {
            reveal(Seq::filter);
            assert(all.take(i + 1).drop_last() == all.take(i as int));
            assert(all.take(i + 1).last() == known@[i as int].deep_view());
        }
        if known[i].endpoint == Endpoint::Cloud {
            let model = CloudModel {
                name: known[i].name.clone(),
                parameter_size: known[i].parameter_size.clone(),
                capabilities: known[i].capabilities.clone(),
            };
            let ghost shown = r.deep_view();
            r.push(model);
            proof {
                assert(model.capabilities.deep_view() == known@[i as int].capabilities.deep_view());
                assert(r.deep_view() == shown.push(model.deep_view()));
            }
        }
    }
    assert(all.take(all.len() as int) == all);
    r
}

/// Whether the first known local model with the given name can show its
/// reasoning.
fn is_local_thinker(known: &Vec<ModelInfo>, name: &str) -> (r: bool)
    ensures
        r == local_thinks(known.deep_view(), name@),
{
    let ghost p = local_named(name@);
    for i in 0..known.len()
        invariant
            p == local_named(name@),
            forall|j: int| 0 <= j < i ==> !p(#[trigger] known.deep_view()[j]),
    {
        if known[i].endpoint == Endpoint::Local && text::same_text(&known[i].name, name) {
            proof {
                lists::lemma_first_where(known.deep_view(), p, i as int);
            }
            return models::supports_thinking_model(&known[i]);
        }
    }
    proof {
        lists::lemma_first_where(known.deep_view(), p, known@.len() as int);
    }
    false
}

/// A response with nothing in it but the model.
fn start_response(model: String) -> (r: ResearchResponse)
    ensures
        r.deep_view() == empty_response(model@),
{
    let r = ResearchResponse {
        message: String::new(),
        sources: Vec::new(),
        model,
        thinking: String::new(),
    };
    assert(r.sources.deep_view() == Seq::<records::SearchSourceView>::empty());
    r
}

impl ResearchClient {
    /// The cloud turn that answers a question. If `images` are left and the
    /// client's model lacks the `vision` capability, the turn is routed to
    /// `fallback_vision_model` (when provided) or the first known model with
    /// vision support. If no vision-capable model can be found, a clear error
    /// is returned instead of silently dropping the images.
    pub fn research_stream(
        &self,
        query: String,
        mode: String,
        history: Vec<HistoryEntry>,
        images: Vec<String>,
        fallback_vision_model: Option<String>,
        known_models: Vec<CloudModel>,
    ) -> (r: Result<Turn, ResearchError>)
        ensures
            errors::outcome(r) == cloud_turn(
                self.deep_view(),
                query@,
                mode@,
                history.deep_view(),
                images.deep_view(),
                fallback_vision_model.deep_view(),
                known_models.deep_view(),
            ),
    {
        if let Err(problem) = validate_research(&query, &mode) {
            return Err(problem);
        }
        let kept = images::sanitize_images(images);
        let model = if kept.len() == 0 {
            self.model.clone()
        } else {
            match routing::choose_vision_model(&self.model, &fallback_vision_model, &known_models) {
                Ok(model) => model,
                Err(problem) => {
                    return Err(problem);
                },
            }
        };
        let thinking = match routing::find_cloud_model(&known_models, &model) {
            Some(known) => models::supports_thinking(known),
            None => false,
        };
        Ok(
            Turn {
                stage: Stage::Ready,
                endpoint: Endpoint::Cloud,
                base_url: String::new(),
                api_key: self.api_key.clone(),
                model: model.clone(),
                query,
                mode,
                history,
                images: kept,
                thinking,
                sources: None,
                response: start_response(model),
            },
        )
    }

    /// The turn that answers a question: a cloud turn or one on a local Ollama
    /// server, by the composite model id. Local turns can still be grounded
    /// with Ollama Cloud's web search when an API key is available.
    pub fn research_any(
        &self,
        settings: &AppSettings,
        query: String,
        mode: String,
        history: Vec<HistoryEntry>,
        images: Vec<String>,
        known_models: Vec<ModelInfo>,
    ) -> (r: Result<Turn, ResearchError>)
        ensures
            errors::outcome(r) == any_turn(
                self.deep_view(),
                settings.deep_view(),
                query@,
                mode@,
                history.deep_view(),
                images.deep_view(),
                known_models.deep_view(),
            ),
    {
        let kept = images::sanitize_images(images);
        let (primary_endpoint, primary_name) = models::decode_model_id(&self.model);
        let answering = match routing::resolve_turn_model(
            primary_endpoint,
            &primary_name,
            settings,
            &kept,
            &known_models,
        ) {
            Ok(answering) => answering,
            Err(problem) => {
                return Err(problem);
            },
        };
        match answering.cloud {
            Some(cloud) => cloud.research_stream(
                query,
                mode,
                history,
                kept,
                None,
                cloud_models_of(&known_models),
            ),
            None => {
                let thinking = is_local_thinker(&known_models, &answering.model_name);
                let label = models::encode_model_id(Endpoint::Local, &answering.model_name);
                Ok(
                    Turn {
                        stage: Stage::Ready,
                        endpoint: Endpoint::Local,
                        base_url: servers::local_base_url(settings),
                        api_key: text::trim(&settings.api_key),
                        model: answering.model_name,
                        query,
                        mode,
                        history,
                        images: kept,
                        thinking,
                        sources: None,
                        response: start_response(label),
                    },
                )
            },
        }
    }
}

/// A question without images for a local model needs no API key: it is
/// answered by that model, whatever else is configured.
pub proof fn local_questions_need_no_key(
    client: routing::ResearchClientView,
    settings: records::AppSettingsView,
    query: Seq<char>,
    mode: Seq<char>,
    history: Seq<records::HistoryEntryView>,
    images: Seq<Seq<char>>,
    known: Seq<records::ModelInfoView>,
    name: Seq<char>,
)
    requires
        client.model == models::model_id(Endpoint::Local, name),
        text::trimmed(name).len() > 0,
        images::sanitized(images).len() == 0,
    ensures
        any_turn(client, settings, query, mode, history, images, known) == Ok::<
            _,
            errors::ResearchErrorView,
        >(local_turn(settings, name, query, mode, history, images::sanitized(images), known)),
{
    models::decoding_undoes_encoding(Endpoint::Local, name);
}

/// A cloud turn of the shell has an API key and a question that passes the
/// checks; its model is the client's own unless there are images.
pub proof fn cloud_turns_have_a_key_and_a_question(
    client: routing::ResearchClientView,
    settings: records::AppSettingsView,
    query: Seq<char>,
    mode: Seq<char>,
    history: Seq<records::HistoryEntryView>,
    images: Seq<Seq<char>>,
    known: Seq<records::ModelInfoView>,
)
    ensures
        any_turn(client, settings, query, mode, history, images, known) matches Ok(turn) ==> (
        turn.endpoint == Endpoint::Cloud ==> {
            &&& turn.api_key == text::trimmed(settings.api_key)
            &&& turn.api_key.len() > 0
            &&& research_problem(query, mode) is Ok
            &&& images::sanitized(images).len() == 0 ==> models::parsed_model_id(client.model) == (
                Endpoint::Cloud,
                turn.model,
            )
        }),
{
    let (endpoint, name) = models::parsed_model_id(client.model);
    let kept = images::sanitized(images);
    if let Some((e, n)) = routing::turn_choice(endpoint, name, settings, kept.len() > 0, known) {
        models::decoding_undoes_encoding(e, n);
    }
    if kept.len() == 0 {
        lemma_sanitized_empty();
        assert(kept =~= Seq::<Seq<char>>::empty());
    }
}

/// There is nothing to keep of no images.
proof fn lemma_sanitized_empty()
    ensures
        images::sanitized(Seq::empty()) == Seq::<Seq<char>>::empty(),
{
    reveal(Seq::filter);
}

/// The request for the answer goes to the turn's model. Its last message is the
/// user's and carries the question and all the images.
pub proof fn the_question_and_its_images_are_sent(turn: TurnView)
    ensures
        answer_request(turn).body matches api::RequestBodyView::Chat(request) && request.model
            == turn.model && request.messages.last() == (api::ChatMessageView {
            role: api::Role::User,
            content: chat::question(turn.query, turn_context(turn)),
            images: turn.images,
        }),
{
}

/// Images that come with a question are not dropped: a cloud turn has them all,
/// as far as they are images, and then its model is known to advertise vision.
pub proof fn cloud_turns_with_images_go_to_a_seeing_model(
    client: routing::ResearchClientView,
    query: Seq<char>,
    mode: Seq<char>,
    history: Seq<records::HistoryEntryView>,
    images: Seq<Seq<char>>,
    fallback: Option<Seq<char>>,
    known: Seq<records::CloudModelView>,
)
    ensures
        cloud_turn(client, query, mode, history, images, fallback, known) matches Ok(turn) ==> {
            &&& turn.images == images::sanitized(images)
            &&& turn.images.len() > 0 ==> exists|i: int|
                0 <= i < known.len() && (#[trigger] known[i]).name == turn.model && models::sees(
                    known[i].capabilities,
                )
        },
{
    routing::images_reach_a_seeing_model_or_an_error(client.model, fallback, known);
}

/// Images that come with a question lead to a model that is known to advertise
/// vision, on either side. They are not dropped: the turn has them all, as far
/// as they are images, unless what is left of one begins with `data:` again.
pub proof fn turns_with_images_go_to_a_seeing_model(
    client: routing::ResearchClientView,
    settings: records::AppSettingsView,
    query: Seq<char>,
    mode: Seq<char>,
    history: Seq<records::HistoryEntryView>,
    images: Seq<Seq<char>>,
    known: Seq<records::ModelInfoView>,
)
    requires
        images::sanitized(images).len() > 0,
    ensures
        any_turn(client, settings, query, mode, history, images, known) matches Ok(turn) ==> {
            &&& exists|i: int|
                0 <= i < known.len() && (#[trigger] known[i]).endpoint == turn.endpoint
                    && known[i].name == turn.model && models::sees(known[i].capabilities)
            &&& (forall|i: int|
                0 <= i < images::sanitized(images).len() ==> !"data:"@.is_prefix_of(
                    #[trigger] images::sanitized(images)[i],
                )) ==> turn.images == images::sanitized(images)
        },
{
    let kept = images::sanitized(images);
    let (endpoint, name) = models::parsed_model_id(client.model);
    if forall|i: int| 0 <= i < kept.len() ==> !"data:"@.is_prefix_of(#[trigger] kept[i]) {
        images::sanitizing_twice_changes_nothing(images);
    }
    routing::image_turns_go_to_a_seeing_model(endpoint, name, settings, known);
    if let Ok(turn) = any_turn(client, settings, query, mode, history, images, known) {
        let answering = routing::turn_model(endpoint, name, settings, true, known)->Ok_0;
        if let Some(cloud) = answering.cloud {
            if images::sanitized(kept).len() > 0 {
                lemma_cloud_part_sees(cloud, query, mode, history, kept, known);
            }
        }
    }
}

/// A cloud turn with images, for which the cloud models among the known ones
/// were considered, is answered by one of these that advertises vision.
proof fn lemma_cloud_part_sees(
    client: routing::ResearchClientView,
    query: Seq<char>,
    mode: Seq<char>,
    history: Seq<records::HistoryEntryView>,
    images: Seq<Seq<char>>,
    known: Seq<records::ModelInfoView>,
)
    requires
        images::sanitized(images).len() > 0,
    ensures
        cloud_turn(client, query, mode, history, images, None, cloud_part(known)) matches Ok(turn)
            ==> exists|i: int|
            0 <= i < known.len() && (#[trigger] known[i]).endpoint == Endpoint::Cloud
                && known[i].name == turn.model && models::sees(known[i].capabilities),
{
    let part = cloud_part(known);
    let chosen = known.filter(on_cloud());
    cloud_turns_with_images_go_to_a_seeing_model(client, query, mode, history, images, None, part);
    if let Ok(turn) = cloud_turn(client, query, mode, history, images, None, part) {
        let i = choose|i: int|
            0 <= i < part.len() && (#[trigger] part[i]).name == turn.model && models::sees(
                part[i].capabilities,
            );
        assert(chosen.contains(chosen[i]));
        known.lemma_filter_pred(on_cloud(), i);
        known.lemma_filter_contains_rev(on_cloud(), chosen[i]);
        let j = choose|j: int| 0 <= j < known.len() && known[j] == chosen[i];
        assert(known[j].name == turn.model);
    }
}

/// Whether an action sends an API key to Ollama Cloud only, and a local turn's
/// requests to its model carry none.
pub open spec fn action_keeps_key_home(turn: TurnView, action: ActionView) -> bool {
    match action {
        ActionView::Ask(request) | ActionView::Stream(request) => {
            &&& api::keeps_key_home(request)
            &&& turn.endpoint == Endpoint::Local ==> request.bearer is None
        },
        ActionView::Search { requests, .. } => forall|i: int|
            0 <= i < requests.len() ==> api::keeps_key_home(#[trigger] requests[i]),
        ActionView::Finish(_) => true,
    }
}

/// Whatever happens in a turn, the API key is sent to Ollama Cloud and nowhere
/// else; a local server never gets it.
pub proof fn turns_keep_the_key_home(turn: TurnView, event: EventView)
    ensures
        next(turn, event).1.action matches Some(action) ==> action_keeps_key_home(turn, action),
{
    assert forall|path: Seq<char>, key: Seq<char>, body: api::RequestBodyView|
        api::keeps_key_home(#[trigger] api::cloud_call(path, key, body)) by {
        api::api_key_goes_to_ollama_cloud_only(path, key, seq![], body);
    }
}

/// A turn searches the web for at most three terms, and at least for one.
pub proof fn turns_search_for_up_to_three_terms(turn: TurnView, event: EventView)
    ensures
        next(turn, event).1.action matches Some(ActionView::Search { requests, .. }) ==> 1
            <= requests.len() <= 3,
{
    if let EventView::Phrases(reply) = event {
        sources::there_is_a_search_term(reply, turn.query);
    }
}

/// The last progress of a turn is the response that is handed out; nothing
/// before it is final.
pub proof fn the_last_progress_is_the_response(turn: TurnView, event: EventView)
    ensures
        next(turn, event).1.action matches Some(ActionView::Finish(response)) ==> {
            &&& next(turn, event).1.events == seq![records::StreamEventView::Done(response)]
            &&& next(turn, event).0.response == response
            &&& next(turn, event).0.stage == Stage::Finished
        },
        forall|i: int|
            0 <= i < next(turn, event).1.events.len() ==> ((#[trigger] next(
                turn,
                event,
            ).1.events[i]) is Done ==> next(turn, event).1.action is Some && next(
                turn,
                event,
            ).1.action->0 is Finish),
        turn.stage == Stage::Finished ==> next(turn, event) == unmoved(turn),
{
}

/// The turn after a series of reports, and all the progress made known.
pub open spec fn run(turn: TurnView, events: Seq<EventView>) -> (
    TurnView,
    Seq<records::StreamEventView>,
)
    decreases events.len(),
{
    if events.len() == 0 {
        (turn, seq![])
    } else {
        let (before, told) = run(turn, events.drop_last());
        let (after, progress) = next(before, events.last());
        (after, told + progress.events)
    }
}

/// The reports of a streamed answer.
pub open spec fn answer_events(chunks: Seq<stream::StreamChunkView>) -> Seq<EventView> {
    chunks.map_values(|chunk: stream::StreamChunkView| EventView::Chunk(chunk))
}

/// Chunks that arrive while the model is answering extend the response.
proof fn lemma_run_chunks(
    turn: TurnView,
    events: Seq<EventView>,
    chunks: Seq<stream::StreamChunkView>,
)
    requires
        run(turn, events).0.stage == Stage::Writing,
    ensures
        ({
            let (writing, told) = run(turn, events);
            run(turn, events + answer_events(chunks)) == (
                TurnView {
                    response: stream::extended_by_all(writing.response, chunks),
                    ..writing
                },
                told + stream::all_chunk_events(writing.response, chunks),
            )
        }),
    decreases chunks.len(),
{
    let (writing, told) = run(turn, events);
    let all = events + answer_events(chunks);
    if chunks.len() == 0 {
        assert(all == events);
        assert(told + stream::all_chunk_events(writing.response, chunks) == told);
    } else {
        let rest = chunks.drop_last();
        lemma_run_chunks(turn, events, rest);
        assert(all.drop_last() == events + answer_events(rest));
        assert(all.last() == EventView::Chunk(chunks.last()));
        let response = stream::extended_by_all(writing.response, rest);
        assert((told + stream::all_chunk_events(writing.response, rest)) + stream::chunk_events(
            response,
            chunks.last(),
        ) == told + stream::all_chunk_events(writing.response, chunks));
    }
}

/// Reports up to the answer, its chunks, and its end.
pub open spec fn full_run(
    opening: Seq<EventView>,
    chunks: Seq<stream::StreamChunkView>,
) -> Seq<EventView> {
    (opening + answer_events(chunks)).push(EventView::End)
}

/// The end of an answer that was streamed.
proof fn lemma_full_run(
    turn: TurnView,
    opening: Seq<EventView>,
    chunks: Seq<stream::StreamChunkView>,
)
    requires
        run(turn, opening).0.stage == Stage::Writing,
    ensures
        ({
            let (writing, told) = run(turn, opening);
            let written = TurnView {
                response: stream::extended_by_all(writing.response, chunks),
                ..writing
            };
            run(turn, full_run(opening, chunks)) == (
                TurnView {
                    stage: Stage::Finished,
                    response: final_response(written),
                    ..writing
                },
                (told + stream::all_chunk_events(writing.response, chunks)).push(
                    records::StreamEventView::Done(final_response(written)),
                ),
            )
        }),
{
    let events = full_run(opening, chunks);
    lemma_run_chunks(turn, opening, chunks);
    assert(events.drop_last() == opening + answer_events(chunks));
    let (writing, told) = run(turn, opening);
    let written = TurnView {
        response: stream::extended_by_all(writing.response, chunks),
        ..writing
    };
    let shown = told + stream::all_chunk_events(writing.response, chunks);
    assert(shown + seq![records::StreamEventView::Done(final_response(written))] == shown.push(
        records::StreamEventView::Done(final_response(written)),
    ));
}

/// A turn that searches the web plans, searches and writes, in this order. It
/// ends with the answer that the chunks carry, without white space around it,
/// and with the sources that were found.
pub proof fn searching_turns_plan_search_and_write(
    turn: TurnView,
    reply: Option<Seq<char>>,
    searches: Seq<Option<Seq<records::SearchSourceView>>>,
    chunks: Seq<stream::StreamChunkView>,
)
    requires
        turn.stage == Stage::Ready,
        searches_web(turn),
    ensures
        ({
            let opening = seq![
                EventView::Start,
                EventView::Phrases(reply),
                EventView::Found(searches),
            ];
            let (finished, told) = run(turn, full_run(opening, chunks));
            let response = with_sources(turn, sources::gathered(searches)).response;
            &&& finished.stage == Stage::Finished
            &&& finished.response == records::ResearchResponseView {
                message: text::trimmed(
                    turn.response.message + stream::all_content(response, chunks),
                ),
                thinking: turn.response.thinking + stream::all_thinking(chunks),
                sources: sources::gathered(searches),
                model: turn.response.model,
            }
            &&& told == (phase("planning"@) + phase("searching"@) + phase("writing"@)
                + stream::all_chunk_events(response, chunks)).push(
                records::StreamEventView::Done(finished.response),
            )
        }),
{
    let opening = seq![EventView::Start, EventView::Phrases(reply), EventView::Found(searches)];
    let first = seq![EventView::Start];
    let second = seq![EventView::Start, EventView::Phrases(reply)];
    let planning = phase("planning"@);
    let searching = phase("searching"@);
    let writing = phase("writing"@);
    assert(first.drop_last() == Seq::<EventView>::empty());
    assert(second.drop_last() == first);
    assert(opening.drop_last() == second);
    assert(run(turn, first).1 == planning) by {
        assert(run(turn, first.drop_last()) == (turn, Seq::<records::StreamEventView>::empty()));
        assert(Seq::<records::StreamEventView>::empty() + planning == planning);
    }
    assert(run(turn, second).1 == planning + searching);
    assert(run(turn, opening).1 == planning + searching + writing);
    lemma_full_run(turn, opening, chunks);
    let response = with_sources(turn, sources::gathered(searches)).response;
    stream::the_answer_is_what_the_chunks_carry(response, chunks);
}

/// A turn that does not search the web only writes. It ends with the answer
/// that the chunks carry, without white space around it.
pub proof fn other_turns_only_write(turn: TurnView, chunks: Seq<stream::StreamChunkView>)
    requires
        turn.stage == Stage::Ready,
        !searches_web(turn),
    ensures
        ({
            let (finished, told) = run(turn, full_run(seq![EventView::Start], chunks));
            &&& finished.stage == Stage::Finished
            &&& finished.response == records::ResearchResponseView {
                message: text::trimmed(
                    turn.response.message + stream::all_content(turn.response, chunks),
                ),
                thinking: turn.response.thinking + stream::all_thinking(chunks),
                ..turn.response
            }
            &&& told == (phase("writing"@) + stream::all_chunk_events(turn.response, chunks)).push(
                records::StreamEventView::Done(finished.response),
            )
        }),
{
    let opening = seq![EventView::Start];
    let writing = phase("writing"@);
    assert(opening.drop_last() == Seq::<EventView>::empty());
    assert(run(turn, opening.drop_last()) == (turn, Seq::<records::StreamEventView>::empty()));
    assert(Seq::<records::StreamEventView>::empty() + writing == writing);
    assert(run(turn, opening) == (TurnView { stage: Stage::Writing, ..turn }, writing));
    lemma_full_run(turn, opening, chunks);
    stream::the_answer_is_what_the_chunks_carry(turn.response, chunks);
}

/// A turn searches for the terms, one search each and in their order, up to the
/// third: request number `i` asks for the term number `i`. Each goes to Ollama
/// Cloud with the key. The searches run one after the other in the speed mode
/// only, which asks for fewer results.
pub proof fn each_term_is_searched_for(turn: TurnView, reply: Option<Seq<char>>)
    requires
        turn.stage == Stage::Planning,
    ensures
        ({
            let terms = sources::search_terms(reply, turn.query);
            let (after, progress) = next(turn, EventView::Phrases(reply));
            &&& after == TurnView { stage: Stage::Searching, ..turn }
            &&& progress.events == seq![
                records::StreamEventView::Phase { phase: "searching"@ },
            ]
            &&& progress.action matches Some(ActionView::Search { requests, concurrent }) && {
                &&& requests.len() == if terms.len() < 3 {
                    terms.len() as int
                } else {
                    3
                }
                &&& forall|i: int|
                    0 <= i < requests.len() ==> {
                        &&& (#[trigger] requests[i]).body matches api::RequestBodyView::Search {
                            query,
                            max_results,
                        } && query == terms[i] && (turn.mode == "speed"@ ==> max_results == 5) && (
                        turn.mode != "speed"@ ==> max_results == 6)
                        &&& requests[i].url == "https://ollama.com/api"@ + "/web_search"@
                        &&& requests[i].bearer == Some(turn.api_key)
                    }
                &&& concurrent <==> turn.mode != "speed"@
            }
        }),
{
}

/// A turn begins with a request for search phrases where the web is searched:
/// where no images come with the question, on the cloud always, on a local
/// server only with a key. The model of the turn is asked, on its own side.
pub proof fn a_searching_turn_begins_with_phrases(turn: TurnView)
    requires
        turn.stage == Stage::Ready,
        turn.images.len() == 0,
        turn.endpoint == Endpoint::Cloud || turn.api_key.len() > 0,
    ensures
        ({
            let (after, progress) = next(turn, EventView::Start);
            &&& after == TurnView { stage: Stage::Planning, ..turn }
            &&& progress.events == seq![records::StreamEventView::Phase { phase: "planning"@ }]
            &&& progress.action matches Some(ActionView::Ask(request)) && {
                &&& request.body == api::RequestBodyView::Chat(
                    chat::phrases_chat(turn.model, turn.query, turn.history),
                )
                &&& turn.endpoint == Endpoint::Cloud ==> request.url == "https://ollama.com/api"@
                    + "/chat"@ && request.bearer == Some(turn.api_key)
                &&& turn.endpoint == Endpoint::Local ==> request.url == turn.base_url
                    + "/api/chat"@ && request.bearer is None
            }
        }),
{
}

/// A turn with images, or a local one without a key, begins with the answer.
pub proof fn any_other_turn_begins_with_the_answer(turn: TurnView)
    requires
        turn.stage == Stage::Ready,
        turn.images.len() > 0 || (turn.endpoint == Endpoint::Local && turn.api_key.len() == 0),
    ensures
        ({
            let (after, progress) = next(turn, EventView::Start);
            &&& after == TurnView { stage: Stage::Writing, ..turn }
            &&& progress.events == seq![records::StreamEventView::Phase { phase: "writing"@ }]
            &&& progress.action == Some(ActionView::Stream(answer_request(turn)))
        }),
{
}

/// What the searches found becomes the sources of the turn and of the response,
/// and the answer is asked for with these sources. Nothing else changes.
pub proof fn what_was_found_grounds_the_answer(
    turn: TurnView,
    searches: Seq<Option<Seq<records::SearchSourceView>>>,
)
    requires
        turn.stage == Stage::Searching,
    ensures
        ({
            let (after, progress) = next(turn, EventView::Found(searches));
            &&& after.sources == Some(sources::gathered(searches))
            &&& after.response.sources == sources::gathered(searches)
            &&& after == TurnView {
                stage: Stage::Writing,
                sources: after.sources,
                response: records::ResearchResponseView {
                    sources: after.response.sources,
                    ..turn.response
                },
                ..turn
            }
            &&& progress.events == seq![records::StreamEventView::Phase { phase: "writing"@ }]
            &&& progress.action == Some(ActionView::Stream(answer_request(after)))
        }),
{
}

/// The answer is asked for on the side of the turn: with the instructions, the
/// conversation, the question, the images, and the sources as far as the mode
/// allows. A local model gets as much of them as the balanced mode allows, and
/// reads less.
pub proof fn the_answer_is_asked_for_on_its_side(turn: TurnView)
    ensures
        ({
            let request = answer_request(turn);
            let context = match turn.sources {
                Some(found) => if turn.endpoint == Endpoint::Cloud {
                    sources::context_text(found, turn.mode)
                } else {
                    sources::context_text(found, "balanced"@)
                },
                None => seq![],
            };
            &&& turn.endpoint == Endpoint::Cloud ==> request.url == "https://ollama.com/api"@
                + "/chat"@ && request.bearer == Some(turn.api_key)
            &&& turn.endpoint == Endpoint::Local ==> request.url == turn.base_url + "/api/chat"@
                && request.bearer is None
            &&& request.body matches api::RequestBodyView::Chat(chat) && {
                &&& chat.model == turn.model
                &&& chat.messages == chat::answer_messages(
                    turn.query,
                    context,
                    turn.history,
                    turn.images,
                )
                &&& chat.stream
                &&& chat.think == Some(turn.thinking)
                &&& chat.temperature_tenths == 2
                &&& chat.num_predict is None
                &&& turn.endpoint == Endpoint::Cloud ==> chat.num_ctx == Some(32_768usize)
                &&& turn.endpoint == Endpoint::Local ==> chat.num_ctx == Some(8_192usize)
            }
        }),
{
}

/// A chunk that arrives while the model is answering extends the response and
/// is made known; there is nothing to do but to wait for more.
pub proof fn a_chunk_extends_the_answer(turn: TurnView, chunk: stream::StreamChunkView)
    requires
        turn.stage == Stage::Writing,
    ensures
        ({
            let (after, progress) = next(turn, EventView::Chunk(chunk));
            &&& after == TurnView { response: stream::extended(turn.response, chunk), ..turn }
            &&& progress.events == stream::chunk_events(turn.response, chunk)
            &&& progress.action is None
        }),
{
}

/// The end of the stream ends the turn: the response is handed out with the
/// answer without white space around it, and is otherwise as it was.
pub proof fn the_end_of_the_stream_ends_the_turn(turn: TurnView)
    requires
        turn.stage == Stage::Writing,
    ensures
        ({
            let (after, progress) = next(turn, EventView::End);
            &&& after.stage == Stage::Finished
            &&& after.response.message == text::trimmed(turn.response.message)
            &&& after.response.thinking == turn.response.thinking
            &&& after.response.sources == turn.response.sources
            &&& after.response.model == turn.response.model
            &&& progress.events == seq![records::StreamEventView::Done(after.response)]
            &&& progress.action == Some(ActionView::Finish(after.response))
        }),
{
}

/// A report that does not fit the stage changes nothing, makes nothing known
/// and asks for nothing.
pub proof fn reports_out_of_turn_change_nothing(turn: TurnView, event: EventView)
    requires
        event is Start ==> turn.stage != Stage::Ready,
        event is Phrases ==> turn.stage != Stage::Planning,
        event is Found ==> turn.stage != Stage::Searching,
        event is Chunk ==> turn.stage != Stage::Writing,
        event is End ==> turn.stage != Stage::Writing,
    ensures
        next(turn, event).0 == turn,
        next(turn, event).1.events.len() == 0,
        next(turn, event).1.action is None,
{
}

/// A question passes exactly where it is not blank and its mode is one of the
/// three; a blank question is told first.
pub proof fn a_question_needs_text_and_a_mode(query: Seq<char>, mode: Seq<char>)
    ensures
        text::trimmed(query).len() == 0 ==> research_problem(query, mode) == Err::<(), _>(
            errors::ResearchErrorView::InvalidConfig("the query cannot be empty"@),
        ),
        text::trimmed(query).len() > 0 && mode != "speed"@ && mode != "balanced"@ && mode
            != "quality"@ ==> research_problem(query, mode) == Err::<(), _>(
            errors::ResearchErrorView::InvalidConfig("unknown research mode"@),
        ),
        text::trimmed(query).len() > 0 && (mode == "speed"@ || mode == "balanced"@ || mode
            == "quality"@) ==> research_problem(query, mode) is Ok,
{
}

/// A reply to the request for phrases counts on the cloud whatever its status
/// says, on a local server only where it is a success.
pub proof fn phrases_count_by_their_side(status: u16, content: Option<Seq<char>>)
    ensures
        phrases_report(Endpoint::Cloud, status, content) == EventView::Phrases(content),
        200 <= status < 300 ==> phrases_report(Endpoint::Local, status, content)
            == EventView::Phrases(content),
        status < 200 || status >= 300 ==> phrases_report(Endpoint::Local, status, content)
            == EventView::Phrases(None),
{
}

/// A refused answer names the key on the cloud only.
pub proof fn refused_answers_tell_why(
    status: u16,
    body: Seq<char>,
    members: Option<Seq<(Seq<char>, Option<Seq<char>>)>>,
)
    ensures
        answer_trouble(Endpoint::Cloud, status, body, members) == api::keyed_reply_trouble(
            status,
            body,
            members,
        ),
        answer_trouble(Endpoint::Local, status, body, members) == api::reply_trouble(
            status,
            body,
            members,
        ),
        200 <= status < 300 ==> answer_trouble(Endpoint::Cloud, status, body, members) is None
            && answer_trouble(Endpoint::Local, status, body, members) is None,
        status < 200 || status >= 300 ==> answer_trouble(Endpoint::Cloud, status, body, members)
            is Some && answer_trouble(Endpoint::Local, status, body, members) == Some(
            errors::refusal(status as nat, body, members),
        ),
{
}

/// A model thinks where the first known one of its name, on its side, advertises
/// thinking, and not where none of its name is known.
pub proof fn the_first_model_of_a_name_says_whether_it_thinks(
    cloud: Seq<records::CloudModelView>,
    local: Seq<records::ModelInfoView>,
    name: Seq<char>,
    i: int,
)
    ensures
        0 <= i < cloud.len() && cloud[i].name == name && (forall|j: int|
            0 <= j < i ==> (#[trigger] cloud[j]).name != name) ==> cloud_thinks(cloud, name)
            == cloud[i].capabilities.contains("thinking"@),
        (forall|j: int| 0 <= j < cloud.len() ==> (#[trigger] cloud[j]).name != name)
            ==> !cloud_thinks(cloud, name),
        0 <= i < local.len() && local[i].endpoint == Endpoint::Local && local[i].name == name && (
        forall|j: int|
            0 <= j < i ==> (#[trigger] local[j]).endpoint != Endpoint::Local || local[j].name
                != name) ==> local_thinks(local, name) == local[i].capabilities.contains(
            "thinking"@,
        ),
        (forall|j: int|
            0 <= j < local.len() ==> (#[trigger] local[j]).endpoint != Endpoint::Local
                || local[j].name != name) ==> !local_thinks(local, name),
{
    if forall|j: int| 0 <= j < i ==> (#[trigger] cloud[j]).name != name {
        if 0 <= i < cloud.len() {
            lists::lemma_first_where(cloud, routing::cloud_named(name), i);
        }
    }
    if forall|j: int| 0 <= j < cloud.len() ==> (#[trigger] cloud[j]).name != name {
        lists::lemma_first_where(cloud, routing::cloud_named(name), cloud.len() as int);
    }
    if forall|j: int|
        0 <= j < i ==> (#[trigger] local[j]).endpoint != Endpoint::Local || local[j].name != name {
        if 0 <= i < local.len() {
            lists::lemma_first_where(local, local_named(name), i);
        }
    }
    if forall|j: int|
        0 <= j < local.len() ==> (#[trigger] local[j]).endpoint != Endpoint::Local || local[j].name
            != name {
        lists::lemma_first_where(local, local_named(name), local.len() as int);
    }
}

/// A cloud turn that may start has what it was given: the client's key, the
/// question, the mode, the conversation and the images that were kept. Without
/// images the client's own model answers, else the one that was chosen for
/// them. The response is empty but for the model.
pub proof fn a_cloud_turn_has_what_it_was_given(
    client: routing::ResearchClientView,
    query: Seq<char>,
    mode: Seq<char>,
    history: Seq<records::HistoryEntryView>,
    images: Seq<Seq<char>>,
    fallback: Option<Seq<char>>,
    known: Seq<records::CloudModelView>,
)
    ensures
        ({
            let found = cloud_turn(client, query, mode, history, images, fallback, known);
            let kept = images::sanitized(images);
            let chosen = routing::vision_choice(client.model, fallback, known);
            &&& research_problem(query, mode) matches Err(problem) ==> found == Err::<TurnView, _>(
                problem,
            )
            &&& research_problem(query, mode) is Ok && kept.len() > 0 && chosen is Err ==> found
                == Err::<TurnView, _>(chosen->Err_0)
            &&& research_problem(query, mode) is Ok && (kept.len() == 0 || chosen is Ok) ==> {
                &&& found is Ok
                &&& kept.len() == 0 ==> found->Ok_0.model == client.model
                &&& kept.len() > 0 ==> found->Ok_0.model == chosen->Ok_0
                &&& found->Ok_0.stage == Stage::Ready
                &&& found->Ok_0.endpoint == Endpoint::Cloud
                &&& found->Ok_0.api_key == client.api_key
                &&& found->Ok_0.query == query
                &&& found->Ok_0.mode == mode
                &&& found->Ok_0.history == history
                &&& found->Ok_0.images == kept
                &&& found->Ok_0.thinking == cloud_thinks(known, found->Ok_0.model)
                &&& found->Ok_0.sources is None
                &&& found->Ok_0.response.model == found->Ok_0.model
                &&& found->Ok_0.response.message.len() == 0
                &&& found->Ok_0.response.thinking.len() == 0
                &&& found->Ok_0.response.sources.len() == 0
            }
        }),
{
}

/// A local turn has what it was given: the address of the server, the trimmed
/// key for web searches, the model, the question, the mode, the conversation
/// and the images. The response is empty but for the composite id of the model.
pub proof fn a_local_turn_has_what_it_was_given(
    settings: records::AppSettingsView,
    model: Seq<char>,
    query: Seq<char>,
    mode: Seq<char>,
    history: Seq<records::HistoryEntryView>,
    images: Seq<Seq<char>>,
    known: Seq<records::ModelInfoView>,
)
    ensures
        ({
            let turn = local_turn(settings, model, query, mode, history, images, known);
            &&& turn.stage == Stage::Ready
            &&& turn.endpoint == Endpoint::Local
            &&& turn.base_url == servers::base_url(settings.local_base_url)
            &&& turn.api_key == text::trimmed(settings.api_key)
            &&& turn.model == model
            &&& turn.query == query
            &&& turn.mode == mode
            &&& turn.history == history
            &&& turn.images == images
            &&& turn.thinking == local_thinks(known, model)
            &&& turn.sources is None
            &&& turn.response.model == "local:"@ + model
            &&& turn.response.message.len() == 0
            &&& turn.response.thinking.len() == 0
            &&& turn.response.sources.len() == 0
        }),
{
}

/// One more known model is among the cloud models, at the end and with all that
/// is known of it, exactly where it is one.
pub proof fn one_more_cloud_model_is_considered(
    known: Seq<records::ModelInfoView>,
    model: records::ModelInfoView,
)
    ensures
        cloud_part(Seq::empty()).len() == 0,
        model.endpoint == Endpoint::Local ==> cloud_part(known.push(model)) == cloud_part(known),
        model.endpoint == Endpoint::Cloud ==> cloud_part(known.push(model)) == cloud_part(
            known,
        ).push(
            records::CloudModelView {
                name: model.name,
                parameter_size: model.parameter_size,
                capabilities: model.capabilities,
            },
        ),
{
    reveal(Seq::filter);
    assert(known.push(model).drop_last() == known);
    let shown = records::CloudModelView {
        name: model.name,
        parameter_size: model.parameter_size,
        capabilities: model.capabilities,
    };
    assert(cloud_part(known.push(model)) =~= if model.endpoint == Endpoint::Cloud {
        cloud_part(known).push(shown)
    } else {
        cloud_part(known)
    });
}

/// The shell's turn is the turn of the model that answers: a cloud turn with
/// the key of the settings, or a local one. Where no model answers, that is the
/// error.
pub proof fn the_answering_model_decides_the_turn(
    client: routing::ResearchClientView,
    settings: records::AppSettingsView,
    query: Seq<char>,
    mode: Seq<char>,
    history: Seq<records::HistoryEntryView>,
    images: Seq<Seq<char>>,
    known: Seq<records::ModelInfoView>,
    endpoint: Endpoint,
    name: Seq<char>,
)
    requires
        models::parsed_model_id(client.model) == (endpoint, name),
    ensures
        ({
            let found = any_turn(client, settings, query, mode, history, images, known);
            let kept = images::sanitized(images);
            let answering = routing::turn_model(endpoint, name, settings, kept.len() > 0, known);
            &&& answering matches Err(problem) ==> found == Err::<TurnView, _>(problem)
            &&& answering matches Ok(model) ==> {
                &&& model.endpoint == Endpoint::Local ==> found == Ok::<
                    _,
                    errors::ResearchErrorView,
                >(local_turn(settings, model.model_name, query, mode, history, kept, known))
                &&& model.endpoint == Endpoint::Cloud ==> found == cloud_turn(
                    routing::ResearchClientView {
                        api_key: text::trimmed(settings.api_key),
                        model: model.model_name,
                    },
                    query,
                    mode,
                    history,
                    kept,
                    None,
                    cloud_part(known),
                )
            }
        }),
{
    let kept = images::sanitized(images);
    if let Some((e, n)) = routing::turn_choice(endpoint, name, settings, kept.len() > 0, known) {
        routing::a_model_is_reached_under_its_own_name(settings, e, n);
    }
}

/// The views hold what the types here hold, field by field.
pub proof fn views_hold_what_is_there(
    stage: Stage,
    turn: Turn,
    event: Event,
    action: Action,
    progress: Progress,
)
    ensures
        stage.deep_view() == stage,
        turn.deep_view().stage == turn.stage,
        turn.deep_view().endpoint == turn.endpoint,
        turn.deep_view().base_url == turn.base_url@,
        turn.deep_view().api_key == turn.api_key@,
        turn.deep_view().model == turn.model@,
        turn.deep_view().query == turn.query@,
        turn.deep_view().mode == turn.mode@,
        turn.deep_view().history == turn.history.deep_view(),
        turn.deep_view().images == turn.images.deep_view(),
        turn.deep_view().thinking == turn.thinking,
        turn.deep_view().sources == turn.sources.deep_view(),
        turn.deep_view().response == turn.response.deep_view(),
        event is Start ==> event.deep_view() is Start,
        event matches Event::Phrases(x) ==> event.deep_view() == EventView::Phrases(x.deep_view()),
        event matches Event::Found(x) ==> event.deep_view() == EventView::Found(x.deep_view()),
        event matches Event::Chunk(x) ==> event.deep_view() == EventView::Chunk(x.deep_view()),
        event is End ==> event.deep_view() is End,
        action matches Action::Ask(x) ==> action.deep_view() == ActionView::Ask(x.deep_view()),
        action matches Action::Search { requests, concurrent }
            ==> action.deep_view()
            == (ActionView::Search { requests: requests.deep_view(), concurrent: concurrent }),
        action matches Action::Stream(x)
            ==> action.deep_view() == ActionView::Stream(x.deep_view()),
        action matches Action::Finish(x)
            ==> action.deep_view() == ActionView::Finish(x.deep_view()),
        progress.deep_view().events == progress.events.deep_view(),
        progress.deep_view().action == progress.action.deep_view(),
{
}

} // verus!
