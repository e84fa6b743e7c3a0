//! The records that travel between the host and the library, and what they
//! hold: strings as character sequences, lists as sequences.
use vstd::prelude::*;

verus! {

/// Which backend serves a model. Cloud models run on ollama.com; local models
/// run against a user-configured Ollama server (default `127.0.0.1:11434`).
#[derive(Debug, Clone, Copy, PartialEq, Eq, Structural)]
pub enum Endpoint {
    Cloud,
    Local,
}

impl DeepView for Endpoint {
    type V = Endpoint;

    open spec fn deep_view(&self) -> Endpoint {
        *self
    }
}

/// A model listed from any backend. `endpoint` tells research routing which
/// host to send the turn to.
#[derive(Debug)]
pub struct ModelInfo {
    pub endpoint: Endpoint,
    pub name: String,
    pub parameter_size: String,
    pub capabilities: Vec<String>,
}

/// What a [`ModelInfo`] holds.
#[verifier::ext_equal]
pub struct ModelInfoView {
    pub endpoint: Endpoint,
    pub name: Seq<char>,
    pub parameter_size: Seq<char>,
    pub capabilities: Seq<Seq<char>>,
}

impl DeepView for ModelInfo {
    type V = ModelInfoView;

    open spec fn deep_view(&self) -> ModelInfoView {
        ModelInfoView {
            endpoint: self.endpoint.deep_view(),
            name: self.name.deep_view(),
            parameter_size: self.parameter_size.deep_view(),
            capabilities: self.capabilities.deep_view(),
        }
    }
}

impl Clone for ModelInfo {
    fn clone(&self) -> (r: Self)
        ensures
            r.deep_view() == self.deep_view(),
    {
        ModelInfo {
            endpoint: self.endpoint,
            name: self.name.clone(),
            parameter_size: self.parameter_size.clone(),
            capabilities: self.capabilities.clone(),
        }
    }
}

/// A chat model that Ollama Cloud lists.
#[derive(Debug)]
pub struct CloudModel {
    pub name: String,
    pub parameter_size: String,
    pub capabilities: Vec<String>,
}

/// What a [`CloudModel`] holds.
#[verifier::ext_equal]
pub struct CloudModelView {
    pub name: Seq<char>,
    pub parameter_size: Seq<char>,
    pub capabilities: Seq<Seq<char>>,
}

impl DeepView for CloudModel {
    type V = CloudModelView;

    open spec fn deep_view(&self) -> CloudModelView {
        CloudModelView {
            name: self.name.deep_view(),
            parameter_size: self.parameter_size.deep_view(),
            capabilities: self.capabilities.deep_view(),
        }
    }
}

impl Clone for CloudModel {
    fn clone(&self) -> (r: Self)
        ensures
            r.deep_view() == self.deep_view(),
    {
        CloudModel {
            name: self.name.clone(),
            parameter_size: self.parameter_size.clone(),
            capabilities: self.capabilities.clone(),
        }
    }
}

/// What the user has configured.
#[derive(Debug)]
pub struct AppSettings {
    pub api_key: String,
    pub model: String,
    pub vision_model: Option<String>,
    pub mode: String,
    /// Base URL of the local Ollama server (e.g. `http://192.168.1.10:11434`).
    pub local_base_url: String,
    /// Whether models of the local server are used for research.
    pub local_enabled: bool,
}

/// What an [`AppSettings`] holds.
#[verifier::ext_equal]
pub struct AppSettingsView {
    pub api_key: Seq<char>,
    pub model: Seq<char>,
    pub vision_model: Option<Seq<char>>,
    pub mode: Seq<char>,
    pub local_base_url: Seq<char>,
    pub local_enabled: bool,
}

impl DeepView for AppSettings {
    type V = AppSettingsView;

    open spec fn deep_view(&self) -> AppSettingsView {
        AppSettingsView {
            api_key: self.api_key.deep_view(),
            model: self.model.deep_view(),
            vision_model: self.vision_model.deep_view(),
            mode: self.mode.deep_view(),
            local_base_url: self.local_base_url.deep_view(),
            local_enabled: self.local_enabled.deep_view(),
        }
    }
}

impl Clone for AppSettings {
    fn clone(&self) -> (r: Self)
        ensures
            r.deep_view() == self.deep_view(),
    {
        AppSettings {
            api_key: self.api_key.clone(),
            model: self.model.clone(),
            vision_model: self.vision_model.clone(),
            mode: self.mode.clone(),
            local_base_url: self.local_base_url.clone(),
            local_enabled: self.local_enabled,
        }
    }
}

/// One earlier message of the conversation.
#[derive(Debug)]
pub struct HistoryEntry {
    pub role: String,
    pub content: String,
}

/// What a [`HistoryEntry`] holds.
#[verifier::ext_equal]
pub struct HistoryEntryView {
    pub role: Seq<char>,
    pub content: Seq<char>,
}

impl DeepView for HistoryEntry {
    type V = HistoryEntryView;

    open spec fn deep_view(&self) -> HistoryEntryView {
        HistoryEntryView {
            role: self.role.deep_view(),
            content: self.content.deep_view(),
        }
    }
}

impl Clone for HistoryEntry {
    fn clone(&self) -> (r: Self)
        ensures
            r.deep_view() == self.deep_view(),
    {
        HistoryEntry {
            role: self.role.clone(),
            content: self.content.clone(),
        }
    }
}

/// A page that web search or web fetch returned.
#[derive(Debug)]
pub struct SearchSource {
    pub title: String,
    pub url: String,
    pub content: String,
}

/// What a [`SearchSource`] holds.
#[verifier::ext_equal]
pub struct SearchSourceView {
    pub title: Seq<char>,
    pub url: Seq<char>,
    pub content: Seq<char>,
}

impl DeepView for SearchSource {
    type V = SearchSourceView;

    open spec fn deep_view(&self) -> SearchSourceView {
        SearchSourceView {
            title: self.title.deep_view(),
            url: self.url.deep_view(),
            content: self.content.deep_view(),
        }
    }
}

impl Clone for SearchSource {
    fn clone(&self) -> (r: Self)
        ensures
            r.deep_view() == self.deep_view(),
    {
        SearchSource {
            title: self.title.clone(),
            url: self.url.clone(),
            content: self.content.clone(),
        }
    }
}

/// One turn's model identity: composite id plus resolved endpoint, so callers
/// can label answers and route follow-ups.
#[derive(Debug)]
pub struct ModelResolution {
    pub model: String,
    pub endpoint: Endpoint,
}

/// What a [`ModelResolution`] holds.
#[verifier::ext_equal]
pub struct ModelResolutionView {
    pub model: Seq<char>,
    pub endpoint: Endpoint,
}

impl DeepView for ModelResolution {
    type V = ModelResolutionView;

    open spec fn deep_view(&self) -> ModelResolutionView {
        ModelResolutionView {
            model: self.model.deep_view(),
            endpoint: self.endpoint.deep_view(),
        }
    }
}

impl Clone for ModelResolution {
    fn clone(&self) -> (r: Self)
        ensures
            r.deep_view() == self.deep_view(),
    {
        ModelResolution {
            model: self.model.clone(),
            endpoint: self.endpoint,
        }
    }
}

/// The outcome of one research turn.
#[derive(Debug)]
pub struct ResearchResponse {
    pub message: String,
    pub sources: Vec<SearchSource>,
    pub model: String,
    pub thinking: String,
}

/// What a [`ResearchResponse`] holds.
#[verifier::ext_equal]
pub struct ResearchResponseView {
    pub message: Seq<char>,
    pub sources: Seq<SearchSourceView>,
    pub model: Seq<char>,
    pub thinking: Seq<char>,
}

impl DeepView for ResearchResponse {
    type V = ResearchResponseView;

    open spec fn deep_view(&self) -> ResearchResponseView {
        ResearchResponseView {
            message: self.message.deep_view(),
            sources: self.sources.deep_view(),
            model: self.model.deep_view(),
            thinking: self.thinking.deep_view(),
        }
    }
}

impl Clone for ResearchResponse {
    fn clone(&self) -> (r: Self)
        ensures
            r.deep_view() == self.deep_view(),
    {
        ResearchResponse {
            message: self.message.clone(),
            sources: self.sources.clone(),
            model: self.model.clone(),
            thinking: self.thinking.clone(),
        }
    }
}

/// The settings file: encrypted settings in base64.
#[derive(Debug)]
pub struct EncodedSettings {
    pub data: String,
}

/// What an [`EncodedSettings`] holds.
#[verifier::ext_equal]
pub struct EncodedSettingsView {
    pub data: Seq<char>,
}

impl DeepView for EncodedSettings {
    type V = EncodedSettingsView;

    open spec fn deep_view(&self) -> EncodedSettingsView {
        EncodedSettingsView {
            data: self.data.deep_view(),
        }
    }
}

impl Clone for EncodedSettings {
    fn clone(&self) -> (r: Self)
        ensures
            r.deep_view() == self.deep_view(),
    {
        EncodedSettings {
            data: self.data.clone(),
        }
    }
}

/// Live progress of a research turn.
#[derive(Debug)]
pub enum StreamEvent {
    /// Which pipeline stage is running right now.
    Phase { phase: String },
    /// Incremental reasoning trace (thinking-capable models only).
    ThinkingDelta { delta: String },
    /// Incremental answer text.
    AnswerDelta { delta: String },
    /// Final payload; answer and thinking are the complete strings.
    Done(ResearchResponse),
}

/// What a [`StreamEvent`] holds.
#[verifier::ext_equal]
pub enum StreamEventView {
    Phase { phase: Seq<char> },
    ThinkingDelta { delta: Seq<char> },
    AnswerDelta { delta: Seq<char> },
    Done(ResearchResponseView),
}

impl DeepView for StreamEvent {
    type V = StreamEventView;

    open spec fn deep_view(&self) -> StreamEventView {
        match self {
            StreamEvent::Phase { phase } => StreamEventView::Phase { phase: phase@ },
            StreamEvent::ThinkingDelta { delta } => StreamEventView::ThinkingDelta {
                delta: delta@,
            },
            StreamEvent::AnswerDelta { delta } => StreamEventView::AnswerDelta { delta: delta@ },
            StreamEvent::Done(response) => StreamEventView::Done(response.deep_view()),
        }
    }
}

/// The views hold what the records hold, field by field.
pub proof fn views_hold_what_is_there(
    endpoint: Endpoint,
    model_info: ModelInfo,
    cloud_model: CloudModel,
    app_settings: AppSettings,
    history_entry: HistoryEntry,
    search_source: SearchSource,
    model_resolution: ModelResolution,
    research_response: ResearchResponse,
    encoded_settings: EncodedSettings,
    stream_event: StreamEvent,
)
    ensures
        endpoint.deep_view() == endpoint,
        model_info.deep_view().endpoint == model_info.endpoint,
        model_info.deep_view().name == model_info.name@,
        model_info.deep_view().parameter_size == model_info.parameter_size@,
        model_info.deep_view().capabilities == model_info.capabilities.deep_view(),
        cloud_model.deep_view().name == cloud_model.name@,
        cloud_model.deep_view().parameter_size == cloud_model.parameter_size@,
        cloud_model.deep_view().capabilities == cloud_model.capabilities.deep_view(),
        app_settings.deep_view().api_key == app_settings.api_key@,
        app_settings.deep_view().model == app_settings.model@,
        app_settings.deep_view().vision_model == app_settings.vision_model.deep_view(),
        app_settings.deep_view().mode == app_settings.mode@,
        app_settings.deep_view().local_base_url == app_settings.local_base_url@,
        app_settings.deep_view().local_enabled == app_settings.local_enabled,
        history_entry.deep_view().role == history_entry.role@,
        history_entry.deep_view().content == history_entry.content@,
        search_source.deep_view().title == search_source.title@,
        search_source.deep_view().url == search_source.url@,
        search_source.deep_view().content == search_source.content@,
        model_resolution.deep_view().model == model_resolution.model@,
        model_resolution.deep_view().endpoint == model_resolution.endpoint,
        research_response.deep_view().message == research_response.message@,
        research_response.deep_view().sources == research_response.sources.deep_view(),
        research_response.deep_view().model == research_response.model@,
        research_response.deep_view().thinking == research_response.thinking@,
        encoded_settings.deep_view().data == encoded_settings.data@,
        stream_event matches StreamEvent::Phase { phase }
            ==> stream_event.deep_view() == (StreamEventView::Phase { phase: phase@ }),
        stream_event matches StreamEvent::ThinkingDelta { delta }
            ==> stream_event.deep_view() == (StreamEventView::ThinkingDelta { delta: delta@ }),
        stream_event matches StreamEvent::AnswerDelta { delta }
            ==> stream_event.deep_view() == (StreamEventView::AnswerDelta { delta: delta@ }),
        stream_event matches StreamEvent::Done(x)
            ==> stream_event.deep_view() == StreamEventView::Done(x.deep_view()),
{
}

} // verus!
