//! Which model answers a turn.
use crate::errors;
use crate::errors::ResearchError;
use crate::lists;
use crate::models;
use crate::records;
use crate::records::{AppSettings, CloudModel, Endpoint, ModelInfo};
use crate::text;
use std::sync::Arc;
use vstd::prelude::*;
use vstd::string::StringExecFns;

verus! {

/// Whoever asks a cloud model: the key that the requests carry and the model
/// that answers.
#[derive(Debug)]
pub struct ResearchClient {
    pub api_key: String,
    pub model: String,
}

/// What a [`ResearchClient`] holds.
#[verifier::ext_equal]
pub struct ResearchClientView {
    pub api_key: Seq<char>,
    pub model: Seq<char>,
}

impl DeepView for ResearchClient {
    type V = ResearchClientView;

    open spec fn deep_view(&self) -> ResearchClientView {
        ResearchClientView { api_key: self.api_key@, model: self.model@ }
    }
}

/// The client for a key and a model: neither may be blank, and the key is
/// trimmed.
pub open spec fn new_client(api_key: Seq<char>, model: Seq<char>) -> Result<
    ResearchClientView,
    errors::ResearchErrorView,
> {
    if text::trimmed(api_key).len() == 0 {
        Err(errors::ResearchErrorView::InvalidConfig("the API key cannot be empty"@))
    } else if text::trimmed(model).len() == 0 {
        Err(errors::ResearchErrorView::InvalidConfig("select a model"@))
    } else {
        Ok(ResearchClientView { api_key: text::trimmed(api_key), model })
    }
}

impl ResearchClient {
    /// A client for the given key and model.
    pub fn new(api_key: String, model: String) -> (r: Result<Arc<Self>, ResearchError>)
        ensures
            errors::outcome(r) == new_client(api_key@, model@),
    {
        let key = text::trim(&api_key);
        if key.as_str().is_empty() {
            return Err(ResearchError::InvalidConfig("the API key cannot be empty".to_owned()));
        }
        if text::is_blank(&model) {
            return Err(ResearchError::InvalidConfig("select a model".to_owned()));
        }
        Ok(Arc::new(Self::from_parts(key, model)))
    }

    fn from_parts(api_key: String, model: String) -> (r: Self)
        ensures
            r.deep_view() == (ResearchClientView { api_key: api_key@, model: model@ }),
    {
        ResearchClient { api_key, model }
    }

    /// Build a client from stored settings without key validation: local
    /// Ollama turns never need a cloud key. Callers must still ensure a
    /// model is configured.
    pub fn for_shell(settings: &AppSettings) -> (r: Self)
        ensures
            r.deep_view() == (ResearchClientView {
                api_key: settings.api_key@,
                model: settings.model@,
            }),
    {
        ResearchClient { api_key: settings.api_key.clone(), model: settings.model.clone() }
    }
}

/// A resolved model plus the client used to reach it, where it is a cloud
/// model.
#[derive(Debug)]
pub struct ResolvedClient {
    pub model_name: String,
    pub endpoint: Endpoint,
    pub cloud: Option<ResearchClient>,
}

/// What a [`ResolvedClient`] holds.
#[verifier::ext_equal]
pub struct ResolvedClientView {
    pub model_name: Seq<char>,
    pub endpoint: Endpoint,
    pub cloud: Option<ResearchClientView>,
}

impl DeepView for ResolvedClient {
    type V = ResolvedClientView;

    open spec fn deep_view(&self) -> ResolvedClientView {
        ResolvedClientView {
            model_name: self.model_name@,
            endpoint: self.endpoint,
            cloud: self.cloud.deep_view(),
        }
    }
}

/// The client for the model with the given composite id. A cloud model needs an
/// API key, a local one does not.
pub open spec fn resolved(
    settings: records::AppSettingsView,
    model_id: Seq<char>,
) -> Result<ResolvedClientView, errors::ResearchErrorView> {
    let (endpoint, name) = models::parsed_model_id(model_id);
    let key = text::trimmed(settings.api_key);
    if text::trimmed(name).len() == 0 {
        Err(errors::ResearchErrorView::InvalidConfig("select a model"@))
    } else if endpoint == Endpoint::Local {
        Ok(ResolvedClientView { model_name: name, endpoint, cloud: None })
    } else if key.len() == 0 {
        Err(
            errors::ResearchErrorView::InvalidConfig(
                "this model runs on Ollama Cloud; add your API key in Settings"@,
            ),
        )
    } else {
        Ok(
            ResolvedClientView {
                model_name: name,
                endpoint,
                cloud: Some(ResearchClientView { api_key: key, model: name }),
            },
        )
    }
}

impl ResolvedClient {
    /// The client for the model with the given composite id.
    pub fn from(settings: &AppSettings, model_id: &str) -> (r: Result<Self, ResearchError>)
        ensures
            errors::outcome(r) == resolved(settings.deep_view(), model_id@),
    {
        let (endpoint, name) = models::decode_model_id(model_id);
        if text::is_blank(&name) {
            return Err(ResearchError::InvalidConfig("select a model".to_owned()));
        }
        match endpoint {
            Endpoint::Cloud => {
                let key = text::trim(&settings.api_key);
                if key.as_str().is_empty() {
                    return Err(
                        ResearchError::InvalidConfig(
                            "this model runs on Ollama Cloud; add your API key in Settings".to_owned(),
                        ),
                    );
                }
                Ok(
                    ResolvedClient {
                        model_name: name.clone(),
                        endpoint,
                        cloud: Some(ResearchClient::from_parts(key, name)),
                    },
                )
            },
            Endpoint::Local => Ok(ResolvedClient { model_name: name, endpoint, cloud: None }),
        }
    }
}

/// A cloud model is reached with a client that has a key and asks for this
/// model; a local model is reached without any.
pub proof fn cloud_models_come_with_a_keyed_client(
    settings: records::AppSettingsView,
    model_id: Seq<char>,
)
    ensures
        resolved(settings, model_id) matches Ok(found) ==> {
            &&& found.cloud is Some <==> found.endpoint == Endpoint::Cloud
            &&& found.cloud matches Some(client) ==> client.api_key.len() > 0 && client.model
                == found.model_name
        },
{
}

/// Whether a cloud model has the given name.
pub open spec fn cloud_named(name: Seq<char>) -> spec_fn(records::CloudModelView) -> bool {
    |m: records::CloudModelView| m.name == name
}

/// Whether a cloud model advertises vision.
pub open spec fn cloud_sees() -> spec_fn(records::CloudModelView) -> bool {
    |m: records::CloudModelView| models::sees(m.capabilities)
}

/// Whether the first known model with the given name advertises vision.
pub open spec fn known_to_see(known: Seq<records::CloudModelView>, name: Seq<char>) -> bool {
    lists::first_where(known, cloud_named(name)) matches Some(m) && models::sees(m.capabilities)
}

/// The error where images come with the question and no cloud model can see.
pub open spec fn no_cloud_vision(primary: Seq<char>) -> errors::ResearchErrorView {
    errors::ResearchErrorView::InvalidConfig(
        "the selected model ("@ + primary
            + ") does not support images and no vision-capable cloud model is available; choose a vision model in Settings"@,
    )
}

/// The model that handles images: the primary model if it advertises vision;
/// else the configured fallback if it does; else the first known model that
/// does.
pub open spec fn vision_choice(
    primary: Seq<char>,
    fallback: Option<Seq<char>>,
    known: Seq<records::CloudModelView>,
) -> Result<Seq<char>, errors::ResearchErrorView> {
    if known_to_see(known, primary) {
        Ok(primary)
    } else if fallback matches Some(name) && text::trimmed(name).len() > 0 && known_to_see(
        known,
        name,
    ) {
        Ok(fallback->0)
    } else {
        match lists::first_where(known, cloud_sees()) {
            Some(m) => Ok(m.name),
            None => Err(no_cloud_vision(primary)),
        }
    }
}

/// The first known model with the given name.
pub fn find_cloud_model<'a>(known: &'a [CloudModel], name: &str) -> (r: Option<&'a CloudModel>)
    ensures
        r.deep_view() == lists::first_where(known.deep_view(), cloud_named(name@)),
{
    for i in 0..known.len()
        invariant
            forall|j: int| 0 <= j < i ==> !cloud_named(name@)(#[trigger] known.deep_view()[j]),
    {
        if text::same_text(&known[i].name, name) {
            proof {
                lists::lemma_first_where(known.deep_view(), cloud_named(name@), i as int);
            }
            return Some(&known[i]);
        }
    }
    proof {
        lists::lemma_first_where(known.deep_view(), cloud_named(name@), known@.len() as int);
    }
    None
}

/// Whether the first known model with the given name advertises vision.
fn is_known_to_see(known: &[CloudModel], name: &str) -> (r: bool)
    ensures
        r == known_to_see(known.deep_view(), name@),
{
    match find_cloud_model(known, name) {
        Some(model) => model.supports_vision(),
        None => false,
    }
}

/// Pick a model that can handle image input.
///
/// Preference order (all decisions are based on capabilities reported by
/// Ollama's `/api/show`; there is no name guessing, which would risk silently
/// sending images to a text-only model):
///   1. The primary model, if it advertises `vision`.
///   2. The user-configured fallback model, if it advertises `vision`.
///   3. The first known model advertising `vision`.
///
/// If nothing supports vision, a clear error is returned so the caller can
/// tell the user instead of dropping the images.
pub fn choose_vision_model(
    primary: &str,
    fallback: &Option<String>,
    known: &[CloudModel],
) -> (r: Result<String, ResearchError>)
    ensures
        errors::outcome(r) == vision_choice(primary@, fallback.deep_view(), known.deep_view()),
{
    if is_known_to_see(known, primary) {
        return Ok(primary.to_owned());
    }
    if let Some(name) = fallback {
        if !text::is_blank(name) && is_known_to_see(known, name) {
            return Ok(name.clone());
        }
    }
    for i in 0..known.len()
        invariant
            forall|j: int| 0 <= j < i ==> !cloud_sees()(#[trigger] known.deep_view()[j]),
            !known_to_see(known.deep_view(), primary@),
            !(fallback.deep_view() matches Some(name) && text::trimmed(name).len() > 0
                && known_to_see(known.deep_view(), name)),
    {
        if known[i].supports_vision() {
            proof {
                lists::lemma_first_where(known.deep_view(), cloud_sees(), i as int);
            }
            return Ok(known[i].name.clone());
        }
    }
    proof {
        lists::lemma_first_where(known.deep_view(), cloud_sees(), known@.len() as int);
    }
    let mut detail = text::join("the selected model (", primary);
    detail.append(
        ") does not support images and no vision-capable cloud model is available; choose a vision model in Settings",
    );
    Err(ResearchError::InvalidConfig(detail))
}

/// Images go to a known model that advertises vision, or nowhere: the choice
/// fails exactly where no known model advertises it.
pub proof fn images_reach_a_seeing_model_or_an_error(
    primary: Seq<char>,
    fallback: Option<Seq<char>>,
    known: Seq<records::CloudModelView>,
)
    ensures
        vision_choice(primary, fallback, known) matches Ok(name) ==> exists|i: int|
            0 <= i < known.len() && (#[trigger] known[i]).name == name && models::sees(
                known[i].capabilities,
            ),
        vision_choice(primary, fallback, known) is Err <==> forall|i: int|
            0 <= i < known.len() ==> !models::sees((#[trigger] known[i]).capabilities),
{
    lists::lemma_first_where_found(known, cloud_named(primary));
    lists::lemma_first_where_found(known, cloud_sees());
    if let Some(name) = fallback {
        lists::lemma_first_where_found(known, cloud_named(name));
    }
    if vision_choice(primary, fallback, known) is Ok {
        let m = if known_to_see(known, primary) {
            lists::first_where(known, cloud_named(primary))->0
        } else if fallback matches Some(name) && text::trimmed(name).len() > 0 && known_to_see(
            known,
            name,
        ) {
            lists::first_where(known, cloud_named(fallback->0))->0
        } else {
            lists::first_where(known, cloud_sees())->0
        };
        let i = choose|i: int| 0 <= i < known.len() && known[i] == m;
        assert(models::sees(known[i].capabilities));
    } else {
        assert forall|i: int| 0 <= i < known.len() implies !models::sees(
            (#[trigger] known[i]).capabilities,
        ) by {
            assert(!cloud_sees()(known[i]));
        }
    }
}

/// Whether a model on the endpoint advertises vision.
pub open spec fn sees_on(endpoint: Endpoint) -> spec_fn(records::ModelInfoView) -> bool {
    |m: records::ModelInfoView| m.endpoint == endpoint && models::sees(m.capabilities)
}

/// Whether a model is the named one on the endpoint and advertises vision.
pub open spec fn sees_named(endpoint: Endpoint, name: Seq<char>) -> spec_fn(
    records::ModelInfoView,
) -> bool {
    |m: records::ModelInfoView|
        m.endpoint == endpoint && m.name == name && models::sees(m.capabilities)
}

/// The name of the configured vision fallback, where one is configured for the
/// endpoint.
pub open spec fn fallback_on(settings: records::AppSettingsView, endpoint: Endpoint) -> Option<
    Seq<char>,
> {
    match settings.vision_model {
        Some(id) => if text::trimmed(id).len() > 0 && models::parsed_model_id(id).0 == endpoint {
            Some(models::parsed_model_id(id).1)
        } else {
            None
        },
        None => None,
    }
}

/// The model on the endpoint that takes images in place of the primary one:
/// the configured fallback if it is known to advertise vision, else the first
/// known model that does.
pub open spec fn substitute_on(
    endpoint: Endpoint,
    settings: records::AppSettingsView,
    known: Seq<records::ModelInfoView>,
) -> Option<Seq<char>> {
    match fallback_on(settings, endpoint) {
        Some(name) => if lists::first_where(known, sees_named(endpoint, name)) is Some {
            Some(name)
        } else {
            first_seeing(endpoint, known)
        },
        None => first_seeing(endpoint, known),
    }
}

/// The name of the first known model on the endpoint that advertises vision.
pub open spec fn first_seeing(endpoint: Endpoint, known: Seq<records::ModelInfoView>) -> Option<
    Seq<char>,
> {
    match lists::first_where(known, sees_on(endpoint)) {
        Some(m) => Some(m.name),
        None => None,
    }
}

/// The other endpoint.
pub open spec fn other_endpoint(endpoint: Endpoint) -> Endpoint {
    match endpoint {
        Endpoint::Cloud => Endpoint::Local,
        Endpoint::Local => Endpoint::Cloud,
    }
}

/// Whether turns may be moved to the endpoint: the cloud needs an API key, the
/// local server has to be enabled.
pub open spec fn usable(endpoint: Endpoint, settings: records::AppSettingsView) -> bool {
    match endpoint {
        Endpoint::Cloud => text::trimmed(settings.api_key).len() > 0,
        Endpoint::Local => settings.local_enabled,
    }
}

/// The endpoint and the name of the model that answers: the primary model where
/// there are no images or where it advertises vision; else a substitute on the
/// same endpoint; else, where the other endpoint is usable, a substitute there.
pub open spec fn turn_choice(
    endpoint: Endpoint,
    name: Seq<char>,
    settings: records::AppSettingsView,
    with_images: bool,
    known: Seq<records::ModelInfoView>,
) -> Option<(Endpoint, Seq<char>)> {
    let other = other_endpoint(endpoint);
    if !with_images || lists::first_where(known, sees_named(endpoint, name)) is Some {
        Some((endpoint, name))
    } else if substitute_on(endpoint, settings, known) is Some {
        Some((endpoint, substitute_on(endpoint, settings, known)->0))
    } else if usable(other, settings) && substitute_on(other, settings, known) is Some {
        Some((other, substitute_on(other, settings, known)->0))
    } else {
        None
    }
}

/// The error where images come with the question and no model can see.
pub open spec fn no_vision(primary: Seq<char>) -> errors::ResearchErrorView {
    errors::ResearchErrorView::InvalidConfig(
        "the selected model ("@ + primary
            + ") does not support images and no vision-capable model is available; choose a vision model in Settings"@,
    )
}

/// The client for the model that answers the turn.
pub open spec fn turn_model(
    endpoint: Endpoint,
    name: Seq<char>,
    settings: records::AppSettingsView,
    with_images: bool,
    known: Seq<records::ModelInfoView>,
) -> Result<ResolvedClientView, errors::ResearchErrorView> {
    match turn_choice(endpoint, name, settings, with_images, known) {
        Some((e, n)) => resolved(settings, models::model_id(e, n)),
        None => Err(no_vision(name)),
    }
}

/// Whether a model of that name on the endpoint is known to advertise vision.
fn is_seeing_named(known: &[ModelInfo], endpoint: Endpoint, name: &str) -> (r: bool)
    ensures
        r == (lists::first_where(known.deep_view(), sees_named(endpoint, name@)) is Some),
{
    let ghost p = sees_named(endpoint, name@);
    for i in 0..known.len()
        invariant
            p == sees_named(endpoint, name@),
            forall|j: int| 0 <= j < i ==> !p(#[trigger] known.deep_view()[j]),
    {
        if known[i].endpoint == endpoint && text::same_text(&known[i].name, name)
            && known[i].supports_vision() {
            proof {
                lists::lemma_first_where(known.deep_view(), p, i as int);
            }
            return true;
        }
    }
    proof {
        lists::lemma_first_where(known.deep_view(), p, known@.len() as int);
    }
    false
}

/// The model on the endpoint that takes images in place of the primary one.
fn find_substitute(endpoint: Endpoint, settings: &AppSettings, known: &[ModelInfo]) -> (r: Option<
    String,
>)
    ensures
        r.deep_view() == substitute_on(endpoint, settings.deep_view(), known.deep_view()),
{
    if let Some(id) = &settings.vision_model {
        if !text::is_blank(id) {
            let (fallback_endpoint, fallback) = models::decode_model_id(id);
            if fallback_endpoint == endpoint && is_seeing_named(known, endpoint, &fallback) {
                return Some(fallback);
            }
        }
    }
    let ghost p = sees_on(endpoint);
    for i in 0..known.len()
        invariant
            p == sees_on(endpoint),
            substitute_on(endpoint, settings.deep_view(), known.deep_view()) == first_seeing(
                endpoint,
                known.deep_view(),
            ),
            forall|j: int| 0 <= j < i ==> !p(#[trigger] known.deep_view()[j]),
    {
        if known[i].endpoint == endpoint && known[i].supports_vision() {
            proof {
                lists::lemma_first_where(known.deep_view(), p, i as int);
            }
            return Some(known[i].name.clone());
        }
    }
    proof {
        lists::lemma_first_where(known.deep_view(), p, known@.len() as int);
    }
    None
}

/// Pick the endpoint and model for this turn: images route to a vision-capable
/// model on the same endpoint (or the other endpoint when the primary side
/// has none), text turns stay on the primary model. Among the models of an
/// endpoint the main model comes first, then the configured vision fallback.
pub fn resolve_turn_model(
    primary_endpoint: Endpoint,
    primary_name: &str,
    settings: &AppSettings,
    images: &[String],
    known: &[ModelInfo],
) -> (r: Result<ResolvedClient, ResearchError>)
    ensures
        errors::outcome(r) == turn_model(
            primary_endpoint,
            primary_name@,
            settings.deep_view(),
            images@.len() > 0,
            known.deep_view(),
        ),
{
    if images.len() == 0 || is_seeing_named(known, primary_endpoint, primary_name) {
        return ResolvedClient::from(
            settings,
            &models::encode_model_id(primary_endpoint, primary_name),
        );
    }
    if let Some(name) = find_substitute(primary_endpoint, settings, known) {
        return ResolvedClient::from(settings, &models::encode_model_id(primary_endpoint, &name));
    }
    let other = match primary_endpoint {
        Endpoint::Cloud => Endpoint::Local,
        Endpoint::Local => Endpoint::Cloud,
    };
    let other_usable = match other {
        Endpoint::Cloud => !text::is_blank(&settings.api_key),
        Endpoint::Local => settings.local_enabled,
    };
    if other_usable {
        if let Some(name) = find_substitute(other, settings, known) {
            return ResolvedClient::from(settings, &models::encode_model_id(other, &name));
        }
    }
    let mut detail = text::join("the selected model (", primary_name);
    detail.append(
        ") does not support images and no vision-capable model is available; choose a vision model in Settings",
    );
    Err(ResearchError::InvalidConfig(detail))
}

/// A text turn is answered by the primary model, whatever other models are
/// known.
pub proof fn text_turns_stay_on_the_primary_model(
    endpoint: Endpoint,
    name: Seq<char>,
    settings: records::AppSettingsView,
    known: Seq<records::ModelInfoView>,
)
    ensures
        turn_choice(endpoint, name, settings, false, known) == Some((endpoint, name)),
        turn_model(endpoint, name, settings, false, known) matches Ok(client) ==> client.endpoint
            == endpoint && client.model_name == name,
{
    models::decoding_undoes_encoding(endpoint, name);
}

/// A turn with images is answered by a known model that advertises vision, on
/// the primary endpoint or on another one that is usable, or by an error.
pub proof fn image_turns_go_to_a_seeing_model(
    endpoint: Endpoint,
    name: Seq<char>,
    settings: records::AppSettingsView,
    known: Seq<records::ModelInfoView>,
)
    ensures
        turn_model(endpoint, name, settings, true, known) matches Ok(client) ==> {
            &&& client.endpoint == endpoint || usable(client.endpoint, settings)
            &&& exists|i: int|
                0 <= i < known.len() && (#[trigger] known[i]).endpoint == client.endpoint
                    && known[i].name == client.model_name && models::sees(known[i].capabilities)
        },
{
    if let Some((e, n)) = turn_choice(endpoint, name, settings, true, known) {
        models::decoding_undoes_encoding(e, n);
        lists::lemma_first_where_found(known, sees_named(e, n));
        lists::lemma_first_where_found(known, sees_on(e));
        let m = if lists::first_where(known, sees_named(e, n)) is Some {
            lists::first_where(known, sees_named(e, n))->0
        } else {
            lists::first_where(known, sees_on(e))->0
        };
        let i = choose|i: int| 0 <= i < known.len() && known[i] == m;
        assert(known[i].name == n);
    }
}

/// Where the primary model is not known to advertise vision and the fallback
/// that is configured for its endpoint is, images go to the fallback.
pub proof fn the_configured_fallback_comes_next(
    endpoint: Endpoint,
    name: Seq<char>,
    fallback: Seq<char>,
    settings: records::AppSettingsView,
    known: Seq<records::ModelInfoView>,
    i: int,
)
    requires
        forall|j: int|
            0 <= j < known.len() ==> !sees_named(endpoint, name)(#[trigger] known[j]),
        text::trimmed(fallback).len() > 0,
        settings.vision_model == Some(models::model_id(endpoint, fallback)),
        0 <= i < known.len(),
        sees_named(endpoint, fallback)(known[i]),
    ensures
        turn_choice(endpoint, name, settings, true, known) == Some((endpoint, fallback)),
{
    models::decoding_undoes_encoding(endpoint, fallback);
    lists::lemma_first_where_found(known, sees_named(endpoint, name));
    lists::lemma_first_where_found(known, sees_named(endpoint, fallback));
    let id = models::model_id(endpoint, fallback);
    assert(text::trimmed(id).len() > 0) by {
        reveal_strlit("cloud:");
        reveal_strlit("local:");
        assert(!text::white_space(id[0]));
        text::lemma_not_blank(id);
    }
}

/// Where some known model on the primary endpoint advertises vision, images
/// stay on that endpoint; they go to the primary model if it is among those.
pub proof fn images_stay_on_a_seeing_endpoint(
    endpoint: Endpoint,
    name: Seq<char>,
    settings: records::AppSettingsView,
    known: Seq<records::ModelInfoView>,
    i: int,
)
    requires
        0 <= i < known.len(),
        known[i].endpoint == endpoint,
        models::sees(known[i].capabilities),
    ensures
        turn_choice(endpoint, name, settings, true, known) matches Some(choice) && choice.0
            == endpoint,
        known[i].name == name ==> turn_choice(endpoint, name, settings, true, known) == Some(
            (endpoint, name),
        ),
{
    lists::lemma_first_where_found(known, sees_on(endpoint));
    lists::lemma_first_where_found(known, sees_named(endpoint, name));
    assert(sees_on(endpoint)(known[i]));
    if known[i].name == name {
        assert(sees_named(endpoint, name)(known[i]));
    }
}

/// A main model that advertises vision keeps the images, whatever the fallback
/// is. Of several known models of one name the first counts.
pub proof fn a_seeing_main_model_keeps_the_images(
    primary: Seq<char>,
    fallback: Option<Seq<char>>,
    known: Seq<records::CloudModelView>,
    i: int,
)
    requires
        0 <= i < known.len(),
        known[i].name == primary,
        known[i].capabilities.contains("vision"@),
        forall|j: int| 0 <= j < i ==> (#[trigger] known[j]).name != primary,
    ensures
        vision_choice(primary, fallback, known) == Ok::<_, errors::ResearchErrorView>(primary),
{
    lists::lemma_first_where(known, cloud_named(primary), i);
}

/// Where the main model is not known to advertise vision, the images go to the
/// fallback, if that is not blank and advertises vision.
pub proof fn a_seeing_fallback_takes_the_images_next(
    primary: Seq<char>,
    fallback: Seq<char>,
    known: Seq<records::CloudModelView>,
    i: int,
)
    requires
        forall|j: int|
            0 <= j < known.len() && (#[trigger] known[j]).name == primary && (forall|k: int|
                0 <= k < j ==> (#[trigger] known[k]).name != primary)
                ==> !known[j].capabilities.contains("vision"@),
        text::trimmed(fallback).len() > 0,
        0 <= i < known.len(),
        known[i].name == fallback,
        known[i].capabilities.contains("vision"@),
        forall|j: int| 0 <= j < i ==> (#[trigger] known[j]).name != fallback,
    ensures
        vision_choice(primary, Some(fallback), known) == Ok::<_, errors::ResearchErrorView>(
            fallback,
        ),
{
    lemma_not_known_to_see(known, primary);
    lists::lemma_first_where(known, cloud_named(fallback), i);
}

/// Where neither the main model nor the fallback is known to advertise vision,
/// the images go to the first known model that does.
pub proof fn the_first_seeing_model_takes_the_images_last(
    primary: Seq<char>,
    fallback: Option<Seq<char>>,
    known: Seq<records::CloudModelView>,
    i: int,
)
    requires
        forall|j: int|
            0 <= j < known.len() && (#[trigger] known[j]).name == primary && (forall|k: int|
                0 <= k < j ==> (#[trigger] known[k]).name != primary)
                ==> !known[j].capabilities.contains("vision"@),
        fallback matches Some(name) ==> text::trimmed(name).len() == 0 || forall|j: int|
            0 <= j < known.len() && (#[trigger] known[j]).name == name && (forall|k: int|
                0 <= k < j ==> (#[trigger] known[k]).name != name)
                ==> !known[j].capabilities.contains("vision"@),
        0 <= i < known.len(),
        known[i].capabilities.contains("vision"@),
        forall|j: int|
            0 <= j < i ==> !(#[trigger] known[j]).capabilities.contains("vision"@),
    ensures
        vision_choice(primary, fallback, known) == Ok::<_, errors::ResearchErrorView>(
            known[i].name,
        ),
{
    lemma_not_known_to_see(known, primary);
    if let Some(name) = fallback {
        if text::trimmed(name).len() > 0 {
            lemma_not_known_to_see(known, name);
        }
    }
    lists::lemma_first_where(known, cloud_sees(), i);
}

/// Where no known model advertises vision, the error names the main model.
pub proof fn images_without_a_seeing_model_are_an_error(
    primary: Seq<char>,
    fallback: Option<Seq<char>>,
    known: Seq<records::CloudModelView>,
)
    requires
        forall|j: int|
            0 <= j < known.len() ==> !(#[trigger] known[j]).capabilities.contains("vision"@),
    ensures
        vision_choice(primary, fallback, known) == Err::<Seq<char>, _>(
            errors::ResearchErrorView::InvalidConfig(
                "the selected model ("@ + primary
                    + ") does not support images and no vision-capable cloud model is available; choose a vision model in Settings"@,
            ),
        ),
{
    images_reach_a_seeing_model_or_an_error(primary, fallback, known);
}

/// A name is not known to see where the first model of that name does not
/// advertise vision.
proof fn lemma_not_known_to_see(known: Seq<records::CloudModelView>, name: Seq<char>)
    requires
        forall|j: int|
            0 <= j < known.len() && (#[trigger] known[j]).name == name && (forall|k: int|
                0 <= k < j ==> (#[trigger] known[k]).name != name)
                ==> !known[j].capabilities.contains("vision"@),
    ensures
        !known_to_see(known, name),
{
    let p = cloud_named(name);
    if lists::first_where(known, p) is Some {
        let j = lemma_first_index(known, p);
        assert(known[j].name == name);
        assert forall|k: int| 0 <= k < j implies (#[trigger] known[k]).name != name by {
            assert(!p(known[k]));
        }
        lists::lemma_first_where(known, p, j);
    }
}

/// Where the first item that satisfies a condition stands.
proof fn lemma_first_index<T>(s: Seq<T>, p: spec_fn(T) -> bool) -> (i: int)
    requires
        lists::first_where(s, p) is Some,
    ensures
        0 <= i < s.len(),
        p(s[i]),
        forall|j: int| 0 <= j < i ==> !p(#[trigger] s[j]),
    decreases s.len(),
{
    if p(s[0]) {
        0
    } else {
        let t = s.drop_first();
        let i = lemma_first_index(t, p);
        assert forall|j: int| 0 <= j < i + 1 implies !p(#[trigger] s[j]) by {
            if j > 0 {
                assert(s[j] == t[j - 1]);
            }
        }
        i + 1
    }
}

/// A client has the key without white space around it and the model as given;
/// a blank key is refused first, then a blank model.
pub proof fn a_client_has_its_key_and_its_model(api_key: Seq<char>, model: Seq<char>)
    ensures
        text::trimmed(api_key).len() == 0 ==> new_client(api_key, model) == Err::<
            ResearchClientView,
            _,
        >(errors::ResearchErrorView::InvalidConfig("the API key cannot be empty"@)),
        text::trimmed(api_key).len() > 0 && text::trimmed(model).len() == 0 ==> new_client(
            api_key,
            model,
        ) == Err::<ResearchClientView, _>(
            errors::ResearchErrorView::InvalidConfig("select a model"@),
        ),
        text::trimmed(api_key).len() > 0 && text::trimmed(model).len() > 0 ==> {
            &&& new_client(api_key, model) is Ok
            &&& new_client(api_key, model)->Ok_0.api_key == text::trimmed(api_key)
            &&& new_client(api_key, model)->Ok_0.model == model
        },
{
}

/// A model is reached under its own name: a local one without a client, a cloud
/// one with the trimmed key. A blank name is refused, and so is a cloud model
/// without a key.
pub proof fn a_model_is_reached_under_its_own_name(
    settings: records::AppSettingsView,
    endpoint: Endpoint,
    name: Seq<char>,
)
    ensures
        ({
            let found = resolved(settings, models::model_id(endpoint, name));
            let key = text::trimmed(settings.api_key);
            &&& text::trimmed(name).len() == 0 ==> found == Err::<ResolvedClientView, _>(
                errors::ResearchErrorView::InvalidConfig("select a model"@),
            )
            &&& text::trimmed(name).len() > 0 && endpoint == Endpoint::Cloud && key.len() == 0
                ==> found == Err::<ResolvedClientView, _>(
                errors::ResearchErrorView::InvalidConfig(
                    "this model runs on Ollama Cloud; add your API key in Settings"@,
                ),
            )
            &&& text::trimmed(name).len() > 0 && (endpoint == Endpoint::Local || key.len() > 0)
                ==> {
                &&& found is Ok
                &&& found->Ok_0.model_name == name
                &&& found->Ok_0.endpoint == endpoint
                &&& endpoint == Endpoint::Local ==> found->Ok_0.cloud is None
                &&& endpoint == Endpoint::Cloud ==> {
                    &&& found->Ok_0.cloud is Some
                    &&& found->Ok_0.cloud->0.api_key == key
                    &&& found->Ok_0.cloud->0.model == name
                }
            }
        }),
{
    models::decoding_undoes_encoding(endpoint, name);
}

/// The chosen model answers, under the rules by which any model is reached.
pub proof fn the_chosen_model_answers(
    endpoint: Endpoint,
    name: Seq<char>,
    settings: records::AppSettingsView,
    with_images: bool,
    known: Seq<records::ModelInfoView>,
)
    ensures
        turn_choice(endpoint, name, settings, with_images, known) matches Some(choice)
            ==> turn_model(endpoint, name, settings, with_images, known) == resolved(
            settings,
            models::model_id(choice.0, choice.1),
        ),
        turn_choice(endpoint, name, settings, with_images, known) is None ==> turn_model(
            endpoint,
            name,
            settings,
            with_images,
            known,
        ) == Err::<ResolvedClientView, _>(
            errors::ResearchErrorView::InvalidConfig(
                "the selected model ("@ + name
                    + ") does not support images and no vision-capable model is available; choose a vision model in Settings"@,
            ),
        ),
{
}

/// A main model that is known to advertise vision on its endpoint keeps the
/// images, whatever else is configured or known.
pub proof fn a_seeing_main_model_answers_image_turns(
    endpoint: Endpoint,
    name: Seq<char>,
    settings: records::AppSettingsView,
    known: Seq<records::ModelInfoView>,
    i: int,
)
    requires
        0 <= i < known.len(),
        known[i].endpoint == endpoint,
        known[i].name == name,
        known[i].capabilities.contains("vision"@),
    ensures
        turn_choice(endpoint, name, settings, true, known) == Some((endpoint, name)),
{
    images_stay_on_a_seeing_endpoint(endpoint, name, settings, known, i);
}

/// Where the main model is not known to advertise vision on its endpoint, and
/// the fallback that is configured there is, the fallback answers. It may be
/// configured with any id that stands for it.
pub proof fn a_seeing_fallback_answers_image_turns(
    endpoint: Endpoint,
    name: Seq<char>,
    id: Seq<char>,
    settings: records::AppSettingsView,
    known: Seq<records::ModelInfoView>,
    i: int,
)
    requires
        forall|j: int|
            0 <= j < known.len() && (#[trigger] known[j]).endpoint == endpoint && known[j].name
                == name ==> !known[j].capabilities.contains("vision"@),
        settings.vision_model == Some(id),
        text::trimmed(id).len() > 0,
        0 <= i < known.len(),
        models::parsed_model_id(id) == (endpoint, known[i].name),
        known[i].endpoint == endpoint,
        known[i].capabilities.contains("vision"@),
    ensures
        turn_choice(endpoint, name, settings, true, known) == Some((endpoint, known[i].name)),
{
    lemma_none_sees_named(endpoint, name, known);
    lists::lemma_first_where_found(known, sees_named(endpoint, known[i].name));
    assert(sees_named(endpoint, known[i].name)(known[i]));
}

/// Where neither the main model nor a configured fallback is known to advertise
/// vision on the endpoint, the first known model there that does answers.
pub proof fn the_first_seeing_model_answers_image_turns(
    endpoint: Endpoint,
    name: Seq<char>,
    settings: records::AppSettingsView,
    known: Seq<records::ModelInfoView>,
    i: int,
)
    requires
        forall|j: int|
            0 <= j < known.len() && (#[trigger] known[j]).endpoint == endpoint && known[j].name
                == name ==> !known[j].capabilities.contains("vision"@),
        settings.vision_model matches Some(id) ==> forall|j: int|
            0 <= j < known.len() && (#[trigger] known[j]).endpoint == endpoint && (
            endpoint,
            known[j].name,
        ) == models::parsed_model_id(id) ==> !known[j].capabilities.contains("vision"@),
        0 <= i < known.len(),
        known[i].endpoint == endpoint,
        known[i].capabilities.contains("vision"@),
        forall|j: int|
            0 <= j < i && (#[trigger] known[j]).endpoint == endpoint
                ==> !known[j].capabilities.contains("vision"@),
    ensures
        turn_choice(endpoint, name, settings, true, known) == Some((endpoint, known[i].name)),
{
    lemma_none_sees_named(endpoint, name, known);
    lemma_first_substitute(endpoint, settings, known, i);
}

/// Where no known model on the main model's endpoint advertises vision and the
/// other endpoint is usable, images go there: to the fallback that is
/// configured there, if it is known to advertise vision, else to the first
/// known model that does. The cloud is usable with a key that is not blank, a
/// local server where it is enabled.
pub proof fn images_move_to_the_other_endpoint(
    endpoint: Endpoint,
    other: Endpoint,
    name: Seq<char>,
    settings: records::AppSettingsView,
    known: Seq<records::ModelInfoView>,
    i: int,
)
    requires
        endpoint != other,
        other == Endpoint::Cloud ==> text::trimmed(settings.api_key).len() > 0,
        other == Endpoint::Local ==> settings.local_enabled,
        forall|j: int|
            0 <= j < known.len() && (#[trigger] known[j]).endpoint == endpoint
                ==> !known[j].capabilities.contains("vision"@),
        0 <= i < known.len(),
        known[i].endpoint == other,
        known[i].capabilities.contains("vision"@),
    ensures
        text::trimmed(known[i].name).len() > 0 && settings.vision_model == Some(
            models::model_id(other, known[i].name),
        ) ==> turn_choice(endpoint, name, settings, true, known) == Some((other, known[i].name)),
        (settings.vision_model matches Some(id) ==> forall|j: int|
            0 <= j < known.len() && (#[trigger] known[j]).endpoint == other && (
            other,
            known[j].name,
        ) == models::parsed_model_id(id) ==> !known[j].capabilities.contains("vision"@)) && (
        forall|j: int|
            0 <= j < i && (#[trigger] known[j]).endpoint == other
                ==> !known[j].capabilities.contains("vision"@)) ==> turn_choice(
            endpoint,
            name,
            settings,
            true,
            known,
        ) == Some((other, known[i].name)),
{
    lemma_none_sees_named(endpoint, name, known);
    lemma_no_substitute(endpoint, settings, known);
    assert(other_endpoint(endpoint) == other);
    assert(usable(other, settings));
    let n = known[i].name;
    if text::trimmed(n).len() > 0 && settings.vision_model == Some(models::model_id(other, n)) {
        models::decoding_undoes_encoding(other, n);
        lists::lemma_first_where_found(known, sees_named(other, n));
        assert(sees_named(other, n)(known[i]));
        lemma_id_not_blank(other, n);
    }
    if (settings.vision_model matches Some(id) ==> forall|j: int|
        0 <= j < known.len() && (#[trigger] known[j]).endpoint == other && (other, known[j].name)
            == models::parsed_model_id(id) ==> !known[j].capabilities.contains("vision"@)) && (
    forall|j: int|
        0 <= j < i && (#[trigger] known[j]).endpoint == other
            ==> !known[j].capabilities.contains("vision"@)) {
        lemma_first_substitute(other, settings, known, i);
    }
}

/// Where no known model advertises vision on the main model's endpoint, and
/// none does on the other or the other is not usable, there is no model for
/// images.
pub proof fn there_may_be_no_model_for_images(
    endpoint: Endpoint,
    other: Endpoint,
    name: Seq<char>,
    settings: records::AppSettingsView,
    known: Seq<records::ModelInfoView>,
)
    requires
        endpoint != other,
        forall|j: int|
            0 <= j < known.len() && (#[trigger] known[j]).endpoint == endpoint
                ==> !known[j].capabilities.contains("vision"@),
        (other == Endpoint::Cloud && text::trimmed(settings.api_key).len() == 0) || (other
            == Endpoint::Local && !settings.local_enabled) || forall|j: int|
            0 <= j < known.len() && (#[trigger] known[j]).endpoint == other
                ==> !known[j].capabilities.contains("vision"@),
    ensures
        turn_choice(endpoint, name, settings, true, known) is None,
{
    lemma_none_sees_named(endpoint, name, known);
    lemma_no_substitute(endpoint, settings, known);
    assert(other_endpoint(endpoint) == other);
    if usable(other, settings) {
        lemma_no_substitute(other, settings, known);
    }
}

/// The main model does not see where no known model of its name does.
proof fn lemma_none_sees_named(
    endpoint: Endpoint,
    name: Seq<char>,
    known: Seq<records::ModelInfoView>,
)
    requires
        forall|j: int|
            0 <= j < known.len() && (#[trigger] known[j]).endpoint == endpoint && known[j].name
                == name ==> !known[j].capabilities.contains("vision"@),
    ensures
        lists::first_where(known, sees_named(endpoint, name)) is None,
{
    lists::lemma_first_where_found(known, sees_named(endpoint, name));
}

/// There is no substitute where no known model on the endpoint sees.
proof fn lemma_no_substitute(
    endpoint: Endpoint,
    settings: records::AppSettingsView,
    known: Seq<records::ModelInfoView>,
)
    requires
        forall|j: int|
            0 <= j < known.len() && (#[trigger] known[j]).endpoint == endpoint
                ==> !known[j].capabilities.contains("vision"@),
    ensures
        substitute_on(endpoint, settings, known) is None,
{
    lists::lemma_first_where_found(known, sees_on(endpoint));
    if let Some(name) = fallback_on(settings, endpoint) {
        lists::lemma_first_where_found(known, sees_named(endpoint, name));
    }
}

/// Without a fallback that sees, the substitute is the first model that does.
proof fn lemma_first_substitute(
    endpoint: Endpoint,
    settings: records::AppSettingsView,
    known: Seq<records::ModelInfoView>,
    i: int,
)
    requires
        settings.vision_model matches Some(id) ==> forall|j: int|
            0 <= j < known.len() && (#[trigger] known[j]).endpoint == endpoint && (
            endpoint,
            known[j].name,
        ) == models::parsed_model_id(id) ==> !known[j].capabilities.contains("vision"@),
        0 <= i < known.len(),
        known[i].endpoint == endpoint,
        known[i].capabilities.contains("vision"@),
        forall|j: int|
            0 <= j < i && (#[trigger] known[j]).endpoint == endpoint
                ==> !known[j].capabilities.contains("vision"@),
    ensures
        substitute_on(endpoint, settings, known) == Some(known[i].name),
{
    let p = sees_on(endpoint);
    assert forall|j: int| 0 <= j < i implies !p(#[trigger] known[j]) by {}
    lists::lemma_first_where(known, p, i);
    if let Some(name) = fallback_on(settings, endpoint) {
        lemma_none_sees_named(endpoint, name, known);
    }
}

/// A composite id is not blank.
proof fn lemma_id_not_blank(endpoint: Endpoint, name: Seq<char>)
    ensures
        text::trimmed(models::model_id(endpoint, name)).len() > 0,
{
    let id = models::model_id(endpoint, name);
    reveal_strlit("cloud:");
    reveal_strlit("local:");
    assert(!text::white_space(id[0]));
    text::lemma_not_blank(id);
}

/// The views hold what the types here hold, field by field.
pub proof fn views_hold_what_is_there(
    research_client: ResearchClient,
    resolved_client: ResolvedClient,
)
    ensures
        research_client.deep_view().api_key == research_client.api_key@,
        research_client.deep_view().model == research_client.model@,
        resolved_client.deep_view().model_name == resolved_client.model_name@,
        resolved_client.deep_view().endpoint == resolved_client.endpoint,
        resolved_client.deep_view().cloud == resolved_client.cloud.deep_view(),
{
}

} // verus!
