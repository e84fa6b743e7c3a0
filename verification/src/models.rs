//! Models: their composite ids, what they can do, and how they are listed.
use crate::records;
use crate::records::{CloudModel, Endpoint, ModelInfo};
use crate::text;
use vstd::prelude::*;

verus! {

/// Whether a capability is in the list.
fn has_capability(capabilities: &Vec<String>, capability: &str) -> (r: bool)
    ensures
        r == capabilities.deep_view().contains(capability@),
{
    for i in 0..capabilities.len()
        invariant
            forall|j: int| 0 <= j < i ==> #[trigger] capabilities.deep_view()[j] != capability@,
    {
        if text::same_text(&capabilities[i], capability) {
            assert(capabilities.deep_view()[i as int] == capability@);
            return true;
        }
    }
    false
}

/// Whether a list of capabilities advertises vision.
pub open spec fn sees(capabilities: Seq<Seq<char>>) -> bool {
    capabilities.contains("vision"@)
}

/// Whether a list of capabilities advertises thinking.
pub open spec fn thinks(capabilities: Seq<Seq<char>>) -> bool {
    capabilities.contains("thinking"@)
}

impl ModelInfo {
    /// Whether the model advertises `vision`.
    pub fn supports_vision(&self) -> (r: bool)
        ensures
            r == sees(self.deep_view().capabilities),
    {
        has_capability(&self.capabilities, "vision")
    }
}

impl CloudModel {
    /// Whether the model advertises `vision`.
    pub fn supports_vision(&self) -> (r: bool)
        ensures
            r == sees(self.deep_view().capabilities),
    {
        has_capability(&self.capabilities, "vision")
    }
}

/// Whether the model advertises `thinking`.
pub fn supports_thinking_model(model: &ModelInfo) -> (r: bool)
    ensures
        r == thinks(model.deep_view().capabilities),
{
    has_capability(&model.capabilities, "thinking")
}

/// Whether the model advertises `thinking`.
pub fn supports_thinking(model: &CloudModel) -> (r: bool)
    ensures
        r == thinks(model.deep_view().capabilities),
{
    has_capability(&model.capabilities, "thinking")
}

/// What the composite id of a model on the endpoint begins with.
pub open spec fn id_prefix(endpoint: Endpoint) -> Seq<char> {
    match endpoint {
        Endpoint::Cloud => "cloud:"@,
        Endpoint::Local => "local:"@,
    }
}

/// The composite id of a model: `cloud:<name>` or `local:<name>`.
pub open spec fn model_id(endpoint: Endpoint, name: Seq<char>) -> Seq<char> {
    id_prefix(endpoint) + name
}

/// The endpoint and the name that a composite id stands for. A bare name is a
/// cloud model's.
pub open spec fn parsed_model_id(model: Seq<char>) -> (Endpoint, Seq<char>) {
    if id_prefix(Endpoint::Local).is_prefix_of(model) {
        (Endpoint::Local, model.skip(id_prefix(Endpoint::Local).len() as int))
    } else if id_prefix(Endpoint::Cloud).is_prefix_of(model) {
        (Endpoint::Cloud, model.skip(id_prefix(Endpoint::Cloud).len() as int))
    } else {
        (Endpoint::Cloud, model)
    }
}

/// Composite model identifier used across the UI and settings storage:
/// `cloud:<name>` or `local:<name>`.
pub fn encode_model_id(endpoint: Endpoint, name: &str) -> (r: String)
    ensures
        r@ == model_id(endpoint, name@),
{
    match endpoint {
        Endpoint::Cloud => text::join("cloud:", name),
        Endpoint::Local => text::join("local:", name),
    }
}

/// What follows `prefix` in `chars`, where that is what they begin with.
fn after_prefix(chars: &[char], prefix: &str) -> (r: Option<String>)
    ensures
        r.deep_view() == if prefix@.is_prefix_of(chars@) {
            Some(chars@.skip(prefix@.len() as int))
        } else {
            None
        },
{
    let head = text::chars_of(prefix);
    if text::starts_with(chars, &head) {
        Some(text::text_of(vstd::slice::slice_subrange(chars, head.len(), chars.len())))
    } else {
        None
    }
}

/// Split a composite `cloud:` / `local:` id into its parts. Bare names are
/// treated as cloud models.
pub fn decode_model_id(model: &str) -> (r: (Endpoint, String))
    ensures
        (r.0, r.1@) == parsed_model_id(model@),
{
    let chars = text::chars_of(model);
    if let Some(name) = after_prefix(&chars, "local:") {
        (Endpoint::Local, name)
    } else if let Some(name) = after_prefix(&chars, "cloud:") {
        (Endpoint::Cloud, name)
    } else {
        (Endpoint::Cloud, model.to_owned())
    }
}

/// Decoding a composite id gives back the endpoint and the name that it was
/// made of.
pub proof fn decoding_undoes_encoding(endpoint: Endpoint, name: Seq<char>)
    ensures
        parsed_model_id(model_id(endpoint, name)) == (endpoint, name),
{
    reveal_strlit("cloud:");
    reveal_strlit("local:");
    let id = model_id(endpoint, name);
    let prefix = id_prefix(endpoint);
    assert(id.subrange(0, prefix.len() as int) == prefix);
    assert(id.skip(prefix.len() as int) == name);
    if endpoint == Endpoint::Cloud {
        assert(id.subrange(0, 6)[0] == 'c');
        assert(!"local:"@.is_prefix_of(id)) by {
            assert("local:"@[0] == 'l');
        }
    }
}

/// An id that carries an endpoint prefix is the encoding of what it decodes
/// to; any other id is a cloud model's name.
pub proof fn encoding_undoes_decoding(model: Seq<char>)
    ensures
        id_prefix(Endpoint::Cloud).is_prefix_of(model) || id_prefix(Endpoint::Local).is_prefix_of(
            model,
        ) ==> model_id(parsed_model_id(model).0, parsed_model_id(model).1) == model,
        !id_prefix(Endpoint::Cloud).is_prefix_of(model) && !id_prefix(Endpoint::Local).is_prefix_of(
            model,
        ) ==> parsed_model_id(model) == (Endpoint::Cloud, model),
{
    let (endpoint, name) = parsed_model_id(model);
    if id_prefix(Endpoint::Local).is_prefix_of(model) || id_prefix(Endpoint::Cloud).is_prefix_of(
        model,
    ) {
        assert(model =~= id_prefix(endpoint) + name);
    }
}

/// Different models have different composite ids.
pub proof fn model_ids_are_distinct(e1: Endpoint, n1: Seq<char>, e2: Endpoint, n2: Seq<char>)
    requires
        model_id(e1, n1) == model_id(e2, n2),
    ensures
        e1 == e2,
        n1 == n2,
{
    decoding_undoes_encoding(e1, n1);
    decoding_undoes_encoding(e2, n2);
}

/// Whether a name is a chat model's: it is not blank, and neither `embed` nor
/// `encoder` occurs in it.
pub open spec fn is_chat_name(name: Seq<char>) -> bool {
    let n = text::trimmed(name);
    n.len() > 0 && !text::has_part(n, "embed"@) && !text::has_part(n, "encoder"@)
}

/// Whether a listed model is one to chat with.
pub fn is_cloud_chat_model(name: &str) -> (r: bool)
    ensures
        r == is_chat_name(name@),
{
    let chars = text::chars_of(name);
    let n = text::trim_chars(&chars);
    n.len() > 0 && !text::contains_part(n, &text::chars_of("embed")) && !text::contains_part(
        n,
        &text::chars_of("encoder"),
    )
}

/// A model as a server lists it.
#[derive(Debug)]
pub struct TagModel {
    pub name: String,
    pub parameter_size: String,
}

/// What a [`TagModel`] holds.
#[verifier::ext_equal]
pub struct TagModelView {
    pub name: Seq<char>,
    pub parameter_size: Seq<char>,
}

impl DeepView for TagModel {
    type V = TagModelView;

    open spec fn deep_view(&self) -> TagModelView {
        TagModelView { name: self.name@, parameter_size: self.parameter_size@ }
    }
}

/// Whether a listed model is one to chat with.
pub open spec fn is_chat_tag() -> spec_fn(TagModelView) -> bool {
    |tag: TagModelView| is_chat_name(tag.name)
}

/// A listed cloud model, before its capabilities are known.
pub open spec fn as_cloud_model(tag: TagModelView) -> records::CloudModelView {
    records::CloudModelView {
        name: tag.name,
        parameter_size: tag.parameter_size,
        capabilities: Seq::empty(),
    }
}

/// A listed local model, before its capabilities are known.
pub open spec fn as_local_model(tag: TagModelView) -> records::ModelInfoView {
    records::ModelInfoView {
        endpoint: Endpoint::Local,
        name: tag.name,
        parameter_size: tag.parameter_size,
        capabilities: Seq::empty(),
    }
}

/// The cloud models among the listed ones that are to chat with, in order.
pub open spec fn cloud_listing(tags: Seq<TagModelView>) -> Seq<records::CloudModelView> {
    tags.filter(is_chat_tag()).map_values(|tag: TagModelView| as_cloud_model(tag))
}

/// The local models among the listed ones that are to chat with, in order.
pub open spec fn local_listing(tags: Seq<TagModelView>) -> Seq<records::ModelInfoView> {
    tags.filter(is_chat_tag()).map_values(|tag: TagModelView| as_local_model(tag))
}

/// The cloud models among the listed ones that are to chat with, in order.
pub fn cloud_models(tags: &Vec<TagModel>) -> (r: Vec<CloudModel>)
    ensures
        r.deep_view() == cloud_listing(tags.deep_view()),
{
    let mut r: Vec<CloudModel> = Vec::new();
    let ghost all = tags.deep_view();
    proof {
        reveal(Seq::filter);
        assert(r.deep_view() == cloud_listing(all.take(0)));
    }
    for i in 0..tags.len()
        invariant
            all == tags.deep_view(),
            r.deep_view() == cloud_listing(all.take(i as int)),
    {
        proof {
            reveal(Seq::filter);
            assert(all.take(i + 1).drop_last() == all.take(i as int));
            assert(all.take(i + 1).last() == tags@[i as int].deep_view());
        }
        if is_cloud_chat_model(&tags[i].name) {
            let model = CloudModel {
                name: tags[i].name.clone(),
                parameter_size: tags[i].parameter_size.clone(),
                capabilities: Vec::new(),
            };
            let ghost shown = r.deep_view();
            r.push(model);
            proof {
                assert(model.capabilities.deep_view() == Seq::<Seq<char>>::empty());
                assert(model.deep_view() == as_cloud_model(tags@[i as int].deep_view()));
                assert(r.deep_view() == shown.push(model.deep_view()));
            }
        }
    }
    assert(all.take(all.len() as int) == all);
    r
}

/// The local models among the listed ones that are to chat with, in order.
pub fn local_models(tags: &Vec<TagModel>) -> (r: Vec<ModelInfo>)
    ensures
        r.deep_view() == local_listing(tags.deep_view()),
{
    let mut r: Vec<ModelInfo> = Vec::new();
    let ghost all = tags.deep_view();
    proof {
        reveal(Seq::filter);
        assert(r.deep_view() == local_listing(all.take(0)));
    }
    for i in 0..tags.len()
        invariant
            all == tags.deep_view(),
            r.deep_view() == local_listing(all.take(i as int)),
    {
        proof {
            reveal(Seq::filter);
            assert(all.take(i + 1).drop_last() == all.take(i as int));
            assert(all.take(i + 1).last() == tags@[i as int].deep_view());
        }
        if is_cloud_chat_model(&tags[i].name) {
            let model = ModelInfo {
                endpoint: Endpoint::Local,
                name: tags[i].name.clone(),
                parameter_size: tags[i].parameter_size.clone(),
                capabilities: Vec::new(),
            };
            let ghost shown = r.deep_view();
            r.push(model);
            proof {
                assert(model.capabilities.deep_view() == Seq::<Seq<char>>::empty());
                assert(model.deep_view() == as_local_model(tags@[i as int].deep_view()));
                assert(r.deep_view() == shown.push(model.deep_view()));
            }
        }
    }
    assert(all.take(all.len() as int) == all);
    r
}

/// The capabilities at index `i`: those that were found out, or else those that
/// were known before.
pub open spec fn found_or(
    lists: Seq<Option<Seq<Seq<char>>>>,
    i: int,
    before: Seq<Seq<char>>,
) -> Seq<Seq<char>> {
    if i < lists.len() && lists[i] is Some {
        lists[i]->0
    } else {
        before
    }
}

/// The models with the capabilities that were found out, one list per model.
/// A model whose list could not be had keeps what it has.
pub open spec fn capable_cloud(
    models: Seq<records::CloudModelView>,
    lists: Seq<Option<Seq<Seq<char>>>>,
) -> Seq<records::CloudModelView> {
    Seq::new(
        models.len(),
        |i: int|
            records::CloudModelView {
                capabilities: found_or(lists, i, models[i].capabilities),
                ..models[i]
            },
    )
}

/// The models with the capabilities that were found out, one list per model.
/// A model whose list could not be had keeps what it has.
pub open spec fn capable_local(
    models: Seq<records::ModelInfoView>,
    lists: Seq<Option<Seq<Seq<char>>>>,
) -> Seq<records::ModelInfoView> {
    Seq::new(
        models.len(),
        |i: int|
            records::ModelInfoView {
                capabilities: found_or(lists, i, models[i].capabilities),
                ..models[i]
            },
    )
}

/// The capabilities at index `i`: those that were found out, or else those that
/// were known before.
fn pick_capabilities(lists: &Vec<Option<Vec<String>>>, i: usize, before: &Vec<String>) -> (r: Vec<
    String,
>)
    ensures
        r.deep_view() == found_or(lists.deep_view(), i as int, before.deep_view()),
{
    if i < lists.len() {
        if let Some(list) = &lists[i] {
            return list.clone();
        }
    }
    before.clone()
}

/// The models with the capabilities that were found out, one list per model.
pub fn with_cloud_capabilities(
    models: &Vec<CloudModel>,
    lists: &Vec<Option<Vec<String>>>,
) -> (r: Vec<CloudModel>)
    ensures
        r.deep_view() == capable_cloud(models.deep_view(), lists.deep_view()),
{
    let mut r: Vec<CloudModel> = Vec::new();
    for i in 0..models.len()
        invariant
            r@.len() == i,
            forall|j: int|
                0 <= j < i ==> (#[trigger] r@[j]).deep_view() == capable_cloud(
                    models.deep_view(),
                    lists.deep_view(),
                )[j],
    {
        let model = &models[i];
        r.push(
            CloudModel {
                name: model.name.clone(),
                parameter_size: model.parameter_size.clone(),
                capabilities: pick_capabilities(lists, i, &model.capabilities),
            },
        );
    }
    assert(r.deep_view() =~= capable_cloud(models.deep_view(), lists.deep_view()));
    r
}

/// The models with the capabilities that were found out, one list per model.
pub fn with_local_capabilities(
    models: &Vec<ModelInfo>,
    lists: &Vec<Option<Vec<String>>>,
) -> (r: Vec<ModelInfo>)
    ensures
        r.deep_view() == capable_local(models.deep_view(), lists.deep_view()),
{
    let mut r: Vec<ModelInfo> = Vec::new();
    for i in 0..models.len()
        invariant
            r@.len() == i,
            forall|j: int|
                0 <= j < i ==> (#[trigger] r@[j]).deep_view() == capable_local(
                    models.deep_view(),
                    lists.deep_view(),
                )[j],
    {
        let model = &models[i];
        r.push(
            ModelInfo {
                endpoint: model.endpoint,
                name: model.name.clone(),
                parameter_size: model.parameter_size.clone(),
                capabilities: pick_capabilities(lists, i, &model.capabilities),
            },
        );
    }
    assert(r.deep_view() =~= capable_local(models.deep_view(), lists.deep_view()));
    r
}

/// The composite ids: the side, a colon, and the name.
pub proof fn ids_begin_with_their_side(name: Seq<char>)
    ensures
        model_id(Endpoint::Cloud, name) == "cloud:"@ + name,
        model_id(Endpoint::Local, name) == "local:"@ + name,
{
}

/// A list advertises vision, or thinking, exactly where it holds the word.
pub proof fn a_capability_is_advertised_by_its_word(capabilities: Seq<Seq<char>>)
    ensures
        sees(capabilities) <==> exists|i: int|
            0 <= i < capabilities.len() && #[trigger] capabilities[i] == "vision"@,
        thinks(capabilities) <==> exists|i: int|
            0 <= i < capabilities.len() && #[trigger] capabilities[i] == "thinking"@,
{
}

/// A name is a chat model's exactly where it holds something else than white
/// space, and neither `embed` nor `encoder` occurs anywhere in it.
pub proof fn chat_models_are_neither_embedders_nor_encoders(name: Seq<char>)
    ensures
        is_chat_name(name) <==> (exists|k: int|
            0 <= k < name.len() && !text::white_space(#[trigger] name[k])) && !(exists|
            a: Seq<char>,
            b: Seq<char>,
        | name == #[trigger] (a + "embed"@ + b)) && !(exists|a: Seq<char>, b: Seq<char>|
            name == #[trigger] (a + "encoder"@ + b)),
{
    reveal_strlit("embed");
    reveal_strlit("encoder");
    text::a_text_is_its_middle_between_white_space(name);
    text::lemma_trimming_keeps_parts(name, "embed"@);
    text::lemma_trimming_keeps_parts(name, "encoder"@);
    text::a_part_stands_between_two_texts(name, "embed"@);
    text::a_part_stands_between_two_texts(name, "encoder"@);
}

/// One more listed model is added at the end of the listing, with its name and
/// size and no capabilities yet, exactly where it is one to chat with.
pub proof fn one_more_chat_model_is_listed(tags: Seq<TagModelView>, tag: TagModelView)
    ensures
        cloud_listing(Seq::empty()).len() == 0,
        local_listing(Seq::empty()).len() == 0,
        !is_chat_name(tag.name) ==> cloud_listing(tags.push(tag)) == cloud_listing(tags)
            && local_listing(tags.push(tag)) == local_listing(tags),
        is_chat_name(tag.name) ==> {
            &&& cloud_listing(tags.push(tag)) == cloud_listing(tags).push(
                records::CloudModelView {
                    name: tag.name,
                    parameter_size: tag.parameter_size,
                    capabilities: seq![],
                },
            )
            &&& local_listing(tags.push(tag)) == local_listing(tags).push(
                records::ModelInfoView {
                    endpoint: Endpoint::Local,
                    name: tag.name,
                    parameter_size: tag.parameter_size,
                    capabilities: seq![],
                },
            )
        },
{
    reveal(Seq::filter);
    assert(tags.push(tag).drop_last() == tags);
    assert(cloud_listing(tags.push(tag)) =~= if is_chat_name(tag.name) {
        cloud_listing(tags).push(as_cloud_model(tag))
    } else {
        cloud_listing(tags)
    });
    assert(local_listing(tags.push(tag)) =~= if is_chat_name(tag.name) {
        local_listing(tags).push(as_local_model(tag))
    } else {
        local_listing(tags)
    });
}

/// Each model gets the capabilities that were found out for it; one for which
/// that failed keeps what it has. Nothing else changes.
pub proof fn each_model_gets_its_own_capabilities(
    cloud: Seq<records::CloudModelView>,
    local: Seq<records::ModelInfoView>,
    lists: Seq<Option<Seq<Seq<char>>>>,
)
    ensures
        capable_cloud(cloud, lists).len() == cloud.len(),
        capable_local(local, lists).len() == local.len(),
        forall|i: int|
            0 <= i < cloud.len() ==> {
                &&& (#[trigger] capable_cloud(cloud, lists)[i]).name == cloud[i].name
                &&& capable_cloud(cloud, lists)[i].parameter_size == cloud[i].parameter_size
                &&& i < lists.len() && lists[i] is Some ==> capable_cloud(
                    cloud,
                    lists,
                )[i].capabilities == lists[i]->0
                &&& i >= lists.len() || lists[i] is None ==> capable_cloud(
                    cloud,
                    lists,
                )[i].capabilities == cloud[i].capabilities
            },
        forall|i: int|
            0 <= i < local.len() ==> {
                &&& (#[trigger] capable_local(local, lists)[i]).name == local[i].name
                &&& capable_local(local, lists)[i].endpoint == local[i].endpoint
                &&& capable_local(local, lists)[i].parameter_size == local[i].parameter_size
                &&& i < lists.len() && lists[i] is Some ==> capable_local(
                    local,
                    lists,
                )[i].capabilities == lists[i]->0
                &&& i >= lists.len() || lists[i] is None ==> capable_local(
                    local,
                    lists,
                )[i].capabilities == local[i].capabilities
            },
{
}

/// An id without a prefix of a side stands for the cloud model of that name; an
/// id with one stands for what follows it.
pub proof fn ids_stand_for_what_follows_their_prefix(model: Seq<char>, name: Seq<char>)
    ensures
        model == "local:"@ + name ==> parsed_model_id(model) == (Endpoint::Local, name),
        model == "cloud:"@ + name ==> parsed_model_id(model) == (Endpoint::Cloud, name),
        (forall|n: Seq<char>| model != #[trigger] ("local:"@ + n)) && (forall|n: Seq<char>|
            model != #[trigger] ("cloud:"@ + n)) ==> parsed_model_id(model) == (
            Endpoint::Cloud,
            model,
        ),
{
    decoding_undoes_encoding(Endpoint::Local, name);
    decoding_undoes_encoding(Endpoint::Cloud, name);
    encoding_undoes_decoding(model);
    let (endpoint, n) = parsed_model_id(model);
    assert(model_id(Endpoint::Local, n) == "local:"@ + n);
    assert(model_id(Endpoint::Cloud, n) == "cloud:"@ + n);
}

/// The views hold what the types here hold, field by field.
pub proof fn views_hold_what_is_there(
    tag_model: TagModel,
)
    ensures
        tag_model.deep_view().name == tag_model.name@,
        tag_model.deep_view().parameter_size == tag_model.parameter_size@,
{
}

} // verus!
