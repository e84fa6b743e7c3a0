//! What the application shell does with settings and model lists.
use crate::errors;
use crate::records;
use crate::records::{AppSettings, CloudModel, Endpoint, ModelInfo};
use vstd::prelude::*;

verus! {

/// What the user interface may know of the settings.
#[derive(Debug)]
pub struct SettingsStatus {
    pub configured: bool,
    pub model: String,
    pub vision_model: Option<String>,
    pub mode: String,
    pub local_base_url: String,
    pub local_enabled: bool,
    pub has_api_key: bool,
}

/// What a [`SettingsStatus`] holds.
#[verifier::ext_equal]
pub struct SettingsStatusView {
    pub configured: bool,
    pub model: Seq<char>,
    pub vision_model: Option<Seq<char>>,
    pub mode: Seq<char>,
    pub local_base_url: Seq<char>,
    pub local_enabled: bool,
    pub has_api_key: bool,
}

impl DeepView for SettingsStatus {
    type V = SettingsStatusView;

    open spec fn deep_view(&self) -> SettingsStatusView {
        SettingsStatusView {
            configured: self.configured,
            model: self.model@,
            vision_model: self.vision_model.deep_view(),
            mode: self.mode@,
            local_base_url: self.local_base_url@,
            local_enabled: self.local_enabled,
            has_api_key: self.has_api_key,
        }
    }
}

/// The status of stored settings, or of none.
pub open spec fn status_of(stored: Option<records::AppSettingsView>) -> SettingsStatusView {
    match stored {
        Some(settings) => SettingsStatusView {
            configured: settings.api_key.len() > 0 || settings.local_enabled,
            model: settings.model,
            vision_model: settings.vision_model,
            mode: settings.mode,
            local_base_url: settings.local_base_url,
            local_enabled: settings.local_enabled,
            has_api_key: settings.api_key.len() > 0,
        },
        None => SettingsStatusView {
            configured: false,
            model: seq![],
            vision_model: None,
            mode: seq![],
            local_base_url: seq![],
            local_enabled: false,
            has_api_key: false,
        },
    }
}

/// The status of stored settings, or of none.
pub fn status_from(settings: Option<AppSettings>) -> (r: SettingsStatus)
    ensures
        r.deep_view() == status_of(settings.deep_view()),
{
    match settings {
        Some(settings) => {
            let has_api_key = !settings.api_key.as_str().is_empty();
            SettingsStatus {
                configured: has_api_key || settings.local_enabled,
                model: settings.model,
                vision_model: settings.vision_model,
                mode: settings.mode,
                local_base_url: settings.local_base_url,
                local_enabled: settings.local_enabled,
                has_api_key,
            }
        },
        None => SettingsStatus {
            configured: false,
            model: String::new(),
            vision_model: None,
            mode: String::new(),
            local_base_url: String::new(),
            local_enabled: false,
            has_api_key: false,
        },
    }
}

/// Settings with nothing in them but an API key and the balanced mode.
pub open spec fn initial(api_key: Seq<char>) -> records::AppSettingsView {
    records::AppSettingsView {
        api_key,
        model: seq![],
        vision_model: None,
        mode: "balanced"@,
        local_base_url: seq![],
        local_enabled: false,
    }
}

/// The settings that the first setup stores: an API key and the balanced mode.
pub fn initial_settings(api_key: String) -> (r: AppSettings)
    ensures
        r.deep_view() == initial(api_key@),
{
    AppSettings {
        api_key,
        model: String::new(),
        vision_model: None,
        mode: "balanced".to_owned(),
        local_base_url: String::new(),
        local_enabled: false,
    }
}

/// The stored settings, or initial ones without an API key.
pub open spec fn stored_or_initial(
    stored: Option<records::AppSettingsView>,
) -> records::AppSettingsView {
    match stored {
        Some(settings) => settings,
        None => initial(seq![]),
    }
}

/// A mode, or the balanced one where it is empty.
pub open spec fn mode_or_balanced(mode: Seq<char>) -> Seq<char> {
    if mode.len() == 0 {
        "balanced"@
    } else {
        mode
    }
}

/// The stored settings, or initial ones without an API key, with a mode in any
/// case.
fn settings_with_mode(stored: Option<AppSettings>) -> (r: AppSettings)
    ensures
        r.deep_view() == (records::AppSettingsView {
            mode: mode_or_balanced(stored_or_initial(stored.deep_view()).mode),
            ..stored_or_initial(stored.deep_view())
        }),
{
    let mut settings = match stored {
        Some(settings) => settings,
        None => initial_settings(String::new()),
    };
    if settings.mode.as_str().is_empty() {
        settings.mode = "balanced".to_owned();
    }
    settings
}

/// The settings after a local server was set up: its address is stored and it
/// is enabled; everything else stays.
pub fn with_local_server(stored: Option<AppSettings>, base_url: String) -> (r: AppSettings)
    ensures
        r.deep_view() == (records::AppSettingsView {
            local_base_url: base_url@,
            local_enabled: true,
            mode: mode_or_balanced(stored_or_initial(stored.deep_view()).mode),
            ..stored_or_initial(stored.deep_view())
        }),
{
    let mut settings = settings_with_mode(stored);
    settings.local_base_url = base_url;
    settings.local_enabled = true;
    settings
}

/// The settings after an API key was entered: only the key is new.
pub fn with_api_key(stored: Option<AppSettings>, api_key: String) -> (r: AppSettings)
    ensures
        r.deep_view() == (records::AppSettingsView {
            api_key: api_key@,
            mode: mode_or_balanced(stored_or_initial(stored.deep_view()).mode),
            ..stored_or_initial(stored.deep_view())
        }),
{
    let mut settings = settings_with_mode(stored);
    settings.api_key = api_key;
    settings
}

/// The stored settings, or the error where there are none.
pub open spec fn set_up(stored: Option<records::AppSettingsView>) -> Result<
    records::AppSettingsView,
    Seq<char>,
> {
    match stored {
        Some(settings) => Ok(settings),
        None => Err("Complete setup first."@),
    }
}

/// The stored settings, or the error where there are none.
pub fn require_setup(stored: Option<AppSettings>) -> (r: Result<AppSettings, String>)
    ensures
        errors::outcome(r) == set_up(stored.deep_view()),
{
    match stored {
        Some(settings) => Ok(settings),
        None => Err("Complete setup first.".to_owned()),
    }
}

/// The settings after a model, a vision fallback and a mode were chosen.
pub fn with_model(
    stored: Option<AppSettings>,
    model: String,
    vision_model: Option<String>,
    mode: String,
) -> (r: Result<AppSettings, String>)
    ensures
        errors::outcome(r) == match set_up(stored.deep_view()) {
            Ok(settings) => Ok(
                records::AppSettingsView {
                    model: model@,
                    vision_model: vision_model.deep_view(),
                    mode: mode@,
                    ..settings
                },
            ),
            Err(problem) => Err(problem),
        },
{
    match require_setup(stored) {
        Ok(settings) => {
            let mut settings = settings;
            settings.model = model;
            settings.vision_model = vision_model;
            settings.mode = mode;
            Ok(settings)
        },
        Err(problem) => Err(problem),
    }
}

/// The settings after the address of the local server was changed, or whether
/// it is used.
pub fn with_local_choice(stored: Option<AppSettings>, base_url: String, enabled: bool) -> (r:
    Result<AppSettings, String>)
    ensures
        errors::outcome(r) == match set_up(stored.deep_view()) {
            Ok(settings) => Ok(
                records::AppSettingsView {
                    local_base_url: base_url@,
                    local_enabled: enabled,
                    ..settings
                },
            ),
            Err(problem) => Err(problem),
        },
{
    match require_setup(stored) {
        Ok(settings) => {
            let mut settings = settings;
            settings.local_base_url = base_url;
            settings.local_enabled = enabled;
            Ok(settings)
        },
        Err(problem) => Err(problem),
    }
}

/// The settings for a research turn: setup has to be complete and a model has
/// to be chosen.
pub fn require_model(stored: Option<AppSettings>) -> (r: Result<AppSettings, String>)
    ensures
        errors::outcome(r) == match set_up(stored.deep_view()) {
            Ok(settings) => if settings.model.len() == 0 {
                Err("Choose a model in Settings first."@)
            } else {
                Ok(settings)
            },
            Err(problem) => Err(problem),
        },
{
    match require_setup(stored) {
        Ok(settings) => if settings.model.as_str().is_empty() {
            Err("Choose a model in Settings first.".to_owned())
        } else {
            Ok(settings)
        },
        Err(problem) => Err(problem),
    }
}

/// The models of a local server that was probed; there has to be one.
pub fn require_models(models: Vec<ModelInfo>) -> (r: Result<Vec<ModelInfo>, String>)
    ensures
        errors::outcome(r) == if models@.len() == 0 {
            Err(
                "No models are installed on that Ollama server (run `ollama pull <model>`)."@,
            )
        } else {
            Ok(models.deep_view())
        },
{
    if models.len() == 0 {
        Err("No models are installed on that Ollama server (run `ollama pull <model>`).".to_owned())
    } else {
        Ok(models)
    }
}

/// Whether cloud models are listed: where there is an API key.
pub fn lists_cloud(settings: &AppSettings) -> (r: bool)
    ensures
        r == (settings.api_key@.len() > 0),
{
    !settings.api_key.as_str().is_empty()
}

/// Whether local models are listed: where the server is enabled. A blank
/// address stands for the default server.
pub fn lists_local(settings: &AppSettings) -> (r: bool)
    ensures
        r == settings.local_enabled,
{
    settings.local_enabled
}

/// A cloud model in the list of all models.
pub open spec fn as_cloud_entry(model: records::CloudModelView) -> records::ModelInfoView {
    records::ModelInfoView {
        endpoint: Endpoint::Cloud,
        name: model.name,
        parameter_size: model.parameter_size,
        capabilities: model.capabilities,
    }
}

/// What a list holds, if there is one.
pub open spec fn list_or_nothing<T>(list: Option<Seq<T>>) -> Seq<T> {
    match list {
        Some(items) => items,
        None => seq![],
    }
}

/// The list of all models: the cloud models that could be had, then the local
/// ones.
pub open spec fn merged(
    cloud: Option<Seq<records::CloudModelView>>,
    local: Option<Seq<records::ModelInfoView>>,
) -> Seq<records::ModelInfoView> {
    list_or_nothing(cloud).map_values(|m: records::CloudModelView| as_cloud_entry(m))
        + list_or_nothing(local)
}

/// The list of all models: the cloud models that could be had, then the local
/// ones.
pub fn merge_models(cloud: Option<Vec<CloudModel>>, local: Option<Vec<ModelInfo>>) -> (r: Vec<
    ModelInfo,
>)
    ensures
        r.deep_view() == merged(cloud.deep_view(), local.deep_view()),
{
    let mut r: Vec<ModelInfo> = Vec::new();
    let ghost front = list_or_nothing(cloud.deep_view()).map_values(
        |m: records::CloudModelView| as_cloud_entry(m),
    );
    if let Some(list) = &cloud {
        for i in 0..list.len()
            invariant
                r@.len() == i,
                forall|j: int|
                    0 <= j < i ==> (#[trigger] r@[j]).deep_view() == as_cloud_entry(
                        list@[j].deep_view(),
                    ),
        {
            let model = &list[i];
            r.push(
                ModelInfo {
                    endpoint: Endpoint::Cloud,
                    name: model.name.clone(),
                    parameter_size: model.parameter_size.clone(),
                    capabilities: model.capabilities.clone(),
                },
            );
        }
    }
    assert(r.deep_view() =~= front);
    if let Some(list) = local {
        let mut list = list;
        let ghost back = list.deep_view();
        r.append(&mut list);
        assert(r.deep_view() =~= front + back);
    }
    r
}

/// Entering an API key or setting up a local server completes the setup.
pub proof fn entering_a_key_or_a_server_completes_setup(
    stored: Option<records::AppSettingsView>,
    api_key: Seq<char>,
    base_url: Seq<char>,
)
    requires
        api_key.len() > 0,
    ensures
        status_of(
            Some(records::AppSettingsView { api_key, ..stored_or_initial(stored) }),
        ).configured,
        status_of(
            Some(
                records::AppSettingsView {
                    local_base_url: base_url,
                    local_enabled: true,
                    ..stored_or_initial(stored)
                },
            ),
        ).configured,
{
}

/// A server that cannot be reached does not hide the models of the other.
pub proof fn an_unreachable_server_hides_no_models(
    cloud: Seq<records::CloudModelView>,
    local: Seq<records::ModelInfoView>,
)
    ensures
        merged(None, Some(local)) == local,
        merged(Some(cloud), None) == cloud.map_values(
            |m: records::CloudModelView| as_cloud_entry(m),
        ),
{
    assert(merged(None, Some(local)) =~= local);
}

/// The status tells what is stored, and of the key only whether there is one.
/// The application is configured with a key or with local models.
pub proof fn the_status_tells_what_is_stored(stored: records::AppSettingsView)
    ensures
        ({
            let status = status_of(Some(stored));
            &&& status.configured <==> stored.api_key.len() > 0 || stored.local_enabled
            &&& status.has_api_key <==> stored.api_key.len() > 0
            &&& status.local_enabled == stored.local_enabled
            &&& status.model == stored.model
            &&& status.vision_model == stored.vision_model
            &&& status.mode == stored.mode
            &&& status.local_base_url == stored.local_base_url
        }),
        ({
            let status = status_of(None);
            &&& !status.configured && !status.has_api_key && !status.local_enabled
            &&& status.model.len() == 0 && status.vision_model is None
            &&& status.mode.len() == 0 && status.local_base_url.len() == 0
        }),
{
}

/// Settings begin with the balanced mode and nothing else but a key; stored
/// settings are taken as they are, but for an empty mode.
pub proof fn settings_begin_balanced(
    api_key: Seq<char>,
    stored: records::AppSettingsView,
    mode: Seq<char>,
)
    ensures
        initial(api_key).api_key == api_key,
        initial(api_key).mode == "balanced"@,
        initial(api_key).model.len() == 0,
        initial(api_key).vision_model is None,
        initial(api_key).local_base_url.len() == 0,
        !initial(api_key).local_enabled,
        stored_or_initial(Some(stored)) == stored,
        stored_or_initial(None) == initial(seq![]),
        mode.len() == 0 ==> mode_or_balanced(mode) == "balanced"@,
        mode.len() > 0 ==> mode_or_balanced(mode) == mode,
        set_up(Some(stored)) == Ok::<_, Seq<char>>(stored),
        set_up(None) == Err::<records::AppSettingsView, _>("Complete setup first."@),
{
}

/// The list of all models has each cloud model and then each local one, with
/// all that is known of it, in order.
pub proof fn all_models_are_listed(
    cloud: Seq<records::CloudModelView>,
    local: Seq<records::ModelInfoView>,
)
    ensures
        ({
            let all = merged(Some(cloud), Some(local));
            &&& all.len() == cloud.len() + local.len()
            &&& forall|i: int|
                0 <= i < cloud.len() ==> {
                    &&& (#[trigger] all[i]).endpoint == Endpoint::Cloud
                    &&& all[i].name == cloud[i].name
                    &&& all[i].parameter_size == cloud[i].parameter_size
                    &&& all[i].capabilities == cloud[i].capabilities
                }
            &&& forall|i: int|
                0 <= i < local.len() ==> #[trigger] all[cloud.len() + i] == local[i]
        }),
        merged(Some(cloud), None).len() == cloud.len(),
        forall|i: int|
            0 <= i < cloud.len() ==> #[trigger] merged(Some(cloud), None)[i] == merged(
                Some(cloud),
                Some(local),
            )[i],
        merged(None, Some(local)) == local,
        merged(None, None).len() == 0,
{
    an_unreachable_server_hides_no_models(cloud, local);
}

/// The views hold what the types here hold, field by field.
pub proof fn views_hold_what_is_there(
    settings_status: SettingsStatus,
)
    ensures
        settings_status.deep_view().configured == settings_status.configured,
        settings_status.deep_view().model == settings_status.model@,
        settings_status.deep_view().vision_model == settings_status.vision_model.deep_view(),
        settings_status.deep_view().mode == settings_status.mode@,
        settings_status.deep_view().local_base_url == settings_status.local_base_url@,
        settings_status.deep_view().local_enabled == settings_status.local_enabled,
        settings_status.deep_view().has_api_key == settings_status.has_api_key,
{
}

} // verus!
