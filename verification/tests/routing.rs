use vane_core::errors::ResearchError;
use vane_core::models::{
    cloud_models, decode_model_id, encode_model_id, is_cloud_chat_model, local_models,
    supports_thinking, supports_thinking_model, with_cloud_capabilities, with_local_capabilities,
    TagModel,
};
use vane_core::routing::{
    choose_vision_model, find_cloud_model, resolve_turn_model, ResearchClient, ResolvedClient,
};
use vane_core::{AppSettings, CloudModel, Endpoint, ModelInfo};

fn settings() -> AppSettings {
    AppSettings {
        api_key: "test-key".to_string(),
        model: "gpt-oss:120b".to_string(),
        vision_model: None,
        mode: "balanced".to_string(),
        local_base_url: String::new(),
        local_enabled: false,
    }
}

fn cloud_model(name: &str, capabilities: &[&str]) -> CloudModel {
    CloudModel {
        name: name.to_string(),
        parameter_size: String::new(),
        capabilities: capabilities.iter().map(ToString::to_string).collect(),
    }
}

fn model_info(endpoint: Endpoint, name: &str, capabilities: &[&str]) -> ModelInfo {
    ModelInfo {
        endpoint,
        name: name.to_string(),
        parameter_size: String::new(),
        capabilities: capabilities.iter().map(ToString::to_string).collect(),
    }
}

fn config_text(error: ResearchError) -> String {
    match error {
        ResearchError::InvalidConfig(text) => text,
        other => panic!("not a configuration error: {}", other.message()),
    }
}

#[test]
fn filters_cloud_chat_models() {
    assert!(is_cloud_chat_model("gpt-oss:120b-cloud"));
    assert!(is_cloud_chat_model("qwen3:4b-cloud"));
    assert!(!is_cloud_chat_model("nomic-embed-text"));
    assert!(!is_cloud_chat_model(""));
}

#[test]
fn keeps_primary_model_when_it_supports_vision() {
    let known = vec![cloud_model("qwen3-vl:235b-cloud", &["completion", "vision"])];
    let chosen = choose_vision_model("qwen3-vl:235b-cloud", &None, &known).unwrap();
    assert_eq!(chosen, "qwen3-vl:235b-cloud");
}

#[test]
fn routes_images_to_vision_model_when_primary_lacks_vision() {
    let known = vec![
        cloud_model("gpt-oss:120b-cloud", &["completion", "tools"]),
        cloud_model("qwen3-vl:235b-cloud", &["completion", "vision"]),
    ];
    let chosen = choose_vision_model("gpt-oss:120b-cloud", &None, &known).unwrap();
    assert_eq!(chosen, "qwen3-vl:235b-cloud");
}

#[test]
fn prefers_user_configured_vision_fallback() {
    let known = vec![
        cloud_model("gpt-oss:120b-cloud", &["completion", "tools"]),
        cloud_model("qwen3-vl:235b-cloud", &["completion", "vision"]),
    ];
    let chosen = choose_vision_model(
        "gpt-oss:120b-cloud",
        &Some("qwen3-vl:235b-cloud".to_string()),
        &known,
    )
    .unwrap();
    assert_eq!(chosen, "qwen3-vl:235b-cloud");
}

#[test]
fn errors_when_no_vision_model_available() {
    let known = vec![cloud_model("gpt-oss:120b-cloud", &["completion"])];
    assert!(choose_vision_model("gpt-oss:120b-cloud", &None, &known).is_err());
}

#[test]
fn encodes_and_decodes_model_ids() {
    assert_eq!(encode_model_id(Endpoint::Cloud, "gpt-oss:120b"), "cloud:gpt-oss:120b");
    assert_eq!(encode_model_id(Endpoint::Local, "llama3.2:3b"), "local:llama3.2:3b");
    assert_eq!(
        decode_model_id("local:llama3.2:3b"),
        (Endpoint::Local, "llama3.2:3b".to_string())
    );
    assert_eq!(
        decode_model_id("cloud:gpt-oss:120b"),
        (Endpoint::Cloud, "gpt-oss:120b".to_string())
    );
    // Bare names keep working as cloud models.
    assert_eq!(
        decode_model_id("gpt-oss:120b-cloud"),
        (Endpoint::Cloud, "gpt-oss:120b-cloud".to_string())
    );
}

#[test]
fn routes_images_across_endpoints() {
    let mut settings = settings();
    settings.local_enabled = true;
    let known = vec![
        model_info(Endpoint::Cloud, "gpt-oss:120b", &["completion"]),
        model_info(Endpoint::Local, "llava:7b", &["vision"]),
    ];

    // Images with a text-only primary cloud model fall back to local vision.
    let resolved = resolve_turn_model(
        Endpoint::Cloud,
        "gpt-oss:120b",
        &settings,
        &["a".repeat(200)],
        &known,
    )
    .unwrap();
    assert_eq!(resolved.endpoint, Endpoint::Local);
    assert_eq!(resolved.model_name, "llava:7b");

    // Text turns stay on the primary model.
    let resolved =
        resolve_turn_model(Endpoint::Cloud, "gpt-oss:120b", &settings, &[], &known).unwrap();
    assert_eq!(resolved.endpoint, Endpoint::Cloud);
    assert_eq!(resolved.model_name, "gpt-oss:120b");
}

#[test]
fn local_turn_needs_local_enabled_for_cross_routing() {
    let mut settings = settings();
    settings.local_enabled = false;
    let known = vec![model_info(Endpoint::Local, "llava:7b", &["vision"])];
    assert!(resolve_turn_model(
        Endpoint::Cloud,
        "gpt-oss:120b",
        &settings,
        &["a".repeat(200)],
        &known
    )
    .is_err());
}

#[test]
fn local_primary_uses_local_vision() {
    let settings = settings();
    let known = vec![
        model_info(Endpoint::Local, "llava:7b", &["vision"]),
        model_info(Endpoint::Local, "mistral:7b", &["completion"]),
    ];
    let resolved = resolve_turn_model(
        Endpoint::Local,
        "mistral:7b",
        &settings,
        &["a".repeat(200)],
        &known,
    )
    .unwrap();
    assert_eq!(resolved.endpoint, Endpoint::Local);
    assert_eq!(resolved.model_name, "llava:7b");
}

#[test]
fn model_ids_survive_odd_names() {
    for name in ["", "local:x", "cloud:", "ä:ö", "x"] {
        for endpoint in [Endpoint::Cloud, Endpoint::Local] {
            let id = encode_model_id(endpoint, name);
            assert_eq!(decode_model_id(&id), (endpoint, name.to_string()));
        }
    }
    assert_eq!(decode_model_id("local"), (Endpoint::Cloud, "local".to_string()));
    assert_eq!(decode_model_id("Local:x"), (Endpoint::Cloud, "Local:x".to_string()));
    assert_eq!(decode_model_id(""), (Endpoint::Cloud, String::new()));
}

#[test]
fn capabilities_are_looked_up_by_name() {
    let seeing = cloud_model("a", &["vision"]);
    assert!(seeing.supports_vision());
    assert!(!supports_thinking(&seeing));
    assert!(!cloud_model("a", &["Vision", "visionary"]).supports_vision());
    assert!(supports_thinking(&cloud_model("a", &["tools", "thinking"])));
    let local = model_info(Endpoint::Local, "b", &["thinking"]);
    assert!(supports_thinking_model(&local));
    assert!(!local.supports_vision());
    assert!(!supports_thinking_model(&model_info(Endpoint::Local, "b", &[])));
}

#[test]
fn chat_models_are_told_by_their_names() {
    assert!(!is_cloud_chat_model("   "));
    assert!(!is_cloud_chat_model("cross-encoder"));
    assert!(!is_cloud_chat_model("embed"));
    assert!(is_cloud_chat_model("Embed"));
    assert!(is_cloud_chat_model("embe d"));
}

#[test]
fn listings_keep_chat_models_in_order() {
    let tag = |name: &str, size: &str| TagModel {
        name: name.to_string(),
        parameter_size: size.to_string(),
    };
    let tags = vec![tag("b", "7B"), tag("nomic-embed-text", ""), tag("a", "")];
    let cloud = cloud_models(&tags);
    assert_eq!(cloud.len(), 2);
    assert_eq!((cloud[0].name.as_str(), cloud[0].parameter_size.as_str()), ("b", "7B"));
    assert_eq!(cloud[1].name, "a");
    assert!(cloud[0].capabilities.is_empty());
    let local = local_models(&tags);
    assert_eq!(local.len(), 2);
    assert_eq!((local[0].endpoint, local[0].name.as_str()), (Endpoint::Local, "b"));

    let lists = vec![Some(vec!["vision".to_string()]), None];
    let cloud = with_cloud_capabilities(&cloud, &lists);
    assert!(cloud[0].supports_vision());
    assert!(!cloud[1].supports_vision());
    assert_eq!(cloud[0].parameter_size, "7B");
    let local = with_local_capabilities(&local, &lists);
    assert!(local[0].supports_vision() && local[1].capabilities.is_empty());
    // Fewer lists than models leave the others as they are.
    assert_eq!(with_cloud_capabilities(&cloud, &Vec::new()).len(), 2);
    assert!(with_cloud_capabilities(&cloud, &Vec::new())[0].supports_vision());
}

#[test]
fn clients_need_a_key_and_a_model() {
    let client = ResearchClient::new("  key ".to_string(), " m".to_string()).unwrap();
    assert_eq!((client.api_key.as_str(), client.model.as_str()), ("key", " m"));
    assert_eq!(
        config_text(ResearchClient::new(" ".to_string(), "m".to_string()).unwrap_err()),
        "the API key cannot be empty"
    );
    assert_eq!(
        config_text(ResearchClient::new("k".to_string(), "\t".to_string()).unwrap_err()),
        "select a model"
    );
    let client = ResearchClient::for_shell(&settings());
    assert_eq!((client.api_key.as_str(), client.model.as_str()), ("test-key", "gpt-oss:120b"));
}

#[test]
fn cloud_models_need_a_key() {
    let mut settings = settings();
    settings.api_key = " k ".to_string();
    let found = ResolvedClient::from(&settings, "cloud:m").unwrap();
    let client = found.cloud.unwrap();
    assert_eq!((client.api_key.as_str(), client.model.as_str()), ("k", "m"));
    settings.api_key = " ".to_string();
    assert_eq!(
        config_text(ResolvedClient::from(&settings, "m").unwrap_err()),
        "this model runs on Ollama Cloud; add your API key in Settings"
    );
    let found = ResolvedClient::from(&settings, "local:m").unwrap();
    assert!(found.cloud.is_none());
    assert_eq!((found.endpoint, found.model_name.as_str()), (Endpoint::Local, "m"));
    assert_eq!(
        config_text(ResolvedClient::from(&settings, "local: ").unwrap_err()),
        "select a model"
    );
}

#[test]
fn a_fallback_without_vision_is_passed_over() {
    let known = vec![
        cloud_model("plain", &["completion"]),
        cloud_model("first", &["vision"]),
        cloud_model("second", &["vision"]),
    ];
    let choose = |fallback: Option<&str>| {
        choose_vision_model("plain", &fallback.map(|f| f.to_string()), &known).unwrap()
    };
    assert_eq!(choose(Some("second")), "second");
    assert_eq!(choose(Some("plain")), "first");
    assert_eq!(choose(Some("unknown")), "first");
    assert_eq!(choose(Some("  ")), "first");
    assert_eq!(choose(None), "first");
    assert_eq!(
        config_text(choose_vision_model("plain", &None, &[]).unwrap_err()),
        "the selected model (plain) does not support images and no vision-capable cloud model \
         is available; choose a vision model in Settings"
    );
}

#[test]
fn the_first_model_of_a_name_counts() {
    let known = vec![
        cloud_model("twin", &["completion"]),
        cloud_model("twin", &["vision"]),
        cloud_model("other", &["vision"]),
    ];
    assert!(!find_cloud_model(&known, "twin").unwrap().supports_vision());
    assert!(find_cloud_model(&known, "none").is_none());
    // The first model that sees is the second of that name.
    assert_eq!(choose_vision_model("twin", &None, &known).unwrap(), "twin");
}

#[test]
fn the_configured_fallback_is_used_on_its_endpoint() {
    let images = ["a".repeat(200)];
    let mut settings = settings();
    let known = vec![
        model_info(Endpoint::Cloud, "plain", &["completion"]),
        model_info(Endpoint::Cloud, "first", &["vision"]),
        model_info(Endpoint::Cloud, "second", &["vision"]),
        model_info(Endpoint::Local, "third", &["vision"]),
        model_info(Endpoint::Local, "fourth", &["vision"]),
    ];
    let route = |settings: &AppSettings, endpoint: Endpoint, name: &str| {
        let found = resolve_turn_model(endpoint, name, settings, &images, &known).unwrap();
        encode_model_id(found.endpoint, &found.model_name)
    };
    assert_eq!(route(&settings, Endpoint::Cloud, "plain"), "cloud:first");
    settings.vision_model = Some("cloud:second".to_string());
    assert_eq!(route(&settings, Endpoint::Cloud, "plain"), "cloud:second");
    assert_eq!(route(&settings, Endpoint::Cloud, "first"), "cloud:first");
    settings.vision_model = Some("second".to_string());
    assert_eq!(route(&settings, Endpoint::Cloud, "plain"), "cloud:second");
    settings.vision_model = Some("local:fourth".to_string());
    assert_eq!(route(&settings, Endpoint::Cloud, "plain"), "cloud:first");
    assert_eq!(route(&settings, Endpoint::Local, "plain"), "local:fourth");
    settings.vision_model = Some("cloud:plain".to_string());
    assert_eq!(route(&settings, Endpoint::Cloud, "plain"), "cloud:first");
}

#[test]
fn images_do_not_move_to_an_unusable_endpoint() {
    let images = ["a".repeat(200)];
    let mut settings = settings();
    settings.api_key = " ".to_string();
    let known = vec![model_info(Endpoint::Cloud, "c", &["vision"])];
    assert_eq!(
        config_text(
            resolve_turn_model(Endpoint::Local, "l", &settings, &images, &known).unwrap_err()
        ),
        "the selected model (l) does not support images and no vision-capable model is \
         available; choose a vision model in Settings"
    );
    settings.api_key = "k".to_string();
    let found = resolve_turn_model(Endpoint::Local, "l", &settings, &images, &known).unwrap();
    assert_eq!((found.endpoint, found.model_name.as_str()), (Endpoint::Cloud, "c"));
}
