use serde_json::Value;
use vane_core::errors::ResearchError;
use vane_core::salt::{fresh_salt, hex_text, salt_of, stored_salt};
use vane_core::shell::{
    initial_settings, lists_cloud, lists_local, merge_models, require_model, require_models,
    require_setup, status_from, with_api_key, with_local_choice, with_local_server, with_model,
};
use vane_core::vault::{
    derive_key, join_blob, open_blob, open_decoded, plaintext_of, seal_settings, split_blob,
};
use vane_core::{
    decrypt_settings, encrypt_settings, normalize_base, AppSettings, CloudModel, Endpoint,
    ModelInfo,
};

fn settings() -> AppSettings {
    AppSettings {
        api_key: "test-key".to_string(),
        model: "gpt-oss:120b".to_string(),
        vision_model: None,
        mode: "balanced".to_string(),
        local_base_url: String::new(),
        local_enabled: false,
    }
}

fn to_json(settings: &AppSettings) -> Vec<u8> {
    let mut object = serde_json::Map::new();
    object.insert("apiKey".to_string(), Value::String(settings.api_key.clone()));
    object.insert("model".to_string(), Value::String(settings.model.clone()));
    object.insert(
        "visionModel".to_string(),
        match &settings.vision_model {
            Some(model) => Value::String(model.clone()),
            None => Value::Null,
        },
    );
    object.insert("mode".to_string(), Value::String(settings.mode.clone()));
    object.insert("localBaseUrl".to_string(), Value::String(settings.local_base_url.clone()));
    object.insert("localEnabled".to_string(), Value::Bool(settings.local_enabled));
    serde_json::to_vec(&Value::Object(object)).unwrap()
}

fn from_json(bytes: &[u8]) -> AppSettings {
    let value: Value = serde_json::from_slice(bytes).unwrap();
    let text = |name: &str| value[name].as_str().unwrap().to_string();
    AppSettings {
        api_key: text("apiKey"),
        model: text("model"),
        vision_model: value["visionModel"].as_str().map(|model| model.to_string()),
        mode: text("mode"),
        local_base_url: text("localBaseUrl"),
        local_enabled: value["localEnabled"].as_bool().unwrap(),
    }
}

fn crypto_text(error: ResearchError) -> String {
    match error {
        ResearchError::Crypto(text) => text,
        other => panic!("not a crypto error: {}", other.message()),
    }
}

#[test]
fn encrypts_and_decrypts_settings() {
    let encoded = encrypt_settings(to_json(&settings()), "device-salt".to_string()).unwrap();
    let decoded = from_json(&decrypt_settings(encoded, "device-salt".to_string()).unwrap());
    assert_eq!(decoded.api_key, "test-key");
    assert_eq!(decoded.model, "gpt-oss:120b");
}

#[test]
fn rejects_wrong_salt() {
    let encoded = encrypt_settings(to_json(&settings()), "salt-a".to_string()).unwrap();
    assert!(decrypt_settings(encoded, "salt-b".to_string()).is_err());
}

#[test]
fn local_settings_round_trip() {
    let mut value = settings();
    value.local_base_url = "http://192.168.1.5:11434".to_string();
    value.local_enabled = true;
    let encoded = encrypt_settings(to_json(&value), "salt".to_string()).unwrap();
    let decoded = from_json(&decrypt_settings(encoded, "salt".to_string()).unwrap());
    assert_eq!(decoded.local_base_url, "http://192.168.1.5:11434");
    assert!(decoded.local_enabled);
}

#[test]
fn the_key_is_the_digest_of_the_prefixed_salt() {
    // SHA-256 of "research-assistant::".
    assert_eq!(
        hex_text(&derive_key("")),
        "7b89f9cef0202658c9cd78d01e940c412d70422eb6ac70060ee247cb0a23214a"
    );
    assert_eq!(derive_key("abc").len(), 32);
    assert_ne!(derive_key("abc"), derive_key("abd"));
}

#[test]
fn sealing_with_a_nonce_is_reproducible() {
    let nonce = [7u8; 12];
    let first = seal_settings(b"{}", "salt", &nonce).unwrap();
    let second = seal_settings(b"{}", "salt", &nonce).unwrap();
    assert_eq!(first, second);
    assert_ne!(first, seal_settings(b"{}", "salt", &[8u8; 12]).unwrap());
    assert_ne!(first, seal_settings(b"{}", "other", &nonce).unwrap());
    // A nonce, two bytes and a tag make 30 bytes, which make 40 characters.
    assert_eq!(first.len(), 40);
    // The nonce comes first.
    assert!(first.starts_with("BwcHBwcHBwcHBwcH"));
    assert_eq!(decrypt_settings(first, "salt".to_string()).unwrap(), b"{}");
}

#[test]
fn random_nonces_differ() {
    let a = encrypt_settings(b"x".to_vec(), "s".to_string()).unwrap();
    let b = encrypt_settings(b"x".to_vec(), "s".to_string()).unwrap();
    assert_ne!(a, b);
}

#[test]
fn broken_settings_are_refused() {
    let refused = |data: &str| {
        crypto_text(decrypt_settings(data.to_string(), "salt".to_string()).unwrap_err())
    };
    assert_eq!(refused("AAAA"), "settings are corrupted");
    assert_eq!(refused(""), "settings are corrupted");
    assert_eq!(refused("*AAA"), "Invalid symbol 42, offset 0.");
    assert_eq!(
        refused("AAAAAAAAAAAAAAAAAAAAAAAAAAAAAAAAAAAAAAAA"),
        "could not decrypt settings; re-enter your API key"
    );
    assert_eq!(crypto_text(open_blob(&[0u8; 27], "salt").unwrap_err()), "settings are corrupted");
    assert_eq!(
        crypto_text(open_blob(&[0u8; 28], "salt").unwrap_err()),
        "could not decrypt settings; re-enter your API key"
    );
    assert_eq!(
        crypto_text(open_decoded(Err("not base64".to_string()), "salt").unwrap_err()),
        "not base64"
    );
    assert_eq!(plaintext_of(Some(vec![1, 2])).unwrap(), vec![1, 2]);
    assert!(plaintext_of(None).is_err());
}

#[test]
fn blobs_are_split_after_the_nonce() {
    let blob = join_blob(&[1u8; 12], &[2u8; 16]);
    assert_eq!(blob.len(), 28);
    let (nonce, sealed) = split_blob(&blob).unwrap();
    assert_eq!((nonce, sealed), (&[1u8; 12][..], &[2u8; 16][..]));
    assert_eq!(crypto_text(split_blob(&blob[..27]).unwrap_err()), "settings are corrupted");
}

#[test]
fn tampering_is_noticed() {
    let data = seal_settings(b"secret", "salt", &[0u8; 12]).unwrap();
    let mut chars: Vec<char> = data.chars().collect();
    let last = chars.len() - 3;
    chars[last] = if chars[last] == 'A' { 'B' } else { 'A' };
    let changed: String = chars.into_iter().collect();
    assert!(decrypt_settings(changed, "salt".to_string()).is_err());
}

#[test]
fn salts_are_hexadecimal_and_found_again() {
    assert_eq!(hex_text(&[0x00, 0x0f, 0xa5, 0xff]), "000fa5ff");
    let salt = fresh_salt().unwrap();
    assert_eq!(salt.len(), 64);
    assert_eq!(stored_salt(&salt), Some(salt.clone()));
    assert_eq!(stored_salt(&format!(" {salt}\n")), Some(salt.clone()));
    assert_ne!(salt, fresh_salt().unwrap());
    assert_ne!(salt, "0".repeat(64));
}

#[test]
fn a_salt_is_made_of_what_was_drawn() {
    assert_eq!(salt_of(Ok(vec![0xab; 32])), Ok("ab".repeat(32)));
    assert_eq!(salt_of(Err("no entropy".to_string())), Err("no entropy".to_string()));
}

#[test]
fn other_texts_are_no_salts() {
    assert_eq!(stored_salt(""), None);
    assert_eq!(stored_salt(&"a".repeat(63)), None);
    assert_eq!(stored_salt(&"a".repeat(65)), None);
    assert_eq!(stored_salt(&"g".repeat(64)), None);
    // 64 bytes, but not of hexadecimal digits.
    assert_eq!(stored_salt(&"ä".repeat(32)), None);
    assert_eq!(stored_salt(&"AbC9".repeat(16)), Some("AbC9".repeat(16)));
}

#[test]
fn status_tells_what_is_configured() {
    let nothing = status_from(None);
    assert!(!nothing.configured && !nothing.has_api_key && !nothing.local_enabled);
    assert_eq!(nothing.mode, "");
    let status = status_from(Some(settings()));
    assert!(status.configured && status.has_api_key);
    assert_eq!(status.model, "gpt-oss:120b");
    assert_eq!(status.mode, "balanced");
    let mut local = settings();
    local.api_key = String::new();
    assert!(!status_from(Some(local.clone())).configured);
    local.local_enabled = true;
    let status = status_from(Some(local));
    assert!(status.configured && !status.has_api_key && status.local_enabled);
}

#[test]
fn settings_change_only_where_they_should() {
    let first = initial_settings("key".to_string());
    assert_eq!((first.api_key.as_str(), first.mode.as_str()), ("key", "balanced"));
    assert_eq!((first.model.as_str(), first.local_enabled), ("", false));

    let mut stored = settings();
    stored.mode = String::new();
    let local = with_local_server(Some(stored.clone()), "host:1".to_string());
    assert_eq!(local.local_base_url, "host:1");
    assert!(local.local_enabled);
    assert_eq!((local.mode.as_str(), local.api_key.as_str()), ("balanced", "test-key"));
    assert_eq!(local.model, "gpt-oss:120b");
    let fresh = with_local_server(None, "host:1".to_string());
    assert_eq!((fresh.api_key.as_str(), fresh.mode.as_str()), ("", "balanced"));

    stored.mode = "speed".to_string();
    let keyed = with_api_key(Some(stored.clone()), "new".to_string());
    assert_eq!((keyed.api_key.as_str(), keyed.mode.as_str()), ("new", "speed"));
    assert_eq!(keyed.model, "gpt-oss:120b");

    let chosen = with_model(
        Some(stored.clone()),
        "local:m".to_string(),
        Some("cloud:v".to_string()),
        "quality".to_string(),
    )
    .unwrap();
    assert_eq!(chosen.model, "local:m");
    assert_eq!(chosen.vision_model, Some("cloud:v".to_string()));
    assert_eq!((chosen.mode.as_str(), chosen.api_key.as_str()), ("quality", "test-key"));

    let moved = with_local_choice(Some(stored), "b".to_string(), true).unwrap();
    assert_eq!((moved.local_base_url.as_str(), moved.local_enabled), ("b", true));
    assert_eq!(moved.model, "gpt-oss:120b");
}

#[test]
fn setup_comes_first() {
    let missing = "Complete setup first.";
    assert_eq!(require_setup(None).unwrap_err(), missing);
    assert_eq!(require_model(None).unwrap_err(), missing);
    assert_eq!(
        with_model(None, String::new(), None, String::new()).unwrap_err(),
        missing
    );
    assert_eq!(with_local_choice(None, String::new(), false).unwrap_err(), missing);
    let mut stored = settings();
    assert_eq!(require_model(Some(stored.clone())).unwrap().model, "gpt-oss:120b");
    stored.model = String::new();
    assert_eq!(
        require_model(Some(stored.clone())).unwrap_err(),
        "Choose a model in Settings first."
    );
    assert!(require_setup(Some(stored)).is_ok());
}

#[test]
fn lists_are_asked_for_where_they_can_be_had() {
    let mut stored = settings();
    assert!(lists_cloud(&stored));
    assert!(!lists_local(&stored));
    stored.local_enabled = true;
    // A blank address stands for the default server.
    assert!(lists_local(&stored));
    stored.local_base_url = "  ".to_string();
    assert!(lists_local(&stored));
    stored.local_base_url = "host".to_string();
    assert!(lists_local(&stored));
    stored.local_enabled = false;
    assert!(!lists_local(&stored));
    stored.api_key = String::new();
    assert!(!lists_cloud(&stored));
}

#[test]
fn a_server_set_up_without_an_address_is_listed() {
    let stored = with_local_server(None, String::new());
    assert!(lists_local(&stored));
    assert!(!lists_cloud(&stored));
    assert_eq!(normalize_base(&stored.local_base_url).unwrap(), "http://127.0.0.1:11434");
    assert!(!lists_local(&initial_settings("key".to_string())));
}

#[test]
fn lists_are_merged_cloud_first() {
    let cloud = || {
        vec![CloudModel {
            name: "c".to_string(),
            parameter_size: "1B".to_string(),
            capabilities: vec!["vision".to_string()],
        }]
    };
    let local = || {
        vec![ModelInfo {
            endpoint: Endpoint::Local,
            name: "l".to_string(),
            parameter_size: String::new(),
            capabilities: Vec::new(),
        }]
    };
    let both = merge_models(Some(cloud()), Some(local()));
    assert_eq!(both.len(), 2);
    assert_eq!((both[0].endpoint, both[0].name.as_str()), (Endpoint::Cloud, "c"));
    assert_eq!(both[0].parameter_size, "1B");
    assert!(both[0].supports_vision());
    assert_eq!((both[1].endpoint, both[1].name.as_str()), (Endpoint::Local, "l"));
    let only_local = merge_models(None, Some(local()));
    assert_eq!(only_local.len(), 1);
    assert_eq!(only_local[0].name, "l");
    assert!(merge_models(None, None).is_empty());
    assert!(require_models(Vec::new()).is_err());
    assert_eq!(require_models(local()).unwrap().len(), 1);
}
