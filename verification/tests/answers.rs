use vane_core::api::{is_success, keyed_reply_problem, reply_problem};
use vane_core::errors::{
    local_chat_unreachable, local_server_unreachable, refusal_from_members, server_error,
    ResearchError,
};
use vane_core::images::{clean_image, sanitize_images};
use vane_core::servers::{local_base_url, normalize_base, normalize_parsed, DEFAULT_LOCAL_BASE};
use vane_core::text::{
    byte_len, clip, contains_part, chars_of, decimal_text, is_blank, is_white_space, same_text,
    trim, trim_trailing,
};
use vane_core::{validate_research, AppSettings};

#[test]
fn validates_research() {
    assert!(validate_research("  ", "balanced").is_err());
    assert!(validate_research("What is Ollama?", "quality").is_ok());
    assert!(validate_research("What is Ollama?", "unknown").is_err());
}

#[test]
fn strips_data_url_prefix_from_images() {
    let long = "a".repeat(100);
    let images = sanitize_images(vec![format!("data:image/png;base64,{long}")]);
    assert_eq!(images, vec![long]);
}

#[test]
fn normalizes_local_base_urls() {
    assert_eq!(normalize_base("").unwrap(), DEFAULT_LOCAL_BASE);
    assert_eq!(normalize_base("192.168.1.10:11434").unwrap(), "http://192.168.1.10:11434");
    assert_eq!(normalize_base("http://localhost:11434").unwrap(), "http://localhost:11434");
    assert_eq!(normalize_base("http://localhost:11434/").unwrap(), "http://localhost:11434");
    assert!(normalize_base("not a url").is_err());
}

#[test]
fn questions_are_checked_in_order() {
    let message = |query: &str, mode: &str| validate_research(query, mode).unwrap_err().message();
    assert_eq!(message("", "nope"), "Invalid API configuration: the query cannot be empty");
    assert_eq!(message("q", ""), "Invalid API configuration: unknown research mode");
    assert_eq!(message("q", "Speed"), "Invalid API configuration: unknown research mode");
    assert!(validate_research("q", "speed").is_ok());
    assert!(validate_research("q", "balanced").is_ok());
}

#[test]
fn white_space_is_what_unicode_says() {
    for c in (0..=0x10ffffu32).filter_map(char::from_u32) {
        assert_eq!(is_white_space(c), c.is_whitespace(), "{c:?}");
    }
}

#[test]
fn text_operations_agree_with_std() {
    for s in ["", " ", "a", "  a b\u{a0}\u{3000}", "\r\nx\t", "ä ö", "\u{2003}é\u{85}"] {
        assert_eq!(trim(s), s.trim());
        assert_eq!(is_blank(s), s.trim().is_empty());
        assert_eq!(byte_len(s), s.len());
        for t in ["", " ", "a", "ä ö"] {
            assert_eq!(same_text(s, t), s == t);
            assert_eq!(contains_part(&chars_of(s), &chars_of(t)), s.contains(t));
        }
        for n in 0..4 {
            assert_eq!(clip(s, n), s.chars().take(n).collect::<String>());
        }
    }
    assert_eq!(trim_trailing("a//b///", '/'), "a//b");
    assert_eq!(trim_trailing("///", '/'), "");
    for n in [0, 7, 10, 404, 65535, usize::MAX] {
        assert_eq!(decimal_text(n), n.to_string());
    }
}

#[test]
fn base_urls_get_a_scheme_and_lose_slashes() {
    let base = |entered: &str| {
        local_base_url(&AppSettings {
            api_key: String::new(),
            model: String::new(),
            vision_model: None,
            mode: String::new(),
            local_base_url: entered.to_string(),
            local_enabled: true,
        })
    };
    assert_eq!(base(" "), "http://127.0.0.1:11434");
    assert_eq!(base(" host:1/ "), "http://host:1");
    assert_eq!(base("https://h///"), "https://h");
    assert_eq!(base("HTTP://h"), "http://HTTP://h");
    assert_eq!(base("//"), "http:");
}

#[test]
fn addresses_are_normalized_by_the_url_parser() {
    assert_eq!(normalize_base(" HOST:80/x/ ").unwrap(), "http://host/x");
    assert_eq!(normalize_base("https://h:443").unwrap(), "https://h");
    assert_eq!(
        normalize_base("a b").unwrap_err().message(),
        "Invalid API configuration: invalid Ollama server address: a b"
    );
    assert_eq!(normalize_parsed("x", Some("u//".to_string())).unwrap(), "u");
    assert_eq!(normalize_parsed(" ", Some("u".to_string())).unwrap(), DEFAULT_LOCAL_BASE);
    assert!(normalize_parsed("x", None).is_err());
}

#[test]
fn images_lose_white_space_and_short_ones_go() {
    let long = "b".repeat(65);
    assert_eq!(clean_image(&format!(" data:x , {long}\n ")), long);
    // Only what begins with `data:` is a prefix.
    assert_eq!(clean_image("x,y z"), "x,yz");
    assert_eq!(clean_image("data:no comma"), "data:nocomma");
    let kept = sanitize_images(vec!["c".repeat(64), long.clone(), String::new()]);
    assert_eq!(kept, vec![long.clone()]);
    // 33 characters of two bytes each.
    assert_eq!(sanitize_images(vec!["ä".repeat(33)]).len(), 1);
    assert_eq!(sanitize_images(kept.clone()), kept);
    // A second prefix is left alone until the next time.
    let nested = format!("data:,data:y,{long}");
    let once = sanitize_images(vec![nested]);
    assert_eq!(once, vec![format!("data:y,{long}")]);
    assert_eq!(sanitize_images(once), vec![long]);
}

fn told(error: ResearchError) -> String {
    match error {
        ResearchError::Server(text) => text,
        other => panic!("not a refusal: {}", other.message()),
    }
}

#[test]
fn refusals_quote_what_the_server_says() {
    assert_eq!(told(server_error(404, r#"{"error":"no such model"}"#)), "404: no such model");
    assert_eq!(told(server_error(500, r#"{"message":"oops"}"#)), "500: oops");
    assert_eq!(told(server_error(500, r#"{"message":"m","error":"e"}"#)), "500: e");
    assert_eq!(told(server_error(500, r#"{"a":{"error":"x"}}"#)), r#"500: {"a":{"error":"x"}}"#);
    // An `error` that is no string hides a `message`.
    assert_eq!(
        told(server_error(400, r#"{"error":1,"message":"m"}"#)),
        r#"400: {"error":1,"message":"m"}"#
    );
    assert_eq!(told(server_error(400, r#"["error"]"#)), r#"400: ["error"]"#);
    assert_eq!(told(server_error(502, "Bad gateway")), "502: Bad gateway");
    assert_eq!(told(server_error(502, "")), "502: ");
    assert_eq!(told(server_error(502, &"ä".repeat(300))), format!("502: {}", "ä".repeat(240)));
    // The last of two members of one name counts.
    assert_eq!(told(server_error(400, r#"{"error":"a","error":"b"}"#)), "400: b");
}

#[test]
fn refusals_are_made_of_members() {
    let member = |name: &str, value: Option<&str>| {
        (name.to_string(), value.map(|text| text.to_string()))
    };
    let refusal = |members| told(refusal_from_members(418, "body", members));
    assert_eq!(refusal(None), "418: body");
    assert_eq!(refusal(Some(vec![])), "418: body");
    assert_eq!(refusal(Some(vec![member("message", Some("m"))])), "418: m");
    assert_eq!(
        refusal(Some(vec![member("message", Some("m")), member("error", Some("e"))])),
        "418: e"
    );
    assert_eq!(
        refusal(Some(vec![member("message", Some("m")), member("error", None)])),
        "418: body"
    );
}

#[test]
fn statuses_are_judged() {
    assert!(is_success(200) && is_success(299));
    assert!(!is_success(199) && !is_success(300) && !is_success(401));
    assert!(reply_problem(204, "x").is_none());
    assert!(keyed_reply_problem(200, "x").is_none());
    assert_eq!(told(reply_problem(401, "no").unwrap()), "401: no");
    assert_eq!(
        told(keyed_reply_problem(401, "no").unwrap()),
        "invalid API key; check your key at ollama.com/settings/keys"
    );
    assert_eq!(told(keyed_reply_problem(403, "no").unwrap()), "403: no");
}

#[test]
fn each_error_has_its_message() {
    let text = || "x".to_string();
    assert_eq!(ResearchError::InvalidConfig(text()).message(), "Invalid API configuration: x");
    assert_eq!(ResearchError::Network(text()).message(), "Could not reach Ollama Cloud: x");
    assert_eq!(
        ResearchError::InvalidResponse(text()).message(),
        "Ollama Cloud returned an invalid response: x"
    );
    assert_eq!(ResearchError::Server(text()).message(), "Ollama Cloud rejected the request: x");
    assert_eq!(ResearchError::Crypto(text()).message(), "Could not encrypt settings: x");
    assert_eq!(
        local_chat_unreachable("http://h", "refused").message(),
        "Could not reach Ollama Cloud: could not reach the local Ollama server at http://h; \
         is it running? (refused)"
    );
    assert_eq!(
        local_server_unreachable("http://h", "refused").message(),
        "Could not reach Ollama Cloud: could not reach http://h: refused"
    );
}
