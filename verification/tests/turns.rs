use vane_core::api::{
    local_show_request, local_tags_request, show_request, tags_request, web_fetch_request,
    web_search_request, ApiRequest, ChatRequest, RequestBody, Role,
};
use vane_core::chat::{build_answer_messages, phrases_body, RESEARCH_SYSTEM, VISION_SYSTEM};
use vane_core::sources::{
    build_context, choose_terms, fetched_page, gather_sources, search_sources, WebSearchResult,
};
use vane_core::stream::{apply_chunk, read_line, LineBuffer, StreamChunk, StreamMessage};
use vane_core::turn::{Action, Event, Progress, Stage, Turn};
use vane_core::{
    AppSettings, CloudModel, Endpoint, HistoryEntry, ModelInfo, ResearchClient, ResearchResponse,
    SearchSource, StreamEvent,
};

fn settings(api_key: &str, model: &str) -> AppSettings {
    AppSettings {
        api_key: api_key.to_string(),
        model: model.to_string(),
        vision_model: None,
        mode: "balanced".to_string(),
        local_base_url: "host:1/".to_string(),
        local_enabled: true,
    }
}

fn source(url: &str) -> SearchSource {
    SearchSource {
        title: format!("T {url}"),
        url: url.to_string(),
        content: format!("C {url}"),
    }
}

fn urls(sources: &[SearchSource]) -> Vec<&str> {
    sources.iter().map(|s| s.url.as_str()).collect()
}

fn chunk(thinking: Option<&str>, content: Option<&str>, done: bool) -> StreamChunk {
    StreamChunk {
        message: Some(StreamMessage {
            thinking: thinking.map(|t| t.to_string()),
            content: content.map(|t| t.to_string()),
        }),
        done,
    }
}

fn event_texts(events: &[StreamEvent]) -> Vec<String> {
    events
        .iter()
        .map(|event| match event {
            StreamEvent::Phase { phase } => format!("phase {phase}"),
            StreamEvent::ThinkingDelta { delta } => format!("thinking {delta}"),
            StreamEvent::AnswerDelta { delta } => format!("answer {delta}"),
            StreamEvent::Done(response) => {
                format!("done {} {:?}", response.message, urls(&response.sources))
            }
        })
        .collect()
}

fn chat_of(request: &ApiRequest) -> &ChatRequest {
    match &request.body {
        RequestBody::Chat(chat) => chat,
        other => panic!("not a chat: {other:?}"),
    }
}

fn asked(progress: Progress) -> ApiRequest {
    match progress.action {
        Some(Action::Ask(request)) => request,
        other => panic!("not a request for phrases: {other:?}"),
    }
}

fn streamed(progress: Progress) -> ApiRequest {
    match progress.action {
        Some(Action::Stream(request)) => request,
        other => panic!("not a request for the answer: {other:?}"),
    }
}

fn finished(progress: Progress) -> ResearchResponse {
    match progress.action {
        Some(Action::Finish(response)) => response,
        other => panic!("not finished: {other:?}"),
    }
}

fn empty_response() -> ResearchResponse {
    ResearchResponse {
        message: String::new(),
        sources: Vec::new(),
        model: "m".to_string(),
        thinking: String::new(),
    }
}

#[test]
fn requests_go_where_they_should() {
    let check = |request: ApiRequest, url: &str, bearer: Option<&str>| {
        assert_eq!(request.url, url);
        assert_eq!(request.bearer.as_deref(), bearer);
        request.body
    };
    let body = check(tags_request("k"), "https://ollama.com/api/tags", Some("k"));
    assert!(matches!(body, RequestBody::Nothing));
    let body = check(show_request("k", "m"), "https://ollama.com/api/show", Some("k"));
    assert!(matches!(body, RequestBody::Show { model } if model == "m"));
    check(local_tags_request("http://h"), "http://h/api/tags", None);
    check(local_show_request("http://h", "m"), "http://h/api/show", None);
    let body = check(
        web_search_request("q", 11, "k"),
        "https://ollama.com/api/web_search",
        Some("k"),
    );
    assert!(matches!(body, RequestBody::Search { query, max_results: 10 } if query == "q"));
    let body = web_search_request("q", 3, "k").body;
    assert!(matches!(body, RequestBody::Search { max_results: 3, .. }));
    let body = check(
        web_fetch_request("http://p", "k"),
        "https://ollama.com/api/web_fetch",
        Some("k"),
    );
    assert!(matches!(body, RequestBody::Fetch { url } if url == "http://p"));
}

#[test]
fn conversations_keep_the_latest_messages() {
    let history: Vec<HistoryEntry> = (0..12)
        .map(|i| HistoryEntry {
            role: if i % 2 == 0 { "user" } else { "assistant" }.to_string(),
            content: format!("m{i}"),
        })
        .collect();
    let messages = build_answer_messages("q", "", &history, &Vec::new());
    assert_eq!(messages.len(), 12);
    assert_eq!((messages[0].role, messages[0].content.as_str()), (Role::System, RESEARCH_SYSTEM));
    assert_eq!((messages[1].role, messages[1].content.as_str()), (Role::User, "m2"));
    assert_eq!((messages[10].role, messages[10].content.as_str()), (Role::Assistant, "m11"));
    assert_eq!((messages[11].role, messages[11].content.as_str()), (Role::User, "q"));

    let images = vec!["i".to_string()];
    let messages = build_answer_messages("q", "ctx", &[], &images);
    assert_eq!(messages.len(), 2);
    assert_eq!(messages[0].content, VISION_SYSTEM);
    assert_eq!(messages[1].content, "Question: q\n\nSources:\nctx");
    assert_eq!(messages[1].images, images);

    let body = phrases_body("m", "q", &history);
    assert_eq!(body.messages.len(), 7);
    assert_eq!(body.messages[0].content, "m6");
    assert_eq!(
        body.messages[6].content,
        "Generate exactly 3 short web search phrases to research this question. Return one per \
         line, no numbering, no JSON, no quotes.\n\nQuestion: q"
    );
    assert!(!body.stream);
    assert_eq!((body.temperature_tenths, body.num_predict), (1, Some(128)));
    assert_eq!((body.think, body.num_ctx), (None, None));

    let stranger = [HistoryEntry { role: "tool".to_string(), content: "t".to_string() }];
    assert_eq!(phrases_body("m", "q", &stranger).messages[0].role, Role::User);
}

#[test]
fn phrases_become_search_terms() {
    let terms = |reply: Option<&str>| choose_terms(&reply.map(|r| r.to_string()), "the question");
    assert_eq!(terms(None), vec!["the question"]);
    assert_eq!(terms(Some("")), vec!["the question"]);
    assert_eq!(terms(Some(" \n\t\r\n")), vec!["the question"]);
    assert_eq!(terms(Some("a\n\n b \r\nc")), vec!["a", "b", "c"]);
    assert_eq!(terms(Some(&"ä".repeat(200))), vec!["ä".repeat(120)]);
    assert_eq!(terms(Some("a\rb")), vec!["a\rb"]);
}

#[test]
fn results_become_sources() {
    let result = |title: Option<&str>, url: Option<&str>, content: Option<&str>| WebSearchResult {
        title: title.map(|t| t.to_string()),
        url: url.map(|t| t.to_string()),
        content: content.map(|t| t.to_string()),
    };
    let sources = search_sources(&vec![
        result(Some("t"), Some("u"), Some("c")),
        result(None, None, None),
    ]);
    assert_eq!(sources.len(), 2);
    assert_eq!((sources[0].title.as_str(), sources[0].url.as_str()), ("t", "u"));
    assert_eq!(sources[0].content, "c");
    assert_eq!(sources[1].title, "Untitled source");
    assert_eq!((sources[1].url.as_str(), sources[1].content.as_str()), ("", ""));
    let page = fetched_page("u", &None, &Some("c".to_string()));
    assert_eq!((page.title.as_str(), page.url.as_str()), ("Untitled page", "u"));
    assert_eq!(page.content, "c");
}

#[test]
fn each_url_is_kept_once() {
    let found = gather_sources(&vec![
        Some(vec![source("a"), source("a"), source("b")]),
        None,
        Some(vec![source("b"), source("a")]),
    ]);
    assert_eq!(urls(&found), vec!["a", "b"]);
    let mut later = source("a");
    later.title = "later".to_string();
    let found = gather_sources(&vec![Some(vec![source("a"), source("b"), later])]);
    assert_eq!(urls(&found), vec!["a", "b"]);
    // The first source with the URL stays.
    assert_eq!(found[0].title, "T a");
    // Repetitions do not count towards the twelve.
    let twice = (0..24).map(|i| source(&(i / 2).to_string())).collect();
    assert_eq!(gather_sources(&vec![Some(twice)]).len(), 12);
    let many = (0..20).map(|i| source(&i.to_string())).collect();
    let found = gather_sources(&vec![Some(many)]);
    assert_eq!(found.len(), 12);
    assert_eq!(found[11].url, "11");
    assert!(gather_sources(&vec![None, None]).is_empty());
}

#[test]
fn context_is_shared_evenly_and_bounded() {
    assert_eq!(build_context(&[], "balanced"), "");
    assert_eq!(
        build_context(&[source("a"), source("b")], "balanced"),
        "--- Source 1 ---\nTitle: T a\nURL: a\nContent: C a\n\n\
         --- Source 2 ---\nTitle: T b\nURL: b\nContent: C b\n\n"
    );
    let long = |n: usize, c: &str| SearchSource {
        title: String::new(),
        url: String::new(),
        content: c.repeat(n),
    };
    // A single source may take the whole limit, which leaves no room for its heading.
    assert_eq!(build_context(&[long(4000, "x")], "speed"), "");
    let heading = "--- Source 1 ---\nTitle: \nURL: \nContent: \n\n".len();
    assert_eq!(build_context(&[long(4000 - heading, "x")], "speed").len(), 4000);
    assert_eq!(build_context(&[long(9000 - heading, "x")], "balanced").len(), 9000);
    assert_eq!(build_context(&[long(9000 - heading, "x")], "").len(), 9000);
    assert_eq!(build_context(&[long(18_000 - heading, "x")], "quality").len(), 18_000);
    // The first source that does not fit ends the context.
    let three = [long(1, "x"), long(5000, "ä"), long(1, "z")];
    assert!(build_context(&three, "speed").ends_with('\n'));
    assert!(build_context(&three, "speed").contains(&"ä".repeat(1333)));
    assert!(!build_context(&three, "speed").contains(&"ä".repeat(1334)));
    let full = [long(1, "x"), long(5000, "€"), long(1, "z")];
    assert_eq!(build_context(&full, "speed").matches("--- Source").count(), 1);
}

#[test]
fn lines_are_cut_out_of_pieces() {
    let mut buffer = LineBuffer::new();
    assert_eq!(buffer.next_line(), None);
    buffer.feed(b" one \n\n  \r\ntw");
    assert_eq!(buffer.next_line(), Some("one".to_string()));
    assert_eq!(buffer.next_line(), None);
    buffer.feed("o ä".as_bytes());
    assert_eq!(buffer.next_line(), None);
    buffer.feed(b"\nthree\nrest");
    assert_eq!(buffer.next_line(), Some("two ä".to_string()));
    assert_eq!(buffer.next_line(), Some("three".to_string()));
    assert_eq!(buffer.next_line(), None);
    assert_eq!(buffer.next_line(), None);
}

#[test]
fn lines_do_not_depend_on_where_the_bytes_are_cut() {
    let bytes = "{\"a\":\"ä€\"}\n\n{}\ntail".as_bytes();
    for cut in 0..=bytes.len() {
        let mut buffer = LineBuffer::new();
        let mut lines = Vec::new();
        for piece in [&bytes[..cut], &bytes[cut..]] {
            buffer.feed(piece);
            while let Some(line) = buffer.next_line() {
                lines.push(line);
            }
        }
        assert_eq!(lines, vec!["{\"a\":\"ä€\"}", "{}"]);
    }
}

#[test]
fn broken_utf8_is_replaced() {
    assert_eq!(read_line(b" a\xffb \n"), "a\u{fffd}b");
    assert_eq!(read_line("ä\n".as_bytes()), "ä");
}

#[test]
fn chunks_extend_the_response() {
    let mut out = empty_response();
    let events = apply_chunk(&mut out, chunk(Some("hm"), Some("Hel"), false));
    assert_eq!(event_texts(&events), vec!["thinking hm", "answer Hel"]);
    let events = apply_chunk(&mut out, chunk(Some(""), Some(""), false));
    assert!(events.is_empty());
    let events = apply_chunk(&mut out, StreamChunk { message: None, done: true });
    assert!(events.is_empty());
    let events = apply_chunk(&mut out, chunk(None, Some("lo"), true));
    assert_eq!(event_texts(&events), vec!["answer lo"]);
    assert_eq!((out.message.as_str(), out.thinking.as_str()), ("Hello", "hm"));
    assert_eq!(out.model, "m");
}

#[test]
fn a_terminal_chunk_that_repeats_the_answer_does_not_double_it() {
    let mut out = empty_response();
    apply_chunk(&mut out, chunk(None, Some("Hel"), false));
    apply_chunk(&mut out, chunk(None, Some("lo"), false));
    let events = apply_chunk(&mut out, chunk(None, Some("Hello"), true));
    assert!(events.is_empty());
    assert_eq!(out.message, "Hello");
    // A terminal chunk with something else is the last part of the answer.
    let events = apply_chunk(&mut out, chunk(None, Some("!"), true));
    assert_eq!(event_texts(&events), vec!["answer !"]);
    assert_eq!(out.message, "Hello!");
    // A chunk that is not terminal is a part of the answer, whatever it holds.
    let mut out = empty_response();
    apply_chunk(&mut out, chunk(None, Some("ha"), false));
    apply_chunk(&mut out, chunk(None, Some("ha"), false));
    assert_eq!(out.message, "haha");
}

#[test]
fn a_turn_hands_out_a_repeated_answer_once() {
    let mut turn = cloud_turn("speed", Vec::new(), Vec::new());
    turn.step(Event::Start);
    turn.step(Event::Phrases(None));
    turn.step(Event::Found(vec![Some(vec![source("u1"), source("u2"), source("u1")])]));
    turn.step(Event::Chunk(chunk(None, Some("Hel"), false)));
    turn.step(Event::Chunk(chunk(None, Some("lo"), false)));
    assert!(turn.step(Event::Chunk(chunk(None, Some("Hello"), true))).events.is_empty());
    let progress = turn.step(Event::End);
    assert_eq!(event_texts(&progress.events), vec!["done Hello [\"u1\", \"u2\"]"]);
    let response = finished(progress);
    assert_eq!(response.message, "Hello");
    assert_eq!(urls(&response.sources), vec!["u1", "u2"]);
}

#[test]
fn a_whole_answer_in_the_last_chunk_is_not_told_as_progress() {
    let mut out = empty_response();
    let events = apply_chunk(&mut out, chunk(Some("t"), Some("all"), true));
    assert_eq!(event_texts(&events), vec!["thinking t"]);
    assert_eq!((out.message.as_str(), out.thinking.as_str()), ("all", "t"));
}

fn cloud_turn(mode: &str, images: Vec<String>, known: Vec<CloudModel>) -> Turn {
    let client = ResearchClient::new("key".to_string(), "m".to_string()).unwrap();
    client
        .research_stream("q".to_string(), mode.to_string(), Vec::new(), images, None, known)
        .unwrap()
}

fn cloud_model(name: &str, capabilities: &[&str]) -> CloudModel {
    CloudModel {
        name: name.to_string(),
        parameter_size: String::new(),
        capabilities: capabilities.iter().map(ToString::to_string).collect(),
    }
}

fn model_info(endpoint: Endpoint, name: &str, capabilities: &[&str]) -> ModelInfo {
    ModelInfo {
        endpoint,
        name: name.to_string(),
        parameter_size: String::new(),
        capabilities: capabilities.iter().map(ToString::to_string).collect(),
    }
}

#[test]
fn a_cloud_turn_plans_searches_and_writes() {
    let mut turn = cloud_turn("balanced", Vec::new(), vec![cloud_model("m", &["thinking"])]);
    let progress = turn.step(Event::Start);
    assert_eq!(event_texts(&progress.events), vec!["phase planning"]);
    let request = asked(progress);
    assert_eq!(request.url, "https://ollama.com/api/chat");
    assert_eq!(request.bearer.as_deref(), Some("key"));
    assert_eq!(chat_of(&request).num_predict, Some(128));

    let progress = turn.step(Event::Phrases(Some("one\ntwo\nthree\nfour".to_string())));
    assert_eq!(event_texts(&progress.events), vec!["phase searching"]);
    match progress.action {
        Some(Action::Search { requests, concurrent }) => {
            assert!(concurrent);
            assert_eq!(requests.len(), 3);
            assert_eq!(requests[2].url, "https://ollama.com/api/web_search");
            assert_eq!(requests[2].bearer.as_deref(), Some("key"));
            assert!(matches!(
                &requests[2].body,
                RequestBody::Search { query, max_results: 6 } if query == "three"
            ));
        }
        other => panic!("no search: {other:?}"),
    }

    let progress = turn.step(Event::Found(vec![Some(vec![source("a"), source("a")]), None]));
    assert_eq!(event_texts(&progress.events), vec!["phase writing"]);
    let request = streamed(progress);
    let chat = chat_of(&request);
    assert_eq!(request.url, "https://ollama.com/api/chat");
    assert!(chat.stream);
    assert_eq!((chat.think, chat.num_ctx), (Some(true), Some(32_768)));
    assert_eq!(chat.temperature_tenths, 2);
    assert!(chat.messages[1].content.starts_with("Question: q\n\nSources:\n--- Source 1 ---"));

    let progress = turn.step(Event::Chunk(chunk(Some("hm"), Some(" An"), false)));
    assert_eq!(event_texts(&progress.events), vec!["thinking hm", "answer  An"]);
    assert!(progress.action.is_none());
    turn.step(Event::Chunk(chunk(None, Some("swer \n"), true)));
    let progress = turn.step(Event::End);
    assert_eq!(event_texts(&progress.events), vec!["done Answer [\"a\"]"]);
    let response = finished(progress);
    assert_eq!((response.message.as_str(), response.thinking.as_str()), ("Answer", "hm"));
    assert_eq!(response.model, "m");
    assert_eq!(urls(&response.sources), vec!["a"]);
    assert_eq!(turn.stage, Stage::Finished);
}

#[test]
fn a_speed_turn_searches_one_by_one() {
    let mut turn = cloud_turn("speed", Vec::new(), Vec::new());
    turn.step(Event::Start);
    match turn.step(Event::Phrases(None)).action {
        Some(Action::Search { requests, concurrent }) => {
            assert!(!concurrent);
            assert_eq!(requests.len(), 1);
            assert!(matches!(
                &requests[0].body,
                RequestBody::Search { query, max_results: 5 } if query == "q"
            ));
        }
        other => panic!("no search: {other:?}"),
    }
    let request = streamed(turn.step(Event::Found(Vec::new())));
    assert_eq!(chat_of(&request).messages[1].content, "q");
    assert_eq!(chat_of(&request).think, Some(false));
}

#[test]
fn an_image_turn_only_writes() {
    let image = "i".repeat(100);
    let known = vec![cloud_model("m", &[]), cloud_model("v", &["vision"])];
    let mut turn = cloud_turn("quality", vec![image.clone()], known);
    let progress = turn.step(Event::Start);
    assert_eq!(event_texts(&progress.events), vec!["phase writing"]);
    let request = streamed(progress);
    assert_eq!(chat_of(&request).model, "v");
    assert_eq!(chat_of(&request).messages.last().unwrap().images, vec![image]);
    let response = finished(turn.step(Event::End));
    assert_eq!((response.model.as_str(), response.message.as_str()), ("v", ""));
    assert!(response.sources.is_empty());
}

#[test]
fn cloud_turns_are_checked_first() {
    let client = ResearchClient::new("key".to_string(), "m".to_string()).unwrap();
    let start = |query: &str, mode: &str, images: Vec<String>| {
        client
            .research_stream(
                query.to_string(),
                mode.to_string(),
                Vec::new(),
                images,
                None,
                Vec::new(),
            )
            .map(|turn| turn.model)
            .map_err(|e| e.message())
    };
    assert_eq!(
        start(" ", "speed", Vec::new()).unwrap_err(),
        "Invalid API configuration: the query cannot be empty"
    );
    assert_eq!(
        start("q", "fast", Vec::new()).unwrap_err(),
        "Invalid API configuration: unknown research mode"
    );
    assert!(start("q", "speed", vec!["i".repeat(100)]).is_err());
    // What is too short to be an image does not count.
    assert_eq!(start("q", "speed", vec!["i".to_string()]).unwrap(), "m");
}

#[test]
fn reports_that_do_not_fit_change_nothing() {
    let mut turn = cloud_turn("balanced", Vec::new(), Vec::new());
    for event in [Event::Phrases(None), Event::Found(Vec::new()), Event::End] {
        let progress = turn.step(event);
        assert!(progress.events.is_empty() && progress.action.is_none());
        assert_eq!(turn.stage, Stage::Ready);
    }
    turn.step(Event::Start);
    assert!(turn.step(Event::Start).action.is_none());
    assert!(turn.step(Event::Chunk(chunk(None, Some("x"), false))).events.is_empty());
    assert_eq!(turn.stage, Stage::Planning);
    assert_eq!(turn.response.message, "");
}

#[test]
fn a_local_turn_without_a_key_only_writes() {
    let settings = settings("", "local:l");
    let known = vec![model_info(Endpoint::Local, "l", &["thinking"])];
    let mut turn = ResearchClient::for_shell(&settings)
        .research_any(&settings, "q".to_string(), "any".to_string(), Vec::new(), Vec::new(), known)
        .unwrap();
    let progress = turn.step(Event::Start);
    assert_eq!(event_texts(&progress.events), vec!["phase writing"]);
    let request = streamed(progress);
    assert_eq!(request.url, "http://host:1/api/chat");
    assert_eq!(request.bearer, None);
    assert_eq!((chat_of(&request).think, chat_of(&request).num_ctx), (Some(true), Some(8_192)));
    turn.step(Event::Chunk(chunk(None, Some("a"), false)));
    let response = finished(turn.step(Event::End));
    assert_eq!((response.model.as_str(), response.message.as_str()), ("local:l", "a"));
}

#[test]
fn a_local_turn_with_a_key_is_grounded_by_web_search() {
    let settings = settings(" key ", "local:l");
    let mut turn = ResearchClient::for_shell(&settings)
        .research_any(
            &settings,
            "q".to_string(),
            "quality".to_string(),
            Vec::new(),
            Vec::new(),
            Vec::new(),
        )
        .unwrap();
    let request = asked(turn.step(Event::Start));
    assert_eq!((request.url.as_str(), request.bearer), ("http://host:1/api/chat", None));
    match turn.step(Event::Phrases(Some("p".to_string()))).action {
        Some(Action::Search { requests, .. }) => {
            assert_eq!(requests[0].url, "https://ollama.com/api/web_search");
            assert_eq!(requests[0].bearer.as_deref(), Some("key"));
        }
        other => panic!("no search: {other:?}"),
    }
    let request = streamed(turn.step(Event::Found(vec![Some(vec![source("a")])])));
    assert_eq!((request.url.as_str(), request.bearer.as_deref()), ("http://host:1/api/chat", None));
    assert!(chat_of(&request).messages[1].content.contains("URL: a"));
    turn.step(Event::Chunk(chunk(None, Some("x"), false)));
    let progress = turn.step(Event::End);
    assert_eq!(event_texts(&progress.events), vec!["done x [\"a\"]"]);
    assert_eq!(urls(&finished(progress).sources), vec!["a"]);
}

#[test]
fn the_shell_routes_by_the_model_id() {
    let mut stored = settings("key", "c");
    let image = "i".repeat(100);
    let known = || {
        vec![
            model_info(Endpoint::Cloud, "c", &[]),
            model_info(Endpoint::Local, "l", &["vision"]),
        ]
    };
    let start = |stored: &AppSettings, images: Vec<String>| {
        ResearchClient::for_shell(stored).research_any(
            stored,
            "q".to_string(),
            "speed".to_string(),
            Vec::new(),
            images,
            known(),
        )
    };
    let turn = start(&stored, Vec::new()).unwrap();
    assert_eq!((turn.endpoint, turn.model.as_str()), (Endpoint::Cloud, "c"));
    assert_eq!(turn.response.model, "c");
    let turn = start(&stored, vec![image.clone()]).unwrap();
    assert_eq!((turn.endpoint, turn.model.as_str()), (Endpoint::Local, "l"));
    assert_eq!(turn.images, vec![image]);
    stored.api_key = String::new();
    assert!(start(&stored, Vec::new()).is_err());
    stored.model = "local:".to_string();
    assert_eq!(
        start(&stored, Vec::new()).unwrap_err().message(),
        "Invalid API configuration: select a model"
    );
}

#[test]
fn replies_are_judged_by_their_side() {
    let cloud = cloud_turn("speed", Vec::new(), Vec::new());
    let settings = settings("", "local:l");
    let local = ResearchClient::for_shell(&settings)
        .research_any(
            &settings,
            "q".to_string(),
            "speed".to_string(),
            Vec::new(),
            Vec::new(),
            Vec::new(),
        )
        .unwrap();
    let reply = || Some("p".to_string());
    assert!(matches!(cloud.phrases_event(500, reply()), Event::Phrases(Some(_))));
    assert!(matches!(local.phrases_event(500, reply()), Event::Phrases(None)));
    assert!(matches!(local.phrases_event(200, reply()), Event::Phrases(Some(_))));
    assert!(matches!(local.phrases_event(200, None), Event::Phrases(None)));
    assert!(cloud.answer_problem(200, "").is_none());
    assert_eq!(
        cloud.answer_problem(401, "x").unwrap().message(),
        "Ollama Cloud rejected the request: invalid API key; check your key at \
         ollama.com/settings/keys"
    );
    assert_eq!(
        local.answer_problem(401, "x").unwrap().message(),
        "Ollama Cloud rejected the request: 401: x"
    );
    assert_eq!(cloud.unreachable("no").message(), "Could not reach Ollama Cloud: no");
    assert_eq!(
        local.unreachable("no").message(),
        "Could not reach Ollama Cloud: could not reach the local Ollama server at \
         http://host:1; is it running? (no)"
    );
}
