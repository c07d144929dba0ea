use chat_client::bridge::{BridgeAction, BridgeEvent, BridgePhase, ReplyEvent, ReplyStreamHandler, StreamBridge};
use chat_client::client::{finish_message, init_client, MessageStep, StreamStep};
use chat_client::config::{ClientConfig, Config, LocalAIConfig, ModelEntry, OpenAIConfig};
use chat_client::error::ClientError;
use chat_client::model::ModelInfo;
use chat_client::proxy::{choose_proxy, resolve_proxy, set_proxy, ProxyChoice};
use chat_client::registry::{all_clients, create_client_config, list_models, LOCALAI_TEMPLATE, OPENAI_TEMPLATE};
use chat_client::text::split_text;

fn entry(name: &str, max_tokens: usize) -> ModelEntry {
    ModelEntry { name: name.to_string(), max_tokens }
}

fn openai(models: Vec<ModelEntry>) -> ClientConfig {
    ClientConfig::OpenAI(OpenAIConfig {
        api_key: Some("sk-test".to_string()),
        organization_id: None,
        proxy: None,
        connect_timeout: None,
        models,
    })
}

fn localai(models: Vec<ModelEntry>) -> ClientConfig {
    ClientConfig::LocalAI(LocalAIConfig {
        url: "http://localhost:8080".to_string(),
        api_key: None,
        proxy: None,
        connect_timeout: Some(10),
        models,
    })
}

fn two_backends(model: ModelInfo, dry_run: bool) -> Config {
    Config {
        clients: vec![
            openai(vec![entry("gpt-a", 4096), entry("gpt-b", 8192)]),
            localai(vec![entry("local-x", 2048)]),
        ],
        model_info: model,
        dry_run,
    }
}

fn some(s: &str) -> Option<String> {
    Some(s.to_string())
}

fn texts(h: &ReplyStreamHandler) -> Vec<String> {
    h.events
        .iter()
        .map(|e| match e {
            ReplyEvent::Text(s) => s.clone(),
            ReplyEvent::Done => "<done>".to_string(),
        })
        .collect()
}

#[test]
fn model_info_new_and_stringify() {
    let m = ModelInfo::new("openai", "gpt-4", 8192, 3);
    assert_eq!(m.client, "openai");
    assert_eq!(m.name, "gpt-4");
    assert_eq!(m.max_tokens, 8192);
    assert_eq!(m.index, 3);
    assert_eq!(m.stringify(), "openai:gpt-4");
}

#[test]
fn model_info_default_is_first_openai_model() {
    let m = ModelInfo::default();
    assert_eq!(m.stringify(), "openai:gpt-3.5-turbo");
    assert_eq!(m.max_tokens, 4096);
    assert_eq!(m.index, 0);
}

#[test]
fn all_clients_in_registry_order() {
    assert_eq!(all_clients(), vec!["openai", "localai"]);
}

#[test]
fn create_client_config_for_each_kind() {
    assert_eq!(create_client_config("openai").unwrap(), OPENAI_TEMPLATE);
    assert_eq!(create_client_config("localai").unwrap(), LOCALAI_TEMPLATE);
    assert!(OPENAI_TEMPLATE.contains("type: openai"));
    assert!(LOCALAI_TEMPLATE.contains("type: localai"));
}

#[test]
fn create_client_config_unknown_kind() {
    match create_client_config("mistral") {
        Err(ClientError::UnknownKind(k)) => assert_eq!(k, "mistral"),
        other => panic!("unexpected {:?}", other),
    }
}

#[test]
fn list_models_two_backends_example() {
    let config = two_backends(ModelInfo::default(), false);
    let got: Vec<(String, String, usize, usize)> = list_models(&config)
        .into_iter()
        .map(|m| (m.client, m.name, m.max_tokens, m.index))
        .collect();
    assert_eq!(
        got,
        vec![
            ("openai".to_string(), "gpt-a".to_string(), 4096, 0),
            ("openai".to_string(), "gpt-b".to_string(), 8192, 0),
            ("localai".to_string(), "local-x".to_string(), 2048, 1),
        ]
    );
}

#[test]
fn list_models_skips_backend_without_models() {
    let config = Config {
        clients: vec![localai(vec![]), openai(vec![entry("gpt-a", 1)]), localai(vec![entry("x", 2)])],
        model_info: ModelInfo::default(),
        dry_run: false,
    };
    let got: Vec<(String, usize)> = list_models(&config).into_iter().map(|m| (m.stringify(), m.index)).collect();
    assert_eq!(got, vec![("openai:gpt-a".to_string(), 1), ("localai:x".to_string(), 2)]);
    let empty = Config { clients: vec![], model_info: ModelInfo::default(), dry_run: false };
    assert!(list_models(&empty).is_empty());
}

#[test]
fn init_client_selects_configured_backend() {
    let c = init_client(two_backends(ModelInfo::new("localai", "local-x", 2048, 1), false)).unwrap();
    assert_eq!(c.get_config().model_info.stringify(), "localai:local-x");
    assert_eq!(c.kind(), "localai");
    assert!(init_client(two_backends(ModelInfo::new("openai", "gpt-a", 4096, 0), false)).is_ok());
}

#[test]
fn init_client_unknown_kind_names_backend_and_position() {
    match init_client(two_backends(ModelInfo::new("mistral", "c-1", 100, 1), false)) {
        Err(ClientError::UnknownClient { client, index }) => {
            assert_eq!(client, "mistral");
            assert_eq!(index, 1);
        }
        other => panic!("unexpected {:?}", other.map(|_| ())),
    }
}

#[test]
fn init_client_kind_at_wrong_position() {
    let err = init_client(two_backends(ModelInfo::new("openai", "gpt-a", 4096, 1), false)).err().unwrap();
    assert!(matches!(err, ClientError::UnknownClient { index: 1, .. }));
    let err = init_client(two_backends(ModelInfo::new("openai", "gpt-a", 4096, 7), false)).err().unwrap();
    assert!(matches!(err, ClientError::UnknownClient { index: 7, .. }));
}

#[test]
fn send_message_dry_run_echoes() {
    let c = init_client(two_backends(ModelInfo::new("openai", "gpt-a", 4096, 0), true)).unwrap();
    match c.send_message("hello there") {
        MessageStep::Reply(s) => assert_eq!(s, "hello there"),
        MessageStep::Fetch => panic!("dry run must not fetch"),
    }
}

#[test]
fn send_message_real_fetches() {
    let c = init_client(two_backends(ModelInfo::new("openai", "gpt-a", 4096, 0), false)).unwrap();
    assert!(matches!(c.send_message("hello"), MessageStep::Fetch));
    assert!(matches!(c.send_message_streaming("hello"), StreamStep::Fetch));
}

#[test]
fn finish_message_wraps_failure() {
    assert_eq!(finish_message(Ok("hi".to_string())).unwrap(), "hi");
    match finish_message(Err("timeout".to_string())) {
        Err(ClientError::Fetch { stream, cause }) => {
            assert!(!stream);
            assert_eq!(cause, "timeout");
        }
        other => panic!("unexpected {:?}", other),
    }
}

#[test]
fn split_text_words() {
    assert_eq!(split_text("  hello   big\tworld\n"), vec!["hello", "big", "world"]);
    assert_eq!(split_text("one"), vec!["one"]);
    assert!(split_text("").is_empty());
    assert!(split_text(" \t\r\n").is_empty());
    assert_eq!(split_text("héllo wörld"), vec!["héllo", "wörld"]);
    assert_eq!(split_text("a\u{a0}b\u{3000}c\u{2009}d"), vec!["a", "b", "c", "d"]);
    assert_eq!(split_text("x\u{200b}y"), vec!["x\u{200b}y"]);
}

#[test]
fn dry_run_stream_delivers_words_then_done() {
    let c = init_client(two_backends(ModelInfo::new("openai", "gpt-a", 4096, 0), true)).unwrap();
    let words = match c.send_message_streaming("the quick  fox") {
        StreamStep::Simulate(w) => w,
        StreamStep::Fetch => panic!("dry run must not fetch"),
    };
    assert_eq!(words, vec!["the", "quick", "fox"]);
    let mut bridge = StreamBridge::new();
    let mut handler = ReplyStreamHandler::new();
    for w in words {
        assert!(matches!(bridge.step(&mut handler, BridgeEvent::Chunk(w)), BridgeAction::Continue));
    }
    assert!(matches!(bridge.step(&mut handler, BridgeEvent::Finished(Ok(()))), BridgeAction::Return(Ok(()))));
    assert!(matches!(bridge.step(&mut handler, BridgeEvent::Chunk("late".to_string())), BridgeAction::Ignore));
    assert_eq!(texts(&handler), vec!["the", "quick", "fox", "<done>"]);
    assert_eq!(handler.buffer, "thequickfox");
    assert_eq!(bridge.phase, BridgePhase::Completed);
}

#[test]
fn abort_ends_stream_without_further_chunks() {
    let mut bridge = StreamBridge::new();
    let mut handler = ReplyStreamHandler::new();
    bridge.step(&mut handler, BridgeEvent::Chunk("a".to_string()));
    assert!(matches!(bridge.step(&mut handler, BridgeEvent::AbortPolled(false)), BridgeAction::Continue));
    assert!(matches!(bridge.step(&mut handler, BridgeEvent::AbortPolled(true)), BridgeAction::Return(Ok(()))));
    assert!(matches!(bridge.step(&mut handler, BridgeEvent::Chunk("b".to_string())), BridgeAction::Ignore));
    assert!(matches!(bridge.step(&mut handler, BridgeEvent::Finished(Ok(()))), BridgeAction::Ignore));
    assert_eq!(texts(&handler), vec!["a", "<done>"]);
    assert_eq!(bridge.phase, BridgePhase::Aborted);
}

#[test]
fn backend_failure_ends_stream_with_fetch_error() {
    let mut bridge = StreamBridge::new();
    let mut handler = ReplyStreamHandler::new();
    match bridge.step(&mut handler, BridgeEvent::Finished(Err("reset".to_string()))) {
        BridgeAction::Return(Err(ClientError::Fetch { stream, cause })) => {
            assert!(stream);
            assert_eq!(cause, "reset");
        }
        other => panic!("unexpected {:?}", other),
    }
    assert_eq!(texts(&handler), vec!["<done>"]);
}

#[test]
fn interrupt_ends_stream_without_done() {
    let mut bridge = StreamBridge::new();
    let mut handler = ReplyStreamHandler::new();
    bridge.step(&mut handler, BridgeEvent::Chunk("a".to_string()));
    assert!(matches!(bridge.step(&mut handler, BridgeEvent::Interrupted), BridgeAction::Return(Ok(()))));
    assert!(matches!(bridge.step(&mut handler, BridgeEvent::AbortPolled(true)), BridgeAction::Ignore));
    assert_eq!(texts(&handler), vec!["a"]);
    assert_eq!(bridge.phase, BridgePhase::Interrupted);
}

#[test]
fn choose_proxy_opt_outs_and_precedence() {
    for off in ["", "false", "-"] {
        assert_eq!(choose_proxy(&some(off), &some("http://h:1"), &some("http://a:2")), ProxyChoice::Disabled);
    }
    assert_eq!(
        choose_proxy(&some("http://p:3"), &some("http://h:1"), &None),
        ProxyChoice::Use("http://p:3".to_string())
    );
    assert_eq!(
        choose_proxy(&None, &some("http://h:1"), &some("http://a:2")),
        ProxyChoice::Use("http://h:1".to_string())
    );
    assert_eq!(choose_proxy(&None, &None, &some("http://a:2")), ProxyChoice::Use("http://a:2".to_string()));
    assert_eq!(choose_proxy(&None, &None, &None), ProxyChoice::Disabled);
}

#[test]
fn resolve_proxy_parses_or_rejects() {
    assert!(matches!(resolve_proxy(&some("false"), &None, &None), Ok(None)));
    assert!(matches!(resolve_proxy(&some("http://127.0.0.1:3128"), &None, &None), Ok(Some(_))));
    assert!(matches!(resolve_proxy(&None, &None, &some("https://proxy.example:8443")), Ok(Some(_))));
    match resolve_proxy(&some("http://[::1"), &None, &None) {
        Err(ClientError::InvalidProxy { proxy, cause }) => {
            assert_eq!(proxy, "http://[::1");
            assert!(!cause.is_empty());
        }
        other => panic!("unexpected {:?}", other.map(|_| ())),
    }
}

#[test]
fn set_proxy_on_builder() {
    let off = set_proxy(reqwest::Client::builder(), &some("-"), &some("http://h.example:1"), &None).unwrap();
    assert!(!format!("{:?}", off).contains("proxies"));
    let explicit =
        set_proxy(reqwest::Client::builder(), &some("http://p.example:3128"), &some("http://h.example:1"), &None)
            .unwrap();
    let shown = format!("{:?}", explicit);
    assert!(shown.contains("proxies") && shown.contains("p.example") && !shown.contains("h.example"));
    let https = set_proxy(reqwest::Client::builder(), &None, &some("http://h.example:1"), &some("http://a.example:2"))
        .unwrap();
    let shown = format!("{:?}", https);
    assert!(shown.contains("h.example") && !shown.contains("a.example"));
    let all = set_proxy(reqwest::Client::builder(), &None, &None, &some("http://a.example:2")).unwrap();
    assert!(format!("{:?}", all).contains("a.example"));
    match set_proxy(reqwest::Client::builder(), &None, &some("http://[::1"), &None) {
        Err(ClientError::InvalidProxy { proxy, .. }) => assert_eq!(proxy, "http://[::1"),
        Err(other) => panic!("unexpected {:?}", other),
        Ok(_) => panic!("invalid proxy accepted"),
    }
}

#[test]
fn every_listed_model_can_be_selected() {
    let base = two_backends(ModelInfo::default(), false);
    for m in list_models(&base) {
        let expected = m.stringify();
        let c = init_client(two_backends(m, false)).unwrap();
        assert_eq!(c.get_config().model_info.stringify(), expected);
    }
}
