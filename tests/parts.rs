use anda_engine::attention::{
    command_from_reply, quality_from_reply, yes_from_reply, Attention, AttentionCommand,
    ContentQuality,
};
use anda_engine::config::{Conf, ConfError};
use anda_engine::error::EngineError;
use anda_engine::identity::Identity;
use anda_engine::path::{join_path, validate_path_part, Path};
use anda_engine::service::{
    caller_from_header, proposal_status, AppInformation, AppInformationJSON, ServiceStatus,
};
use anda_engine::state::State;

#[test]
fn path_segments() {
    assert!(validate_path_part("alice").is_ok());
    assert!(validate_path_part("Anda Bot").is_ok());
    assert!(matches!(validate_path_part(""), Err(EngineError::InvalidPath(_))));
    assert!(matches!(validate_path_part("a/b"), Err(EngineError::InvalidPath(_))));
    assert!(matches!(validate_path_part("/"), Err(EngineError::InvalidPath(_))));
    assert!(matches!(validate_path_part("."), Err(EngineError::InvalidPath(_))));
    assert!(matches!(validate_path_part("a#b"), Err(EngineError::InvalidPath(_))));
}

#[test]
fn joined_paths() {
    let a = Path::parse("a");
    let b = Path::parse("b/c");
    assert_eq!(join_path(&a, &b).as_str(), "a/b/c");
    let root = Path::root();
    assert_eq!(root.as_str(), "_");
    assert_eq!(join_path(&root, &Path::parse("x")).as_str(), "_/x");
    assert_eq!(Path::parse("a//b/").as_str(), "a/b");
    assert_eq!(join_path(&Path::parse("a"), &Path::parse("")).as_str(), "a/");
    let encoded = Path::parse("a%");
    assert_eq!(encoded.as_str(), "a%25");
    assert_eq!(join_path(&encoded, &Path::parse("b")).as_str(), "a%25/b");
    assert_eq!(Path::parse("a#").as_str(), "a%23");
}

#[test]
fn attention_prechecks() {
    let att = Attention::default();
    assert_eq!(att.min_prompt_tokens, 4);
    assert_eq!(att.min_content_tokens, 60);
    assert_eq!(att.phrases.len(), 13);
    assert_eq!(att.phrases[0], "shut up");
    assert_eq!(att.phrases[12], "can you stop");
    assert_eq!(att.reply_precheck("Please SHUT UP now", 100), Some(AttentionCommand::Stop));
    assert_eq!(att.reply_precheck("hello there", 2), Some(AttentionCommand::Ignore));
    assert_eq!(att.reply_precheck("hello there friend", 4), None);
    assert!(!att.content_worth_evaluating(59));
    assert!(att.content_worth_evaluating(60));
    let custom = Attention::new(vec!["go away".to_string()], 1, 2);
    assert_eq!(custom.reply_precheck("Go Away", 0), Some(AttentionCommand::Stop));
    assert!(custom.prompt_worth_considering(1));
}

#[test]
fn model_replies() {
    assert_eq!(quality_from_reply(Some("HIGH_REWARD: deep")), ContentQuality::Exceptional);
    assert_eq!(quality_from_reply(Some("MEDIUM_REWARD")), ContentQuality::Good);
    assert_eq!(quality_from_reply(Some("IGNORE")), ContentQuality::Ignore);
    assert_eq!(quality_from_reply(None), ContentQuality::Ignore);
    assert_eq!(command_from_reply(Some("I will RESPOND")), AttentionCommand::Respond);
    assert_eq!(command_from_reply(Some("STOP")), AttentionCommand::Stop);
    assert_eq!(command_from_reply(Some("meh")), AttentionCommand::Ignore);
    assert_eq!(command_from_reply(None), AttentionCommand::Ignore);
    assert!(yes_from_reply(Some("TRUE")));
    assert!(!yes_from_reply(Some("false")));
    assert!(!yes_from_reply(None));
    assert_eq!(AttentionCommand::default(), AttentionCommand::Ignore);
    assert_eq!(ContentQuality::default(), ContentQuality::Ignore);
}

fn entries(pairs: &[(&str, &str)]) -> Vec<(String, String)> {
    pairs.iter().map(|(k, v)| (k.to_string(), v.to_string())).collect()
}

fn full() -> Vec<(String, String)> {
    entries(&[
        ("character.path", "./character.toml"),
        ("log.level", "info"),
        ("server.port", "8042"),
        ("tee.tee_host", "http://127.0.0.1:8080"),
        ("tee.basic_token", "SECRET-REDACTED"),
        ("icp.api_host", "https://icp-api.io"),
        ("icp.object_store_canister", "6at64-oyaaa-aaaap-anvza-cai"),
        ("x.username", "anda"),
        ("x.password", "pw"),
        ("x.email", "a@b.c"),
        ("llm.deepseek_api_key", "k1"),
    ])
}

#[test]
fn configuration_from_entries() {
    let conf = Conf::from(&full()).unwrap();
    assert_eq!(conf.server.port, 8042);
    assert_eq!(conf.log.level, "info");
    assert_eq!(conf.character.content, "");
    assert_eq!(conf.x.email, Some("a@b.c".to_string()));
    assert_eq!(conf.x.cookie_string, None);
    assert_eq!(conf.llm.deepseek_api_key, "k1");
    assert_eq!(conf.llm.openai_api_key, "");
    let mut missing = full();
    missing.retain(|(k, _)| k != "x.password");
    assert!(matches!(Conf::from(&missing), Err(ConfError::NotFound(ref k)) if k == "x.password"));
    let mut bad = full();
    bad[2].1 = "70000".to_string();
    assert!(matches!(Conf::from(&bad), Err(ConfError::Invalid(_))));
}

#[test]
fn proposals() {
    assert_eq!(proposal_status("start_x_bot"), Ok(ServiceStatus::Running));
    assert_eq!(proposal_status("stop_x_bot"), Ok(ServiceStatus::Stopped));
    assert_eq!(proposal_status("reboot"), Err("unsupported method reboot".to_string()));
    assert_eq!(ServiceStatus::default(), ServiceStatus::Stopped);
}

#[test]
fn callers_from_headers() {
    assert_eq!(caller_from_header(None).as_bytes(), &vec![4u8]);
    assert_eq!(caller_from_header(Some("not a principal")).as_bytes(), &vec![4u8]);
    assert_eq!(caller_from_header(Some("aaaaa-aa")).as_bytes(), &Vec::<u8>::new());
    assert_eq!(Identity::anonymous().to_text(), "2vxsx-fae");
    assert!(Identity::from_bytes(vec![0u8; 30]).is_none());
}

#[test]
fn app_information_as_text() {
    let info = AppInformation {
        id: Identity::anonymous(),
        name: "Anda".to_string(),
        start_time_ms: 7,
        default_agent: "parrot".to_string(),
        object_store_client: None,
        object_store_canister: Some(Identity::from_bytes(vec![]).unwrap()),
        caller: Identity::anonymous(),
    };
    let json = AppInformationJSON::from_information(info);
    assert_eq!(json.id, "2vxsx-fae");
    assert_eq!(json.object_store_client, None);
    assert_eq!(json.object_store_canister, Some("aaaaa-aa".to_string()));
    assert_eq!(json.caller, "2vxsx-fae");
    assert_eq!(json.start_time_ms, 7);
}

#[test]
fn shared_state() {
    let mut s = State(3u32);
    assert_eq!(*s.get(), 3);
    *s.get_mut() = 5;
    assert_eq!(s.0, 5);
}
