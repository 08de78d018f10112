use anda_engine::context::BaseCtx;
use anda_engine::engine::{AgentOutput, Engine, EngineBuilder, InformationJSON, ToolCall};
use anda_engine::error::EngineError;
use anda_engine::identity::Identity;
use anda_engine::registry::{FunctionDefinition, Registry, UnitInfo};

fn definition(name: &str) -> FunctionDefinition {
    FunctionDefinition {
        name: name.to_string(),
        description: format!("{} unit", name),
        parameters: "{\"type\":\"string\"}".to_string(),
        strict: None,
    }
}

fn tool(name: &str) -> UnitInfo {
    UnitInfo { name: name.to_string(), definition: definition(name), dependencies: vec![] }
}

fn agent(name: &str, deps: &[&str]) -> UnitInfo {
    UnitInfo {
        name: name.to_string(),
        definition: definition(name),
        dependencies: deps.iter().map(|d| d.to_string()).collect(),
    }
}

fn parrot_engine() -> Engine {
    Engine::builder()
        .register_tool(tool("echo"))
        .unwrap()
        .register_agent(agent("parrot", &["echo"]))
        .unwrap()
        .export_agents(&vec!["parrot".to_string()])
        .build("parrot".to_string())
        .unwrap()
}

#[test]
fn echo_registered_but_not_exported() {
    let engine = parrot_engine();
    let res = engine.tool_call_ctx("echo", Identity::anonymous(), None);
    assert!(matches!(res, Err(EngineError::ToolNotFound(_))));
    let (name, ctx) = engine
        .agent_run_ctx(Some("parrot".to_string()), Identity::anonymous(), None)
        .unwrap();
    assert_eq!(name, "parrot");
    assert_eq!(ctx.base.path.as_str(), "A:parrot");
    assert!(ctx.tools.contains("echo"));
}

#[test]
fn exported_tool_gets_context() {
    let engine = Engine::builder()
        .register_tool(tool("echo"))
        .unwrap()
        .register_agent(agent("parrot", &["echo"]))
        .unwrap()
        .export_tools(&vec!["echo".to_string()])
        .build("parrot".to_string())
        .unwrap();
    let caller = Identity::from_bytes(vec![1, 2, 3]).unwrap();
    let ctx = engine.tool_call_ctx("echo", caller, Some("alice".to_string())).unwrap();
    assert_eq!(ctx.path.as_str(), "T:echo");
    assert_eq!(ctx.caller.as_bytes(), &vec![1u8, 2, 3]);
    assert_eq!(ctx.user, Some("alice".to_string()));
    let res = engine.tool_call_ctx("echo", Identity::anonymous(), Some("a/b".to_string()));
    assert!(matches!(res, Err(EngineError::InvalidUser(_))));
}

#[test]
fn dependency_registered_later_is_missing() {
    let res = EngineBuilder::new().register_agent(agent("A", &["t"]));
    assert!(matches!(res, Err(EngineError::MissingDependency(ref t)) if t == "t"));
    let b = EngineBuilder::new()
        .register_tool(tool("t"))
        .unwrap()
        .register_agent(agent("A", &["t"]))
        .unwrap();
    let engine = b.build("a".to_string()).unwrap();
    assert_eq!(engine.agent_definitions(None).len(), 1);
}

#[test]
fn duplicate_tool_is_refused() {
    let res = EngineBuilder::new().register_tool(tool("echo")).unwrap().register_tool(tool("echo"));
    assert!(matches!(res, Err(EngineError::DuplicateName(_))));
}

#[test]
fn duplicate_agent_ignores_ascii_case() {
    let res = EngineBuilder::new()
        .register_agent(agent("parrot", &[]))
        .unwrap()
        .register_agent(agent("PaRRot", &[]));
    assert!(matches!(res, Err(EngineError::DuplicateName(_))));
}

#[test]
fn registry_keeps_first_on_duplicate() {
    let mut reg = Registry::new();
    reg.add(tool("echo")).unwrap();
    let mut other = tool("echo");
    other.definition.description = "second".to_string();
    assert!(matches!(reg.add(other), Err(EngineError::DuplicateName(_))));
    assert_eq!(reg.len(), 1);
    assert_eq!(reg.get("echo").unwrap().definition.description, "echo unit");
}

#[test]
fn build_needs_registered_default() {
    let b = EngineBuilder::new().register_agent(agent("parrot", &[])).unwrap();
    let res = b.build("nobody".to_string());
    assert!(matches!(res, Err(EngineError::DefaultAgentNotFound(_))));
    let b = EngineBuilder::new().register_agent(agent("parrot", &[])).unwrap();
    let engine = b.build("Parrot".to_string()).unwrap();
    assert_eq!(engine.default_agent(), "Parrot");
    let (name, _) = engine.agent_run_ctx(None, Identity::anonymous(), None).unwrap();
    assert_eq!(name, "parrot");
}

#[test]
fn default_agent_is_exported() {
    let engine = EngineBuilder::new()
        .register_agent(agent("parrot", &[]))
        .unwrap()
        .register_agent(agent("hidden", &[]))
        .unwrap()
        .build("parrot".to_string())
        .unwrap();
    assert!(engine.ctx_with("parrot", Identity::anonymous(), None).is_ok());
    let res = engine.ctx_with("hidden", Identity::anonymous(), None);
    assert!(matches!(res, Err(EngineError::NameNotAllowed(_))));
    let res = engine.agent_run_ctx(Some("Hidden".to_string()), Identity::anonymous(), None);
    assert!(matches!(res, Err(EngineError::NameNotAllowed(_))));
    let res = engine.ctx_with("nobody", Identity::anonymous(), None);
    assert!(matches!(res, Err(EngineError::NameNotAllowed(_))));
    let info = engine.information(true);
    assert_eq!(info.agent_definitions.len(), 1);
    assert_eq!(info.agent_definitions[0].name, "parrot");
    assert_eq!(info.tool_definitions.len(), 0);
    let brief = engine.information(false);
    assert_eq!(brief.agent_definitions.len(), 0);
    assert_eq!(brief.name, "Anda");
}

#[test]
fn names_outside_allowed_paths_are_refused() {
    let engine = parrot_engine();
    let root = engine.ctx();
    let res = root.child_base_with("missing", Identity::anonymous(), None);
    assert!(matches!(res, Err(EngineError::NameNotAllowed(_))));
    // "echo" is a registered tool, not an agent: its agent path is not allowed
    let res = root.child_with("echo", Identity::anonymous(), None);
    assert!(matches!(res, Err(EngineError::NameNotAllowed(_))));
    assert!(root.child_base_with("echo", Identity::anonymous(), None).is_ok());
    assert!(root.child_with("parrot", Identity::anonymous(), None).is_ok());
}

#[test]
fn cancellation_flows_from_parent_to_children() {
    let engine = parrot_engine();
    let root = engine.ctx();
    let a: BaseCtx = root.child_base_with("echo", Identity::anonymous(), None).unwrap();
    let b: BaseCtx = root.child_base_with("echo", Identity::anonymous(), None).unwrap();
    let c: BaseCtx = root.child_base_with("echo", Identity::anonymous(), None).unwrap();
    let grandchild = a.child_with("A:parrot", Identity::anonymous(), None).unwrap();
    b.cancel();
    assert!(b.cancellation_token.is_cancelled());
    assert!(matches!(b.ensure_active(), Err(EngineError::Cancelled)));
    assert!(!a.cancellation_token.is_cancelled());
    assert!(!c.cancellation_token.is_cancelled());
    assert!(!grandchild.cancellation_token.is_cancelled());
    assert!(!root.base.cancellation_token.is_cancelled());
    assert!(a.ensure_active().is_ok());
    engine.cancel();
    assert!(a.cancellation_token.is_cancelled());
    assert!(c.cancellation_token.is_cancelled());
    assert!(grandchild.cancellation_token.is_cancelled());
    assert!(matches!(grandchild.ensure_active(), Err(EngineError::Cancelled)));
}

#[test]
fn finished_run_has_no_history() {
    let output = AgentOutput {
        content: "hi".to_string(),
        failed_reason: None,
        tool_calls: Some(vec![ToolCall {
            id: "1".to_string(),
            name: "echo".to_string(),
            args: "\"hi\"".to_string(),
            result: Some("\"hi\"".to_string()),
        }]),
        full_history: Some(vec!["{\"role\":\"user\"}".to_string()]),
    };
    let r = Engine::finish_run(output);
    assert!(r.full_history.is_none());
    assert_eq!(r.content, "hi");
    assert_eq!(r.tool_calls.unwrap()[0].result, Some("\"hi\"".to_string()));
}

#[test]
fn batch_registration() {
    let mut tools = Registry::new();
    tools.add(tool("t1")).unwrap();
    tools.add(tool("t2")).unwrap();
    let mut agents = Registry::new();
    agents.add(agent("a1", &["t1", "t2"])).unwrap();
    let b = EngineBuilder::new().register_tools(tools).unwrap().register_agents(agents).unwrap();
    let engine = b.export_tools(&vec!["t2".to_string(), "zzz".to_string()]).build("a1".to_string()).unwrap();
    let info = engine.information(true);
    assert_eq!(info.tool_definitions.len(), 1);
    assert_eq!(info.tool_definitions[0].name, "t2");
    // "zzz" names no tool, so it is not exported
    let res = engine.tool_call_ctx("zzz", Identity::anonymous(), None);
    assert!(matches!(res, Err(EngineError::ToolNotFound(_))));
    let mut again = Registry::new();
    again.add(tool("t1")).unwrap();
    let res = EngineBuilder::new().register_tool(tool("t1")).unwrap().register_tools(again);
    assert!(matches!(res, Err(EngineError::DuplicateName(_))));
    let mut lonely = Registry::new();
    lonely.add(agent("a2", &["none"])).unwrap();
    let res = EngineBuilder::new().register_agents(lonely);
    assert!(matches!(res, Err(EngineError::MissingDependency(_))));
}

#[test]
fn definitions_skip_unknown_names() {
    let engine = parrot_engine();
    let defs = engine.tool_definitions(Some(&vec!["nope".to_string(), "echo".to_string()]));
    assert_eq!(defs.len(), 1);
    assert_eq!(defs[0].name, "echo");
    assert_eq!(engine.tool_definitions(None).len(), 1);
}

#[test]
fn information_as_text() {
    let engine = EngineBuilder::new()
        .with_name("Bot".to_string())
        .register_agent(agent("parrot", &[]))
        .unwrap()
        .build("parrot".to_string())
        .unwrap();
    let json = InformationJSON::from(engine.information(true));
    assert_eq!(json.id, "2vxsx-fae");
    assert_eq!(json.name, "Bot");
    assert_eq!(json.default_agent, "parrot");
    assert_eq!(json.agent_definitions.len(), 1);
}

#[test]
fn batch_agents_are_lowercased() {
    let mut agents = Registry::new();
    agents.add(agent("Parrot", &[])).unwrap();
    let b = EngineBuilder::new().register_agents(agents).unwrap();
    let res = b.register_agent(agent("parrot", &[]));
    assert!(matches!(res, Err(EngineError::DuplicateName(_))));
    let mut agents = Registry::new();
    agents.add(agent("Parrot", &[])).unwrap();
    let engine = EngineBuilder::new().register_agents(agents).unwrap().build("PARROT".to_string()).unwrap();
    assert!(engine.ctx_with("parrot", Identity::anonymous(), None).is_ok());
}

#[test]
fn batch_first_fault_decides() {
    let mut agents = Registry::new();
    agents.add(agent("a1", &["missing"])).unwrap();
    agents.add(agent("taken", &[])).unwrap();
    let b = EngineBuilder::new().register_agent(agent("taken", &[])).unwrap();
    assert!(matches!(b.register_agents(agents), Err(EngineError::MissingDependency(_))));
    let mut agents = Registry::new();
    agents.add(agent("Taken", &["missing"])).unwrap();
    let b = EngineBuilder::new().register_agent(agent("taken", &[])).unwrap();
    assert!(matches!(b.register_agents(agents), Err(EngineError::DuplicateName(_))));
    let mut agents = Registry::new();
    agents.add(agent("x", &[])).unwrap();
    agents.add(agent("X", &[])).unwrap();
    assert!(matches!(EngineBuilder::new().register_agents(agents), Err(EngineError::DuplicateName(_))));
}

#[test]
fn build_needs_valid_engine_name() {
    let res = EngineBuilder::new()
        .with_name("bad/name".to_string())
        .register_agent(agent("parrot", &[]))
        .unwrap()
        .build("parrot".to_string());
    assert!(matches!(res, Err(EngineError::InvalidUser(_))));
    let res = EngineBuilder::new()
        .with_name("bad/name".to_string())
        .register_agent(agent("parrot", &[]))
        .unwrap()
        .build("other".to_string());
    assert!(matches!(res, Err(EngineError::DefaultAgentNotFound(_))));
}

#[test]
fn minted_tokens_follow_the_root() {
    let engine = parrot_engine();
    let token = engine.cancellation_token();
    assert!(!token.is_cancelled());
    engine.cancel();
    assert!(token.is_cancelled());
}
