use cunzhi::commands::set_mcp_tool_enabled;
use cunzhi::config::ToolsConfig;
use cunzhi::server::{FieldKind, ToolCall, ZhiServer};
use cunzhi::theme::McpTheme;
use cunzhi::types::{ArgValue, McpError, ToolArgs};

fn text_arg(key: &str, value: &str) -> (String, ArgValue) {
    (String::from(key), ArgValue::Text(String::from(value)))
}

#[test]
fn get_info_reports_theme_identity() {
    let theme = McpTheme::transformers();
    let server = ZhiServer::new(&theme, None);
    let info = server.get_info(&theme, "1.2.3");
    assert_eq!(info.protocol_version, "2024-11-05");
    assert!(info.tools_capability);
    assert_eq!(info.server_name, "Cybertron-MCP");
    assert_eq!(info.server_version, "1.2.3");
    assert_eq!(info.instructions, theme.messages.server_intro);
    let init = server.initialize(&theme, "1.2.3");
    assert_eq!(init.server_name, info.server_name);
}

#[test]
fn enablement_scenario_list_set_call() {
    let theme = McpTheme::transformers();
    let mut stored = ToolsConfig::new();
    let server = ZhiServer::new(&theme, Some(stored.clone_config()));

    // Empty enablement map: only the leader is advertised.
    let tools = server.list_tools(&theme, Some(&stored));
    assert_eq!(tools.len(), 1);
    assert_eq!(tools[0].id, "optimus");

    // Enabling the memory tool is visible on the next listing.
    assert!(set_mcp_tool_enabled(&theme, &mut stored, "bumblebee", true).is_ok());
    let tools = server.list_tools(&theme, Some(&stored));
    assert_eq!(tools.len(), 2);
    assert_eq!(tools[0].id, "optimus");
    assert_eq!(tools[1].id, "bumblebee");

    // Calling the still-disabled search tool fails with the themed message.
    let r = server.call_tool(&theme, Some(&stored), "megatron", ToolArgs::new());
    match r {
        Err(McpError::ToolDisabled { message }) => {
            assert_eq!(message, "威震天正在休眠中，请先激活！");
        }
        _ => panic!("a disabled tool must fail with ToolDisabled"),
    }
}

#[test]
fn interaction_call_with_missing_message_is_invalid_params() {
    let theme = McpTheme::transformers();
    let server = ZhiServer::new(&theme, None);
    let r = server.call_tool(&theme, None, "optimus", ToolArgs::new());
    match r {
        Err(McpError::InvalidParams { message }) => {
            assert_eq!(message, "擎天柱无法解析指令: missing field `message`");
            assert!(message.contains("擎天柱"));
            assert!(message.contains("missing field `message`"));
        }
        _ => panic!("missing required arguments must fail with InvalidParams"),
    }
}

#[test]
fn unknown_tool_name_is_rejected() {
    let theme = McpTheme::transformers();
    let server = ZhiServer::new(&theme, None);
    let r = server.call_tool(&theme, None, "foo", ToolArgs::new());
    match r {
        Err(McpError::UnknownTool { message }) => {
            assert_eq!(message, "未知的战士: foo，不属于赛博坦军团！");
        }
        _ => panic!("an unknown tool must fail with UnknownTool"),
    }
}

#[test]
fn interaction_call_routes_with_defaults() {
    let theme = McpTheme::transformers();
    let server = ZhiServer::new(&theme, None);
    let mut args = ToolArgs::new();
    let (k, v) = text_arg("message", "你好");
    args.push(k, v);
    match server.call_tool(&theme, None, "optimus", args) {
        Ok(ToolCall::Interaction(q)) => {
            assert_eq!(q.message, "你好");
            assert!(q.predefined_options.is_empty());
            assert!(q.is_markdown);
        }
        _ => panic!("a valid interaction call must route to the interaction handler"),
    }
}

#[test]
fn interaction_call_decodes_options_and_flag() {
    let theme = McpTheme::transformers();
    let server = ZhiServer::new(&theme, None);
    let mut args = ToolArgs::new();
    let (k, v) = text_arg("message", "pick one");
    args.push(k, v);
    args.push(
        String::from("predefined_options"),
        ArgValue::TextList(vec![String::from("yes"), String::from("no")]),
    );
    args.push(String::from("is_markdown"), ArgValue::Flag(false));
    match server.call_tool(&theme, None, "optimus", args) {
        Ok(ToolCall::Interaction(q)) => {
            assert_eq!(q.predefined_options, vec!["yes", "no"]);
            assert!(!q.is_markdown);
        }
        _ => panic!("a valid interaction call must route to the interaction handler"),
    }
}

#[test]
fn interaction_call_rejects_wrong_shapes() {
    let theme = McpTheme::transformers();
    let server = ZhiServer::new(&theme, None);

    let mut args = ToolArgs::new();
    args.push(String::from("message"), ArgValue::Flag(true));
    match server.call_tool(&theme, None, "optimus", args) {
        Err(McpError::InvalidParams { message }) => {
            assert_eq!(message, "擎天柱无法解析指令: invalid field `message`");
        }
        _ => panic!("a mistyped message must fail with InvalidParams"),
    }

    let mut args = ToolArgs::new();
    let (k, v) = text_arg("message", "hi");
    args.push(k, v);
    args.push(String::from("predefined_options"), ArgValue::MixedList);
    match server.call_tool(&theme, None, "optimus", args) {
        Err(McpError::InvalidParams { message }) => {
            assert_eq!(message, "擎天柱无法解析指令: invalid field `predefined_options`");
        }
        _ => panic!("a mixed option list must fail with InvalidParams"),
    }

    let mut args = ToolArgs::new();
    let (k, v) = text_arg("message", "hi");
    args.push(k, v);
    args.push(String::from("is_markdown"), ArgValue::Null);
    match server.call_tool(&theme, None, "optimus", args) {
        Err(McpError::InvalidParams { message }) => {
            assert_eq!(message, "擎天柱无法解析指令: invalid field `is_markdown`");
        }
        _ => panic!("a null markdown flag must fail with InvalidParams"),
    }
}

#[test]
fn memory_call_routes_when_enabled() {
    let theme = McpTheme::transformers();
    let mut stored = ToolsConfig::new();
    stored.set("bumblebee", true);
    let server = ZhiServer::new(&theme, None);
    let mut args = ToolArgs::new();
    let (k, v) = text_arg("action", "回忆");
    args.push(k, v);
    let (k, v) = text_arg("project_path", "/tmp/project");
    args.push(k, v);
    match server.call_tool(&theme, Some(&stored), "bumblebee", args) {
        Ok(ToolCall::Memory(q)) => {
            assert_eq!(q.action, "回忆");
            assert_eq!(q.project_path, "/tmp/project");
            assert_eq!(q.content, "");
            assert_eq!(q.category, "");
        }
        _ => panic!("a valid memory call must route to the memory handler"),
    }
}

#[test]
fn memory_call_when_disabled_is_tool_disabled() {
    let theme = McpTheme::transformers();
    let stored = ToolsConfig::new();
    let server = ZhiServer::new(&theme, None);
    let mut args = ToolArgs::new();
    let (k, v) = text_arg("action", "回忆");
    args.push(k, v);
    let (k, v) = text_arg("project_path", "/tmp/project");
    args.push(k, v);
    match server.call_tool(&theme, Some(&stored), "bumblebee", args) {
        Err(McpError::ToolDisabled { message }) => {
            assert_eq!(message, "大黄蜂正在休眠中，请先激活！");
        }
        _ => panic!("a disabled memory tool must fail with ToolDisabled"),
    }
}

#[test]
fn memory_call_missing_fields_is_invalid_params() {
    let theme = McpTheme::transformers();
    let mut stored = ToolsConfig::new();
    stored.set("bumblebee", true);
    let server = ZhiServer::new(&theme, None);
    let r = server.call_tool(&theme, Some(&stored), "bumblebee", ToolArgs::new());
    match r {
        Err(McpError::InvalidParams { message }) => {
            assert_eq!(message, "大黄蜂无法解析指令: missing field `action`");
        }
        _ => panic!("missing memory arguments must fail with InvalidParams"),
    }
}

#[test]
fn search_call_passes_arguments_through() {
    let theme = McpTheme::transformers();
    let mut stored = ToolsConfig::new();
    stored.set("megatron", true);
    let server = ZhiServer::new(&theme, None);
    let mut args = ToolArgs::new();
    let (k, v) = text_arg("query", "parser");
    args.push(k, v);
    match server.call_tool(&theme, Some(&stored), "megatron", args) {
        Ok(ToolCall::Search(passed)) => match passed.get("query") {
            Some(ArgValue::Text(s)) => assert_eq!(s, "parser"),
            _ => panic!("the search arguments must pass through unchanged"),
        },
        _ => panic!("an enabled search call must route to the search handler"),
    }
}

#[test]
fn leader_is_enabled_even_when_stored_off() {
    let theme = McpTheme::transformers();
    let mut stored = ToolsConfig::new();
    stored.set("optimus", false);
    let server = ZhiServer::new(&theme, Some(stored.clone_config()));
    assert!(server.is_tool_enabled(&theme, Some(&stored), "optimus"));
    let tools = server.list_tools(&theme, Some(&stored));
    assert_eq!(tools[0].id, "optimus");
}

#[test]
fn snapshot_decides_when_fresh_read_fails() {
    let theme = McpTheme::transformers();
    let mut snapshot = ToolsConfig::new();
    snapshot.set("bumblebee", true);
    let server = ZhiServer::new(&theme, Some(snapshot));
    // No fresh read: the construction-time snapshot decides.
    assert!(server.is_tool_enabled(&theme, None, "bumblebee"));
    assert!(!server.is_tool_enabled(&theme, None, "megatron"));
    // A fresh read overrides the snapshot.
    let fresh = ToolsConfig::new();
    assert!(!server.is_tool_enabled(&theme, Some(&fresh), "bumblebee"));
}

#[test]
fn reset_then_checks_yield_defaults() {
    let theme = McpTheme::transformers();
    let server = ZhiServer::new(&theme, None);
    let mut stored = ToolsConfig::new();
    stored.set("bumblebee", true);
    stored.set("optimus", false);
    // Whatever held before, a reset read back gives (true, false, false).
    let reset = cunzhi::commands::reset_mcp_tools_config(&theme);
    assert!(server.is_tool_enabled(&theme, Some(&reset), "optimus"));
    assert!(!server.is_tool_enabled(&theme, Some(&reset), "bumblebee"));
    assert!(!server.is_tool_enabled(&theme, Some(&reset), "megatron"));
}

#[test]
fn failed_startup_read_falls_back_to_defaults() {
    let theme = McpTheme::transformers();
    let server = ZhiServer::new(&theme, None);
    assert!(server.is_tool_enabled(&theme, None, "optimus"));
    assert!(!server.is_tool_enabled(&theme, None, "bumblebee"));
    assert!(!server.is_tool_enabled(&theme, None, "megatron"));
}

#[test]
fn tool_declarations_carry_schemas() {
    let theme = McpTheme::transformers();
    let mut stored = ToolsConfig::new();
    stored.set("bumblebee", true);
    stored.set("megatron", true);
    let server = ZhiServer::new(&theme, None);
    let tools = server.list_tools(&theme, Some(&stored));
    assert_eq!(tools.len(), 3);

    let leader = &tools[0];
    assert_eq!(leader.description, theme.tool_interaction.description);
    let schema = leader.schema.as_ref().expect("the leader declares its schema");
    assert_eq!(schema.required, vec!["message"]);
    assert_eq!(schema.fields.len(), 3);
    assert_eq!(schema.fields[0].name, "message");
    assert_eq!(schema.fields[0].kind, FieldKind::Text);
    assert_eq!(schema.fields[0].description, "擎天柱要传达的信息");
    assert_eq!(schema.fields[1].name, "predefined_options");
    assert_eq!(schema.fields[1].kind, FieldKind::TextList);
    assert_eq!(schema.fields[2].name, "is_markdown");
    assert_eq!(schema.fields[2].kind, FieldKind::Flag);

    let memory = &tools[1];
    let schema = memory.schema.as_ref().expect("the memory tool declares its schema");
    assert_eq!(schema.required, vec!["action", "project_path"]);
    assert_eq!(schema.fields.len(), 4);

    let search = &tools[2];
    assert!(search.schema.is_none());
}
