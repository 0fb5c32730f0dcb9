use cunzhi::commands::{
    get_mcp_tools_config, get_mcp_tools_status, reset_mcp_tools_config, set_enabled_outcome,
    set_mcp_tool_enabled, EnablementError,
};
use cunzhi::config::ToolsConfig;
use cunzhi::theme::McpTheme;

#[test]
fn empty_config_has_no_flags() {
    let c = ToolsConfig::new();
    assert_eq!(c.len(), 0);
    assert_eq!(c.get("bumblebee"), None);
    assert_eq!(c.get_or("bumblebee", false), false);
    assert_eq!(c.get_or("bumblebee", true), true);
}

#[test]
fn set_stores_and_overwrites() {
    let mut c = ToolsConfig::new();
    c.set("bumblebee", true);
    assert_eq!(c.get("bumblebee"), Some(true));
    assert_eq!(c.len(), 1);
    c.set("bumblebee", false);
    assert_eq!(c.get("bumblebee"), Some(false));
    assert_eq!(c.len(), 1);
    c.set("megatron", true);
    assert_eq!(c.len(), 2);
    assert_eq!(c.get("bumblebee"), Some(false));
    assert_eq!(c.get("megatron"), Some(true));
}

#[test]
fn clear_drops_everything() {
    let mut c = ToolsConfig::new();
    c.set("a", true);
    c.set("b", false);
    c.clear();
    assert_eq!(c.len(), 0);
    assert_eq!(c.get("a"), None);
    assert_eq!(c.get("b"), None);
}

#[test]
fn clone_config_copies_all_entries() {
    let mut c = ToolsConfig::new();
    c.set("a", true);
    c.set("b", false);
    let d = c.clone_config();
    assert_eq!(d.len(), 2);
    assert_eq!(d.get("a"), Some(true));
    assert_eq!(d.get("b"), Some(false));
    let s = get_mcp_tools_status(&c);
    assert_eq!(s.get("a"), Some(true));
    assert_eq!(s.get("b"), Some(false));
}

#[test]
fn reset_gives_leader_on_and_others_off() {
    let theme = McpTheme::transformers();
    let c = reset_mcp_tools_config(&theme);
    assert_eq!(c.len(), 3);
    assert_eq!(c.get("optimus"), Some(true));
    assert_eq!(c.get("bumblebee"), Some(false));
    assert_eq!(c.get("megatron"), Some(false));
    assert_eq!(c.get("stale_id"), None);
}

#[test]
fn reset_discards_prior_state() {
    let theme = McpTheme::classic();
    let c = reset_mcp_tools_config(&theme);
    assert_eq!(c.get("zhi"), Some(true));
    assert_eq!(c.get("ji"), Some(false));
    assert_eq!(c.get("sou"), Some(false));
}

#[test]
fn leader_cannot_be_disabled() {
    let theme = McpTheme::transformers();
    let mut c = ToolsConfig::new();
    c.set("bumblebee", true);
    let r = set_mcp_tool_enabled(&theme, &mut c, "optimus", false);
    match r {
        Err(EnablementError::LeaderImmutable(m)) => {
            assert_eq!(m, theme.messages.leader_cannot_disable_msg);
            assert_eq!(m, "擎天柱是汽车人领袖，永不退场！");
        }
        _ => panic!("disabling the leader must fail with LeaderImmutable"),
    }
    assert_eq!(c.len(), 1);
    assert_eq!(c.get("optimus"), None);
    assert_eq!(c.get("bumblebee"), Some(true));
}

#[test]
fn leader_can_be_enabled_and_others_toggled() {
    let theme = McpTheme::transformers();
    let mut c = ToolsConfig::new();
    assert!(set_mcp_tool_enabled(&theme, &mut c, "optimus", true).is_ok());
    assert_eq!(c.get("optimus"), Some(true));
    assert!(set_mcp_tool_enabled(&theme, &mut c, "bumblebee", true).is_ok());
    assert_eq!(c.get("bumblebee"), Some(true));
    assert!(set_mcp_tool_enabled(&theme, &mut c, "bumblebee", false).is_ok());
    assert_eq!(c.get("bumblebee"), Some(false));
}

#[test]
fn persist_outcome_is_folded() {
    assert!(set_enabled_outcome(Ok(())).is_ok());
    match set_enabled_outcome(Err(String::from("disk full"))) {
        Err(EnablementError::PersistError(m)) => assert_eq!(m, "disk full"),
        _ => panic!("a failed save must surface as PersistError"),
    }
}

#[test]
fn tools_config_rows_default_order() {
    let theme = McpTheme::transformers();
    let c = ToolsConfig::new();
    let rows = get_mcp_tools_config(&theme, &c);
    assert_eq!(rows.len(), 3);
    assert_eq!(rows[0].id, "optimus");
    assert!(rows[0].enabled);
    assert!(!rows[0].can_disable);
    assert!(!rows[0].has_config);
    assert_eq!(rows[1].id, "bumblebee");
    assert!(!rows[1].enabled);
    assert!(rows[1].can_disable);
    assert_eq!(rows[2].id, "megatron");
    assert!(!rows[2].enabled);
    assert!(rows[2].has_config);
    assert_eq!(rows[0].name, "擎天柱");
    assert_eq!(rows[0].dark_icon_bg, "dark:bg-blue-800");
}

#[test]
fn tools_config_rows_sort_enabled_first() {
    let theme = McpTheme::transformers();
    let mut c = ToolsConfig::new();
    c.set("optimus", false);
    c.set("bumblebee", true);
    let rows = get_mcp_tools_config(&theme, &c);
    assert_eq!(rows.len(), 3);
    assert_eq!(rows[0].id, "bumblebee");
    assert!(rows[0].enabled);
    assert_eq!(rows[1].id, "optimus");
    assert!(!rows[1].enabled);
    assert_eq!(rows[2].id, "megatron");
    assert!(!rows[2].enabled);
}
