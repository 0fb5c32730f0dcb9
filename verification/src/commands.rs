use vstd::prelude::*;

use crate::assoc::{assoc_lookup, assoc_lookup_or};
use crate::config::ToolsConfig;
use crate::text::str_eq;
use crate::theme::{McpTheme, McpThemeView, ToolTheme, ToolThemeView};

verus! {

/// One row of the management view of the tool registry.
pub struct MCPToolConfig {
    pub id: String,
    pub name: String,
    pub description: String,
    pub enabled: bool,
    pub can_disable: bool,
    pub icon: String,
    pub icon_bg: String,
    pub dark_icon_bg: String,
    pub has_config: bool,
}

pub ghost struct MCPToolConfigView {
    pub id: Seq<char>,
    pub name: Seq<char>,
    pub description: Seq<char>,
    pub enabled: bool,
    pub can_disable: bool,
    pub icon: Seq<char>,
    pub icon_bg: Seq<char>,
    pub dark_icon_bg: Seq<char>,
    pub has_config: bool,
}

impl View for MCPToolConfig {
    type V = MCPToolConfigView;

    open spec fn view(&self) -> MCPToolConfigView {
        MCPToolConfigView {
            id: self.id@,
            name: self.name@,
            description: self.description@,
            enabled: self.enabled,
            can_disable: self.can_disable,
            icon: self.icon@,
            icon_bg: self.icon_bg@,
            dark_icon_bg: self.dark_icon_bg@,
            has_config: self.has_config,
        }
    }
}

pub open spec fn cfg_view(
    t: ToolThemeView,
    enabled: bool,
    can_disable: bool,
    dark_icon_bg: Seq<char>,
    has_config: bool,
) -> MCPToolConfigView {
    MCPToolConfigView {
        id: t.id,
        name: t.display_name,
        description: t.description,
        enabled: enabled,
        can_disable: can_disable,
        icon: t.icon,
        icon_bg: t.icon_bg,
        dark_icon_bg: dark_icon_bg,
        has_config: has_config,
    }
}

fn make_cfg(t: &ToolTheme, enabled: bool, can_disable: bool, dark_icon_bg: &str, has_config: bool)
    -> (c: MCPToolConfig)
    ensures
        c@ == cfg_view(t@, enabled, can_disable, dark_icon_bg@, has_config),
{
    MCPToolConfig {
        id: t.id.clone(),
        name: t.display_name.clone(),
        description: t.description.clone(),
        enabled,
        can_disable,
        icon: t.icon.clone(),
        icon_bg: t.icon_bg.clone(),
        dark_icon_bg: String::from_str(dark_icon_bg),
        has_config,
    }
}

/// The management rows in order: the three role tools (leader first, then
/// memory, then search), enabled rows before disabled rows, the relative
/// order within each group kept. The leader row defaults to enabled and
/// cannot be disabled; the other rows default to disabled.
pub open spec fn mcp_tools_config_spec(theme: McpThemeView, tools: Seq<(String, bool)>) -> Seq<
    MCPToolConfigView,
> {
    let c0 = cfg_view(
        theme.tool_interaction,
        assoc_lookup_or(tools, theme.tool_interaction.id, true),
        false,
        "dark:bg-blue-800"@,
        false,
    );
    let c1 = cfg_view(
        theme.tool_memory,
        assoc_lookup_or(tools, theme.tool_memory.id, false),
        true,
        "dark:bg-yellow-800"@,
        false,
    );
    let c2 = cfg_view(
        theme.tool_search,
        assoc_lookup_or(tools, theme.tool_search.id, false),
        true,
        "dark:bg-purple-800"@,
        true,
    );
    let enabled_rows = (if c0.enabled {
        seq![c0]
    } else {
        Seq::<MCPToolConfigView>::empty()
    }) + (if c1.enabled {
        seq![c1]
    } else {
        Seq::<MCPToolConfigView>::empty()
    }) + (if c2.enabled {
        seq![c2]
    } else {
        Seq::<MCPToolConfigView>::empty()
    });
    let disabled_rows = (if !c0.enabled {
        seq![c0]
    } else {
        Seq::<MCPToolConfigView>::empty()
    }) + (if !c1.enabled {
        seq![c1]
    } else {
        Seq::<MCPToolConfigView>::empty()
    }) + (if !c2.enabled {
        seq![c2]
    } else {
        Seq::<MCPToolConfigView>::empty()
    });
    enabled_rows + disabled_rows
}

/// Builds the management view of the tool registry from the active theme
/// and the stored enablement flags.
pub fn get_mcp_tools_config(theme: &McpTheme, tools: &ToolsConfig) -> (r: Vec<MCPToolConfig>)
    ensures
        r@.map_values(|c: MCPToolConfig| c@) == mcp_tools_config_spec(theme@, tools@),
{
    let e0 = tools.get_or(theme.tool_interaction.id.as_str(), true);
    let e1 = tools.get_or(theme.tool_memory.id.as_str(), false);
    let e2 = tools.get_or(theme.tool_search.id.as_str(), false);
    let mut v: Vec<MCPToolConfig> = Vec::new();
    if e0 {
        v.push(make_cfg(&theme.tool_interaction, true, false, "dark:bg-blue-800", false));
    }
    if e1 {
        v.push(make_cfg(&theme.tool_memory, true, true, "dark:bg-yellow-800", false));
    }
    if e2 {
        v.push(make_cfg(&theme.tool_search, true, true, "dark:bg-purple-800", true));
    }
    if !e0 {
        v.push(make_cfg(&theme.tool_interaction, false, false, "dark:bg-blue-800", false));
    }
    if !e1 {
        v.push(make_cfg(&theme.tool_memory, false, true, "dark:bg-yellow-800", false));
    }
    if !e2 {
        v.push(make_cfg(&theme.tool_search, false, true, "dark:bg-purple-800", true));
    }
    proof {
        assert(v@.map_values(|c: MCPToolConfig| c@) =~= mcp_tools_config_spec(theme@, tools@));
    }
    v
}

/// Why a change to the stored enablement was not applied.
pub enum EnablementError {
    /// The leader tool cannot be disabled; holds the theme's message.
    LeaderImmutable(String),
    /// The persistence collaborator failed to write; holds its report.
    PersistError(String),
}

impl EnablementError {
    pub fn message(&self) -> (m: &String)
        ensures
            self matches EnablementError::LeaderImmutable(s) ==> m == s,
            self matches EnablementError::PersistError(s) ==> m == s,
    {
        match self {
            EnablementError::LeaderImmutable(s) => s,
            EnablementError::PersistError(s) => s,
        }
    }
}

/// Applies a request to flip one tool's stored enablement. Disabling the
/// leader tool is refused before anything changes; any other request
/// updates exactly the named id. Persisting the updated flags is the
/// caller's step; a failed write surfaces as `PersistError` through
/// `set_enabled_outcome`.
pub fn set_mcp_tool_enabled(
    theme: &McpTheme,
    tools: &mut ToolsConfig,
    tool_id: &str,
    enabled: bool,
) -> (r: Result<(), EnablementError>)
    requires
        old(tools).wf(),
    ensures
        final(tools).wf(),
        r is Err <==> (tool_id@ == theme@.tool_interaction.id && !enabled),
        r matches Err(e) ==> ({
            &&& e matches EnablementError::LeaderImmutable(m)
                && m@ == theme@.messages.leader_cannot_disable_msg
            &&& final(tools)@ == old(tools)@
        }),
        r is Ok ==> ({
            &&& assoc_lookup(final(tools)@, tool_id@) == Some(enabled)
            &&& forall|k: Seq<char>|
                k != tool_id@ ==> assoc_lookup(#[trigger] final(tools)@, k) == assoc_lookup(
                    old(tools)@,
                    k,
                )
        }),
{
    if str_eq(tool_id, theme.tool_interaction.id.as_str()) && !enabled {
        return Err(EnablementError::LeaderImmutable(theme.messages.leader_cannot_disable_msg.clone()));
    }
    tools.set(tool_id, enabled);
    Ok(())
}

/// Folds the persistence collaborator's write outcome into the enablement
/// error taxonomy: a failed write is a `PersistError` carrying its report.
pub fn set_enabled_outcome(save_result: Result<(), String>) -> (r: Result<(), EnablementError>)
    ensures
        save_result is Ok <==> r is Ok,
        save_result matches Err(m) ==> (r matches Err(
            EnablementError::PersistError(p),
        ) && p@ == m@),
{
    match save_result {
        Ok(()) => Ok(()),
        Err(m) => Err(EnablementError::PersistError(m)),
    }
}

/// A copy of the stored flags, for reporting to a management caller.
pub fn get_mcp_tools_status(tools: &ToolsConfig) -> (r: ToolsConfig)
    ensures
        r@ == tools@,
{
    tools.clone_config()
}

/// The default enablement for the active theme: exactly the three role ids,
/// the leader enabled, memory and search disabled.
pub fn reset_mcp_tools_config(theme: &McpTheme) -> (r: ToolsConfig)
    requires
        theme@.wf(),
    ensures
        r.wf(),
        r@.len() == 3,
        assoc_lookup(r@, theme@.tool_interaction.id) == Some(true),
        assoc_lookup(r@, theme@.tool_memory.id) == Some(false),
        assoc_lookup(r@, theme@.tool_search.id) == Some(false),
        forall|k: Seq<char>|
            (k != theme@.tool_interaction.id && k != theme@.tool_memory.id && k
                != theme@.tool_search.id) ==> assoc_lookup(#[trigger] r@, k) == None::<bool>,
{
    let mut r = ToolsConfig::new();
    r.set(theme.tool_interaction.id.as_str(), true);
    r.set(theme.tool_memory.id.as_str(), false);
    r.set(theme.tool_search.id.as_str(), false);
    r
}

} // verus!
