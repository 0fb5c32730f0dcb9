use vstd::prelude::*;

use crate::assoc::{assoc_lookup, assoc_lookup_or};
use crate::commands::reset_mcp_tools_config;
use crate::config::ToolsConfig;
use crate::text::str_eq;
use crate::theme::{format_msg_spec, McpTheme, McpThemeView};
use crate::types::{
    jiyi_decode_spec, zhi_decode_spec, ArgValue, JiyiRequest, JiyiRequestView, McpError, ToolArgs,
    ZhiRequest, ZhiRequestView,
};

verus! {

/// What the server reports at the protocol handshake: identity and
/// introduction come from the active theme; the only declared capability
/// is tool invocation.
pub struct ServerInfo {
    pub protocol_version: String,
    pub tools_capability: bool,
    pub server_name: String,
    pub server_version: String,
    pub instructions: String,
}

/// The shape of one argument field a tool declares.
#[derive(Clone, Copy, PartialEq, Eq, Structural, Debug)]
pub enum FieldKind {
    Text,
    TextList,
    Flag,
}

pub struct SchemaField {
    pub name: String,
    pub kind: FieldKind,
    pub description: String,
}

pub ghost struct SchemaFieldView {
    pub name: Seq<char>,
    pub kind: FieldKind,
    pub description: Seq<char>,
}

impl View for SchemaField {
    type V = SchemaFieldView;

    open spec fn view(&self) -> SchemaFieldView {
        SchemaFieldView { name: self.name@, kind: self.kind, description: self.description@ }
    }
}

/// The argument contract a tool declares to callers.
pub struct ToolSchema {
    pub fields: Vec<SchemaField>,
    pub required: Vec<String>,
}

pub ghost struct ToolSchemaView {
    pub fields: Seq<SchemaFieldView>,
    pub required: Seq<Seq<char>>,
}

impl View for ToolSchema {
    type V = ToolSchemaView;

    open spec fn view(&self) -> ToolSchemaView {
        ToolSchemaView {
            fields: self.fields@.map_values(|f: SchemaField| f@),
            required: self.required@.map_values(|s: String| s@),
        }
    }
}

/// One entry of the advertised tool list. A schema of `None` means the
/// argument contract is defined by the search collaborator, not here.
pub struct ToolDecl {
    pub id: String,
    pub description: String,
    pub schema: Option<ToolSchema>,
}

pub ghost struct ToolDeclView {
    pub id: Seq<char>,
    pub description: Seq<char>,
    pub schema: Option<ToolSchemaView>,
}

impl View for ToolDecl {
    type V = ToolDeclView;

    open spec fn view(&self) -> ToolDeclView {
        ToolDeclView {
            id: self.id@,
            description: self.description@,
            schema: match self.schema {
                Some(s) => Some(s@),
                None => None,
            },
        }
    }
}

pub open spec fn interaction_schema_spec(display_name: Seq<char>) -> ToolSchemaView {
    ToolSchemaView {
        fields: seq![
            SchemaFieldView {
                name: "message"@,
                kind: FieldKind::Text,
                description: display_name + "要传达的信息"@,
            },
            SchemaFieldView {
                name: "predefined_options"@,
                kind: FieldKind::TextList,
                description: "预设的选项列表（可选）"@,
            },
            SchemaFieldView {
                name: "is_markdown"@,
                kind: FieldKind::Flag,
                description: "信息是否为Markdown格式，默认为true"@,
            },
        ],
        required: seq!["message"@],
    }
}

pub open spec fn memory_schema_spec() -> ToolSchemaView {
    ToolSchemaView {
        fields: seq![
            SchemaFieldView {
                name: "action"@,
                kind: FieldKind::Text,
                description: "任务类型：记忆(存储), 回忆(提取)"@,
            },
            SchemaFieldView {
                name: "project_path"@,
                kind: FieldKind::Text,
                description: "项目路径（必需）"@,
            },
            SchemaFieldView {
                name: "content"@,
                kind: FieldKind::Text,
                description: "内容（存储时必需）"@,
            },
            SchemaFieldView {
                name: "category"@,
                kind: FieldKind::Text,
                description: "分类：rule(规则), preference(偏好), pattern(模式), context(上下文)"@,
            },
        ],
        required: seq!["action"@, "project_path"@],
    }
}

fn make_field(name: &str, kind: FieldKind, description: String) -> (f: SchemaField)
    ensures
        f@ == (SchemaFieldView { name: name@, kind, description: description@ }),
{
    SchemaField { name: String::from_str(name), kind, description }
}

/// The interaction tool's declared argument contract; the message field's
/// description names the tool as the theme displays it.
pub fn interaction_schema(display_name: &str) -> (s: ToolSchema)
    ensures
        s@ == interaction_schema_spec(display_name@),
{
    let mut message_desc = String::from_str(display_name);
    message_desc.append("要传达的信息");
    let mut fields: Vec<SchemaField> = Vec::new();
    fields.push(make_field("message", FieldKind::Text, message_desc));
    fields.push(
        make_field("predefined_options", FieldKind::TextList, String::from_str("预设的选项列表（可选）")),
    );
    fields.push(
        make_field("is_markdown", FieldKind::Flag, String::from_str("信息是否为Markdown格式，默认为true")),
    );
    let mut required: Vec<String> = Vec::new();
    required.push(String::from_str("message"));
    let s = ToolSchema { fields, required };
    proof {
        assert(s@.fields =~= interaction_schema_spec(display_name@).fields);
        assert(s@.required =~= interaction_schema_spec(display_name@).required);
    }
    s
}

/// The memory tool's declared argument contract.
pub fn memory_schema() -> (s: ToolSchema)
    ensures
        s@ == memory_schema_spec(),
{
    let mut fields: Vec<SchemaField> = Vec::new();
    fields.push(
        make_field("action", FieldKind::Text, String::from_str("任务类型：记忆(存储), 回忆(提取)")),
    );
    fields.push(make_field("project_path", FieldKind::Text, String::from_str("项目路径（必需）")));
    fields.push(make_field("content", FieldKind::Text, String::from_str("内容（存储时必需）")));
    fields.push(
        make_field(
            "category",
            FieldKind::Text,
            String::from_str("分类：rule(规则), preference(偏好), pattern(模式), context(上下文)"),
        ),
    );
    let mut required: Vec<String> = Vec::new();
    required.push(String::from_str("action"));
    required.push(String::from_str("project_path"));
    let s = ToolSchema { fields, required };
    proof {
        assert(s@.fields =~= memory_schema_spec().fields);
        assert(s@.required =~= memory_schema_spec().required);
    }
    s
}

pub open spec fn interaction_decl_spec(theme: McpThemeView) -> ToolDeclView {
    ToolDeclView {
        id: theme.tool_interaction.id,
        description: theme.tool_interaction.description,
        schema: Some(interaction_schema_spec(theme.tool_interaction.display_name)),
    }
}

pub open spec fn memory_decl_spec(theme: McpThemeView) -> ToolDeclView {
    ToolDeclView {
        id: theme.tool_memory.id,
        description: theme.tool_memory.description,
        schema: Some(memory_schema_spec()),
    }
}

pub open spec fn search_decl_spec(theme: McpThemeView) -> ToolDeclView {
    ToolDeclView {
        id: theme.tool_search.id,
        description: theme.tool_search.description,
        schema: None,
    }
}

pub open spec fn opt_config_view(fresh: Option<&ToolsConfig>) -> Option<Seq<(String, bool)>> {
    match fresh {
        Some(m) => Some(m@),
        None => None,
    }
}

/// Whether one tool id counts as enabled at this moment. The leader id is
/// always enabled. Any other id is decided by the freshly read flags when
/// the read succeeded, else by the snapshot taken at server construction;
/// an id absent from the deciding map counts as disabled.
pub open spec fn is_enabled_spec(
    theme: McpThemeView,
    fresh: Option<Seq<(String, bool)>>,
    snapshot: Seq<(String, bool)>,
    id: Seq<char>,
) -> bool {
    if id == theme.tool_interaction.id {
        true
    } else {
        match fresh {
            Some(m) => assoc_lookup_or(m, id, false),
            None => assoc_lookup_or(snapshot, id, false),
        }
    }
}

/// The advertised tool list: the leader first, unconditionally; then the
/// memory tool iff enabled; then the search tool iff enabled.
pub open spec fn list_tools_spec(
    theme: McpThemeView,
    fresh: Option<Seq<(String, bool)>>,
    snapshot: Seq<(String, bool)>,
) -> Seq<ToolDeclView> {
    seq![interaction_decl_spec(theme)] + (if is_enabled_spec(
        theme,
        fresh,
        snapshot,
        theme.tool_memory.id,
    ) {
        seq![memory_decl_spec(theme)]
    } else {
        Seq::<ToolDeclView>::empty()
    }) + (if is_enabled_spec(theme, fresh, snapshot, theme.tool_search.id) {
        seq![search_decl_spec(theme)]
    } else {
        Seq::<ToolDeclView>::empty()
    })
}

/// The request the dispatcher routed, ready for its capability handler.
/// Search arguments pass through untouched: their contract belongs to the
/// search collaborator.
pub enum ToolCall {
    Interaction(ZhiRequest),
    Memory(JiyiRequest),
    Search(ToolArgs),
}

pub ghost enum DispatchView {
    CallInteraction(ZhiRequestView),
    CallMemory(JiyiRequestView),
    CallSearch(Seq<(String, ArgValue)>),
    FailUnknown(Seq<char>),
    FailDisabled(Seq<char>),
    FailParams(Seq<char>),
}

/// The dispatch decision for one invocation: route to a handler, or fail
/// with the exact themed message. The leader is matched first and is never
/// gated on enablement; the other two roles are; any other name is unknown.
pub open spec fn call_tool_spec(
    theme: McpThemeView,
    fresh: Option<Seq<(String, bool)>>,
    snapshot: Seq<(String, bool)>,
    name: Seq<char>,
    args: Seq<(String, ArgValue)>,
) -> DispatchView {
    if name == theme.tool_interaction.id {
        match zhi_decode_spec(args) {
            Ok(q) => DispatchView::CallInteraction(q),
            Err(e) => DispatchView::FailParams(
                format_msg_spec(
                    theme.messages.param_parse_error_msg,
                    theme.tool_interaction.display_name,
                    Some(e),
                ),
            ),
        }
    } else if name == theme.tool_memory.id {
        if !is_enabled_spec(theme, fresh, snapshot, name) {
            DispatchView::FailDisabled(
                format_msg_spec(
                    theme.messages.tool_disabled_msg,
                    theme.tool_memory.display_name,
                    None,
                ),
            )
        } else {
            match jiyi_decode_spec(args) {
                Ok(q) => DispatchView::CallMemory(q),
                Err(e) => DispatchView::FailParams(
                    format_msg_spec(
                        theme.messages.param_parse_error_msg,
                        theme.tool_memory.display_name,
                        Some(e),
                    ),
                ),
            }
        }
    } else if name == theme.tool_search.id {
        if !is_enabled_spec(theme, fresh, snapshot, name) {
            DispatchView::FailDisabled(
                format_msg_spec(
                    theme.messages.tool_disabled_msg,
                    theme.tool_search.display_name,
                    None,
                ),
            )
        } else {
            DispatchView::CallSearch(args)
        }
    } else {
        DispatchView::FailUnknown(format_msg_spec(theme.messages.unknown_tool_msg, name, None))
    }
}

pub open spec fn dispatch_matches(r: Result<ToolCall, McpError>, d: DispatchView) -> bool {
    match d {
        DispatchView::CallInteraction(q) => r matches Ok(ToolCall::Interaction(z)) && z@ == q,
        DispatchView::CallMemory(q) => r matches Ok(ToolCall::Memory(z)) && z@ == q,
        DispatchView::CallSearch(a) => r matches Ok(ToolCall::Search(z)) && z@ == a,
        DispatchView::FailUnknown(m) => r matches Err(McpError::UnknownTool { message })
            && message@ == m,
        DispatchView::FailDisabled(m) => r matches Err(McpError::ToolDisabled { message })
            && message@ == m,
        DispatchView::FailParams(m) => r matches Err(McpError::InvalidParams { message })
            && message@ == m,
    }
}

/// The protocol dispatcher. It owns nothing but the enablement snapshot
/// taken at construction; the active theme and the per-call fresh read of
/// the persisted flags are handed in by the caller, so every invocation is
/// decided independently.
pub struct ZhiServer {
    enabled_tools: ToolsConfig,
}

impl ZhiServer {
    pub closed spec fn snapshot(self) -> Seq<(String, bool)> {
        self.enabled_tools@
    }

    /// Construction takes the one read of the persisted flags made at
    /// startup; a failed read falls back to the theme's defaults (leader
    /// enabled, memory and search disabled).
    pub fn new(theme: &McpTheme, loaded: Option<ToolsConfig>) -> (r: Self)
        requires
            theme@.wf(),
        ensures
            loaded matches Some(t) ==> r.snapshot() == t@,
            loaded is None ==> ({
                &&& assoc_lookup(r.snapshot(), theme@.tool_interaction.id) == Some(true)
                &&& assoc_lookup(r.snapshot(), theme@.tool_memory.id) == Some(false)
                &&& assoc_lookup(r.snapshot(), theme@.tool_search.id) == Some(false)
            }),
    {
        match loaded {
            Some(t) => ZhiServer { enabled_tools: t },
            None => ZhiServer { enabled_tools: reset_mcp_tools_config(theme) },
        }
    }

    /// Enablement of one tool id now; `fresh` is what a read of the
    /// persisted flags just returned, `None` when it failed.
    pub fn is_tool_enabled(&self, theme: &McpTheme, fresh: Option<&ToolsConfig>, tool_name: &str)
        -> (r: bool)
        ensures
            r == is_enabled_spec(theme@, opt_config_view(fresh), self.snapshot(), tool_name@),
    {
        if str_eq(tool_name, theme.tool_interaction.id.as_str()) {
            return true;
        }
        match fresh {
            Some(m) => m.get_or(tool_name, false),
            None => self.enabled_tools.get_or(tool_name, false),
        }
    }

    /// The handshake report; it depends on the theme alone and always
    /// succeeds.
    pub fn get_info(&self, theme: &McpTheme, version: &str) -> (info: ServerInfo)
        ensures
            info.protocol_version@ == "2024-11-05"@,
            info.tools_capability,
            info.server_name@ == theme@.messages.server_name,
            info.server_version@ == version@,
            info.instructions@ == theme@.messages.server_intro,
    {
        ServerInfo {
            protocol_version: String::from_str("2024-11-05"),
            tools_capability: true,
            server_name: theme.messages.server_name.clone(),
            server_version: String::from_str(version),
            instructions: theme.messages.server_intro.clone(),
        }
    }

    /// Initialization reports the same handshake information, in any state.
    pub fn initialize(&self, theme: &McpTheme, version: &str) -> (info: ServerInfo)
        ensures
            info.protocol_version@ == "2024-11-05"@,
            info.tools_capability,
            info.server_name@ == theme@.messages.server_name,
            info.server_version@ == version@,
            info.instructions@ == theme@.messages.server_intro,
    {
        self.get_info(theme, version)
    }

    /// The tool list at this moment, recomputed on every call so that
    /// enablement toggles are visible to a caller who lists again.
    pub fn list_tools(&self, theme: &McpTheme, fresh: Option<&ToolsConfig>) -> (r: Vec<ToolDecl>)
        ensures
            r@.map_values(|t: ToolDecl| t@) == list_tools_spec(
                theme@,
                opt_config_view(fresh),
                self.snapshot(),
            ),
    {
        let mut tools: Vec<ToolDecl> = Vec::new();
        tools.push(
            ToolDecl {
                id: theme.tool_interaction.id.clone(),
                description: theme.tool_interaction.description.clone(),
                schema: Some(interaction_schema(theme.tool_interaction.display_name.as_str())),
            },
        );
        if self.is_tool_enabled(theme, fresh, theme.tool_memory.id.as_str()) {
            tools.push(
                ToolDecl {
                    id: theme.tool_memory.id.clone(),
                    description: theme.tool_memory.description.clone(),
                    schema: Some(memory_schema()),
                },
            );
        }
        if self.is_tool_enabled(theme, fresh, theme.tool_search.id.as_str()) {
            tools.push(
                ToolDecl {
                    id: theme.tool_search.id.clone(),
                    description: theme.tool_search.description.clone(),
                    schema: None,
                },
            );
        }
        proof {
            assert(tools@.map_values(|t: ToolDecl| t@) =~= list_tools_spec(
                theme@,
                opt_config_view(fresh),
                self.snapshot(),
            ));
        }
        tools
    }

    /// Routes one invocation: validates the name against the active theme's
    /// ids, gates non-leader roles on enablement, decodes the declared
    /// argument contract, and hands the typed request on — or fails with
    /// the exact themed message. A failure is terminal for this invocation
    /// alone; nothing here mutates the server or the stored flags.
    pub fn call_tool(
        &self,
        theme: &McpTheme,
        fresh: Option<&ToolsConfig>,
        name: &str,
        args: ToolArgs,
    ) -> (r: Result<ToolCall, McpError>)
        ensures
            dispatch_matches(
                r,
                call_tool_spec(
                    theme@,
                    opt_config_view(fresh),
                    self.snapshot(),
                    name@,
                    args@,
                ),
            ),
    {
        if str_eq(name, theme.tool_interaction.id.as_str()) {
            match ZhiRequest::from_args(&args) {
                Ok(q) => Ok(ToolCall::Interaction(q)),
                Err(e) => {
                    let message = theme.format_msg(
                        theme.messages.param_parse_error_msg.as_str(),
                        theme.tool_interaction.display_name.as_str(),
                        Some(e.as_str()),
                    );
                    Err(McpError::InvalidParams { message })
                },
            }
        } else if str_eq(name, theme.tool_memory.id.as_str()) {
            if !self.is_tool_enabled(theme, fresh, theme.tool_memory.id.as_str()) {
                let message = theme.format_msg(
                    theme.messages.tool_disabled_msg.as_str(),
                    theme.tool_memory.display_name.as_str(),
                    None,
                );
                return Err(McpError::ToolDisabled { message });
            }
            match JiyiRequest::from_args(&args) {
                Ok(q) => Ok(ToolCall::Memory(q)),
                Err(e) => {
                    let message = theme.format_msg(
                        theme.messages.param_parse_error_msg.as_str(),
                        theme.tool_memory.display_name.as_str(),
                        Some(e.as_str()),
                    );
                    Err(McpError::InvalidParams { message })
                },
            }
        } else if str_eq(name, theme.tool_search.id.as_str()) {
            if !self.is_tool_enabled(theme, fresh, theme.tool_search.id.as_str()) {
                let message = theme.format_msg(
                    theme.messages.tool_disabled_msg.as_str(),
                    theme.tool_search.display_name.as_str(),
                    None,
                );
                return Err(McpError::ToolDisabled { message });
            }
            Ok(ToolCall::Search(args))
        } else {
            let message = theme.format_msg(theme.messages.unknown_tool_msg.as_str(), name, None);
            Err(McpError::UnknownTool { message })
        }
    }
}

/// The tool list always starts with the leader identity, and never holds a
/// non-leader identity whose enablement is off at the moment of listing.
pub proof fn lemma_list_tools_leader(
    theme: McpThemeView,
    fresh: Option<Seq<(String, bool)>>,
    snapshot: Seq<(String, bool)>,
)
    requires
        theme.wf(),
    ensures
        list_tools_spec(theme, fresh, snapshot).len() > 0,
        list_tools_spec(theme, fresh, snapshot)[0] == interaction_decl_spec(theme),
        list_tools_spec(theme, fresh, snapshot)[0].id == theme.tool_interaction.id,
        !is_enabled_spec(theme, fresh, snapshot, theme.tool_memory.id) ==> forall|i: int|
            0 <= i < list_tools_spec(theme, fresh, snapshot).len() ==> list_tools_spec(
                theme,
                fresh,
                snapshot,
            )[i].id != theme.tool_memory.id,
        !is_enabled_spec(theme, fresh, snapshot, theme.tool_search.id) ==> forall|i: int|
            0 <= i < list_tools_spec(theme, fresh, snapshot).len() ==> list_tools_spec(
                theme,
                fresh,
                snapshot,
            )[i].id != theme.tool_search.id,
{
    let s = list_tools_spec(theme, fresh, snapshot);
    let mem = is_enabled_spec(theme, fresh, snapshot, theme.tool_memory.id);
    let srch = is_enabled_spec(theme, fresh, snapshot, theme.tool_search.id);
    assert(s[0] == interaction_decl_spec(theme));
    if !mem {
        assert forall|i: int| 0 <= i < s.len() implies s[i].id != theme.tool_memory.id by {
            if srch {
                assert(s =~= seq![interaction_decl_spec(theme), search_decl_spec(theme)]);
            } else {
                assert(s =~= seq![interaction_decl_spec(theme)]);
            }
        }
    }
    if !srch {
        assert forall|i: int| 0 <= i < s.len() implies s[i].id != theme.tool_search.id by {
            if mem {
                assert(s =~= seq![interaction_decl_spec(theme), memory_decl_spec(theme)]);
            } else {
                assert(s =~= seq![interaction_decl_spec(theme)]);
            }
        }
    }
}

/// Resetting the stored flags to the defaults and then asking again yields:
/// leader enabled, memory disabled, search disabled — whatever state held
/// before the reset.
pub proof fn lemma_reset_round_trip(
    theme: McpThemeView,
    reset: Seq<(String, bool)>,
    snapshot: Seq<(String, bool)>,
)
    requires
        theme.wf(),
        assoc_lookup(reset, theme.tool_interaction.id) == Some(true),
        assoc_lookup(reset, theme.tool_memory.id) == Some(false),
        assoc_lookup(reset, theme.tool_search.id) == Some(false),
    ensures
        is_enabled_spec(theme, Some(reset), snapshot, theme.tool_interaction.id),
        !is_enabled_spec(theme, Some(reset), snapshot, theme.tool_memory.id),
        !is_enabled_spec(theme, Some(reset), snapshot, theme.tool_search.id),
{
}

} // verus!
