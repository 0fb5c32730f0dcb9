use vstd::prelude::*;

use crate::text::str_eq;
use crate::types::{CallToolResult, Content, JiyiRequest, JiyiRequestView, McpError};

verus! {

/// The fixed category set of stored memories; an unrecognized category
/// string falls into the open `Context` category.
#[derive(Clone, Copy, PartialEq, Eq, Structural, Debug)]
pub enum MemoryCategory {
    Rule,
    Preference,
    Pattern,
    Context,
}

pub open spec fn category_of(s: Seq<char>) -> MemoryCategory {
    if s == "rule"@ {
        MemoryCategory::Rule
    } else if s == "preference"@ {
        MemoryCategory::Preference
    } else if s == "pattern"@ {
        MemoryCategory::Pattern
    } else {
        MemoryCategory::Context
    }
}

pub open spec fn category_label(c: MemoryCategory) -> Seq<char> {
    match c {
        MemoryCategory::Rule => "Rule"@,
        MemoryCategory::Preference => "Preference"@,
        MemoryCategory::Pattern => "Pattern"@,
        MemoryCategory::Context => "Context"@,
    }
}

impl MemoryCategory {
    pub fn from_str(s: &str) -> (c: Self)
        ensures
            c == category_of(s@),
    {
        if str_eq(s, "rule") {
            MemoryCategory::Rule
        } else if str_eq(s, "preference") {
            MemoryCategory::Preference
        } else if str_eq(s, "pattern") {
            MemoryCategory::Pattern
        } else {
            MemoryCategory::Context
        }
    }

    pub fn label(&self) -> (s: &'static str)
        ensures
            s@ == category_label(*self),
    {
        match self {
            MemoryCategory::Rule => "Rule",
            MemoryCategory::Preference => "Preference",
            MemoryCategory::Pattern => "Pattern",
            MemoryCategory::Context => "Context",
        }
    }
}

/// What the memory collaborator is asked to do.
pub enum MemoryAction {
    Store { content: String, category: MemoryCategory },
    Recall,
}

pub ghost enum MemoryActionView {
    Store { content: Seq<char>, category: MemoryCategory },
    Recall,
}

impl View for MemoryAction {
    type V = MemoryActionView;

    open spec fn view(&self) -> MemoryActionView {
        match self {
            MemoryAction::Store { content, category } => MemoryActionView::Store {
                content: content@,
                category: *category,
            },
            MemoryAction::Recall => MemoryActionView::Recall,
        }
    }
}

pub open spec fn is_ascii_alpha(c: char) -> bool {
    (97 <= c as u32 && c as u32 <= 122) || (65 <= c as u32 && c as u32 <= 90)
}

/// Structural validity of a project path: an absolute Unix path, or a
/// Windows path with a drive letter. Existence is not checked here.
pub open spec fn valid_project_path_spec(p: Seq<char>) -> bool {
    &&& p.len() > 0
    &&& (p[0] == '/' || (p.len() >= 3 && is_ascii_alpha(p[0]) && p[1] == ':' && (p[2] == '/'
        || p[2] == '\\')))
}

pub fn validate_project_path(path: &str) -> (ok: bool)
    ensures
        ok == valid_project_path_spec(path@),
{
    let n = path.unicode_len();
    if n == 0 {
        return false;
    }
    let c0 = path.get_char(0);
    if c0 == '/' {
        return true;
    }
    if n >= 3 {
        let c1 = path.get_char(1);
        let c2 = path.get_char(2);
        let x = c0 as u32;
        if ((97 <= x && x <= 122) || (65 <= x && x <= 90)) && c1 == ':' && (c2 == '/' || c2
            == '\\') {
            return true;
        }
    }
    false
}

/// The Unicode White_Space characters: exactly what `str::trim` removes.
pub open spec fn is_space_char(c: char) -> bool {
    let u = c as u32;
    ||| u == 0x09 || u == 0x0A || u == 0x0B || u == 0x0C || u == 0x0D || u == 0x20
    ||| u == 0x85 || u == 0xA0 || u == 0x1680
    ||| (0x2000 <= u && u <= 0x200A)
    ||| u == 0x2028 || u == 0x2029 || u == 0x202F || u == 0x205F || u == 0x3000
}

/// Only whitespace, or nothing at all: the content a trim leaves empty.
pub open spec fn is_blank(s: Seq<char>) -> bool {
    forall|i: int| 0 <= i < s.len() ==> is_space_char(#[trigger] s[i])
}

fn check_blank(s: &str) -> (b: bool)
    ensures
        b == is_blank(s@),
{
    let n = s.unicode_len();
    let mut i: usize = 0;
    while i < n
        invariant
            i <= n,
            n == s@.len(),
            forall|j: int| 0 <= j < i ==> is_space_char(#[trigger] s@[j]),
        decreases n - i,
    {
        let c = s.get_char(i);
        let u = c as u32;
        let ws = u == 0x09 || u == 0x0A || u == 0x0B || u == 0x0C || u == 0x0D || u == 0x20
            || u == 0x85 || u == 0xA0 || u == 0x1680 || (0x2000 <= u && u <= 0x200A) || u == 0x2028
            || u == 0x2029 || u == 0x202F || u == 0x205F || u == 0x3000;
        if !ws {
            return false;
        }
        i += 1;
    }
    true
}

/// What the memory tool decides for a typed request, before the memory
/// collaborator is touched: the action to run, or the exact refusal.
pub open spec fn jiyi_plan_spec(q: JiyiRequestView) -> Result<MemoryActionView, Seq<char>> {
    if !valid_project_path_spec(q.project_path) {
        Err(
            "大黄蜂无法定位作战基地: 无效的项目路径\n原始路径: "@ + q.project_path
                + "\n请检查路径格式是否正确，特别是 Windows 路径应使用正确的盘符格式（如 C:\\path）"@,
        )
    } else if q.action == "记忆"@ {
        if is_blank(q.content) {
            Err("大黄蜂需要情报内容才能存储！"@)
        } else {
            Ok(MemoryActionView::Store { content: q.content, category: category_of(q.category) })
        }
    } else if q.action == "回忆"@ {
        Ok(MemoryActionView::Recall)
    } else {
        Err("大黄蜂不理解这个指令: "@ + q.action)
    }
}

/// The memory capability: stores categorized notes for a project and
/// summarizes them, through the external memory collaborator.
pub struct MemoryTool;

impl MemoryTool {
    /// Validates the request and decides the memory action; every refusal is
    /// an invalid-parameters failure with the diagnostic the plan fixes.
    pub fn jiyi(request: &JiyiRequest) -> (r: Result<MemoryAction, McpError>)
        ensures
            match jiyi_plan_spec(request@) {
                Ok(p) => r matches Ok(a) && a@ == p,
                Err(m) => r matches Err(McpError::InvalidParams { message }) && message@ == m,
            },
    {
        if !validate_project_path(request.project_path.as_str()) {
            let mut message = String::from_str("大黄蜂无法定位作战基地: 无效的项目路径\n原始路径: ");
            message.append(request.project_path.as_str());
            message.append("\n请检查路径格式是否正确，特别是 Windows 路径应使用正确的盘符格式（如 C:\\path）");
            return Err(McpError::InvalidParams { message });
        }
        if str_eq(request.action.as_str(), "记忆") {
            if check_blank(request.content.as_str()) {
                return Err(
                    McpError::InvalidParams {
                        message: String::from_str("大黄蜂需要情报内容才能存储！"),
                    },
                );
            }
            let category = MemoryCategory::from_str(request.category.as_str());
            return Ok(MemoryAction::Store { content: request.content.clone(), category });
        }
        if str_eq(request.action.as_str(), "回忆") {
            return Ok(MemoryAction::Recall);
        }
        let mut message = String::from_str("大黄蜂不理解这个指令: ");
        message.append(request.action.as_str());
        Err(McpError::InvalidParams { message })
    }

    /// The report of a stored memory, built from the identifier the
    /// collaborator assigned.
    pub fn store_success_message(id: &str, content: &str, category: MemoryCategory) -> (m: String)
        ensures
            m@ == store_success_msg_spec(id@, content@, category),
    {
        let mut m = String::from_str("🚗 大黄蜂已存储情报！\n📋 情报ID: ");
        m.append(id);
        m.append("\n📝 内容: ");
        m.append(content);
        m.append("\n📂 分类: ");
        m.append(category.label());
        m
    }

    /// Folds the memory collaborator's outcome into the protocol shape.
    /// For a store, a success carries the stored-memory report; for a
    /// recall, the summary text itself. Either failure surfaces with the
    /// matching diagnostic prefix.
    pub fn jiyi_outcome(action: &MemoryAction, outcome: Result<String, String>) -> (r: Result<
        CallToolResult,
        McpError,
    >)
        ensures
            action matches MemoryAction::Store { content, category } ==> match outcome {
                Ok(id) => ({
                    &&& r matches Ok(res)
                    &&& !res.is_error
                    &&& res.content@.len() == 1
                    &&& res.content@[0] matches Content::Text(t)
                    &&& t@ == store_success_msg_spec(id@, content@, *category)
                }),
                Err(e) => r matches Err(McpError::CollaboratorFailure { message }) && message@
                    == "大黄蜂存储情报失败: "@ + e@,
            },
            action is Recall ==> match outcome {
                Ok(info) => ({
                    &&& r matches Ok(res)
                    &&& !res.is_error
                    &&& res.content@.len() == 1
                    &&& res.content@[0] matches Content::Text(t)
                    &&& t@ == info@
                }),
                Err(e) => r matches Err(McpError::CollaboratorFailure { message }) && message@
                    == "大黄蜂提取情报失败: "@ + e@,
            },
    {
        match action {
            MemoryAction::Store { content, category } => match outcome {
                Ok(id) => {
                    let text = Self::store_success_message(
                        id.as_str(),
                        content.as_str(),
                        *category,
                    );
                    let mut items: Vec<Content> = Vec::new();
                    items.push(Content::Text(text));
                    Ok(CallToolResult::success(items))
                },
                Err(e) => {
                    let mut message = String::from_str("大黄蜂存储情报失败: ");
                    message.append(e.as_str());
                    Err(McpError::CollaboratorFailure { message })
                },
            },
            MemoryAction::Recall => match outcome {
                Ok(info) => {
                    let mut items: Vec<Content> = Vec::new();
                    items.push(Content::Text(info));
                    Ok(CallToolResult::success(items))
                },
                Err(e) => {
                    let mut message = String::from_str("大黄蜂提取情报失败: ");
                    message.append(e.as_str());
                    Err(McpError::CollaboratorFailure { message })
                },
            },
        }
    }

    /// The diagnostic for a memory collaborator that could not be opened
    /// for the project.
    pub fn init_failure(e: &str) -> (r: McpError)
        ensures
            r matches McpError::CollaboratorFailure { message } && message@
                == "大黄蜂记忆系统初始化失败: "@ + e@,
    {
        let mut message = String::from_str("大黄蜂记忆系统初始化失败: ");
        message.append(e);
        McpError::CollaboratorFailure { message }
    }
}

pub open spec fn store_success_msg_spec(
    id: Seq<char>,
    content: Seq<char>,
    category: MemoryCategory,
) -> Seq<char> {
    "🚗 大黄蜂已存储情报！\n📋 情报ID: "@ + id + "\n📝 内容: "@ + content + "\n📂 分类: "@
        + category_label(category)
}

} // verus!
