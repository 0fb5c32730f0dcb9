use vstd::prelude::*;

use crate::assoc::assoc_lookup;

verus! {

/// An untyped argument value as the caller supplied it. Structured caller
/// input is brought to this shape before the typed decoding below runs:
/// a list of strings keeps its items, any other list is `MixedList`, and
/// every value of a kind no schema of this server asks for is `Other`.
pub enum ArgValue {
    Null,
    Flag(bool),
    Text(String),
    TextList(Vec<String>),
    MixedList,
    Other,
}

/// The untyped argument object of one invocation: field name to value,
/// first binding of a name winning.
pub struct ToolArgs {
    entries: Vec<(String, ArgValue)>,
}

impl View for ToolArgs {
    type V = Seq<(String, ArgValue)>;

    closed spec fn view(&self) -> Seq<(String, ArgValue)> {
        self.entries@
    }
}

impl ToolArgs {
    pub fn new() -> (r: Self)
        ensures
            r@.len() == 0,
    {
        ToolArgs { entries: Vec::new() }
    }

    pub fn push(&mut self, key: String, value: ArgValue)
        ensures
            final(self)@ == old(self)@.push((key, value)),
    {
        self.entries.push((key, value));
    }

    /// The supplied bindings, for a caller that forwards them verbatim.
    pub fn entries(&self) -> (r: &Vec<(String, ArgValue)>)
        ensures
            r@ == self@,
    {
        &self.entries
    }

    pub fn get(&self, key: &str) -> (r: Option<&ArgValue>)
        ensures
            match r {
                Some(v) => assoc_lookup(self@, key@) == Some(*v),
                None => assoc_lookup(self@, key@) is None,
            },
    {
        let n = self.entries.len();
        let mut i: usize = 0;
        while i < n
            invariant
                i <= n,
                n == self@.len(),
                forall|j: int| 0 <= j < i ==> (#[trigger] self@[j]).0@ != key@,
            decreases n - i,
        {
            if crate::text::str_eq(self.entries[i].0.as_str(), key) {
                proof {
                    crate::assoc::lemma_assoc_lookup_found(self@, key@, i as int);
                }
                return Some(&self.entries[i].1);
            }
            i += 1;
        }
        proof {
            crate::assoc::lemma_assoc_lookup_none(self@, key@);
        }
        None
    }
}

fn clone_string_vec(v: &Vec<String>) -> (r: Vec<String>)
    ensures
        r@ == v@,
{
    let mut r: Vec<String> = Vec::new();
    let n = v.len();
    let mut i: usize = 0;
    while i < n
        invariant
            i <= n,
            n == v@.len(),
            r@ =~= v@.subrange(0, i as int),
        decreases n - i,
    {
        r.push(v[i].clone());
        proof {
            assert(r@ =~= v@.subrange(0, i + 1));
        }
        i += 1;
    }
    proof {
        assert(r@ =~= v@);
    }
    r
}

/// The typed request of the interaction tool.
pub struct ZhiRequest {
    pub message: String,
    pub predefined_options: Vec<String>,
    pub is_markdown: bool,
}

pub ghost struct ZhiRequestView {
    pub message: Seq<char>,
    pub predefined_options: Seq<Seq<char>>,
    pub is_markdown: bool,
}

impl View for ZhiRequest {
    type V = ZhiRequestView;

    open spec fn view(&self) -> ZhiRequestView {
        ZhiRequestView {
            message: self.message@,
            predefined_options: self.predefined_options@.map_values(|s: String| s@),
            is_markdown: self.is_markdown,
        }
    }
}

/// The typed request of the memory tool.
pub struct JiyiRequest {
    pub action: String,
    pub project_path: String,
    pub content: String,
    pub category: String,
}

pub ghost struct JiyiRequestView {
    pub action: Seq<char>,
    pub project_path: Seq<char>,
    pub content: Seq<char>,
    pub category: Seq<char>,
}

impl View for JiyiRequest {
    type V = JiyiRequestView;

    open spec fn view(&self) -> JiyiRequestView {
        JiyiRequestView {
            action: self.action@,
            project_path: self.project_path@,
            content: self.content@,
            category: self.category@,
        }
    }
}

/// Decoding is strict: a missing required field or a field of the wrong
/// shape fails with a diagnostic; a record is never partially populated.
/// An optional field that is absent takes its default; one that is present
/// with the wrong shape (`null` included) is a failure.
pub open spec fn decode_required_text(
    args: Seq<(String, ArgValue)>,
    key: Seq<char>,
    missing: Seq<char>,
    invalid: Seq<char>,
) -> Result<Seq<char>, Seq<char>> {
    match assoc_lookup(args, key) {
        Option::None => Err(missing),
        Option::Some(v) => match v {
            ArgValue::Text(s) => Ok(s@),
            _ => Err(invalid),
        },
    }
}

pub open spec fn decode_optional_text(
    args: Seq<(String, ArgValue)>,
    key: Seq<char>,
    invalid: Seq<char>,
) -> Result<Seq<char>, Seq<char>> {
    match assoc_lookup(args, key) {
        Option::None => Ok(Seq::<char>::empty()),
        Option::Some(v) => match v {
            ArgValue::Text(s) => Ok(s@),
            _ => Err(invalid),
        },
    }
}

pub open spec fn zhi_decode_spec(args: Seq<(String, ArgValue)>) -> Result<
    ZhiRequestView,
    Seq<char>,
> {
    match decode_required_text(
        args,
        "message"@,
        "missing field `message`"@,
        "invalid field `message`"@,
    ) {
        Err(e) => Err(e),
        Ok(message) => match assoc_lookup(args, "predefined_options"@) {
            Option::Some(v) => match v {
                ArgValue::TextList(items) => match assoc_lookup(args, "is_markdown"@) {
                    Option::Some(w) => match w {
                        ArgValue::Flag(b) => Ok(
                            ZhiRequestView {
                                message,
                                predefined_options: items@.map_values(|s: String| s@),
                                is_markdown: b,
                            },
                        ),
                        _ => Err("invalid field `is_markdown`"@),
                    },
                    Option::None => Ok(
                        ZhiRequestView {
                            message,
                            predefined_options: items@.map_values(|s: String| s@),
                            is_markdown: true,
                        },
                    ),
                },
                _ => Err("invalid field `predefined_options`"@),
            },
            Option::None => match assoc_lookup(args, "is_markdown"@) {
                Option::Some(w) => match w {
                    ArgValue::Flag(b) => Ok(
                        ZhiRequestView {
                            message,
                            predefined_options: Seq::<Seq<char>>::empty(),
                            is_markdown: b,
                        },
                    ),
                    _ => Err("invalid field `is_markdown`"@),
                },
                Option::None => Ok(
                    ZhiRequestView {
                        message,
                        predefined_options: Seq::<Seq<char>>::empty(),
                        is_markdown: true,
                    },
                ),
            },
        },
    }
}

pub open spec fn jiyi_decode_spec(args: Seq<(String, ArgValue)>) -> Result<
    JiyiRequestView,
    Seq<char>,
> {
    match decode_required_text(
        args,
        "action"@,
        "missing field `action`"@,
        "invalid field `action`"@,
    ) {
        Err(e) => Err(e),
        Ok(action) => match decode_required_text(
            args,
            "project_path"@,
            "missing field `project_path`"@,
            "invalid field `project_path`"@,
        ) {
            Err(e) => Err(e),
            Ok(project_path) => match decode_optional_text(
                args,
                "content"@,
                "invalid field `content`"@,
            ) {
                Err(e) => Err(e),
                Ok(content) => match decode_optional_text(
                    args,
                    "category"@,
                    "invalid field `category`"@,
                ) {
                    Err(e) => Err(e),
                    Ok(category) => Ok(JiyiRequestView { action, project_path, content, category }),
                },
            },
        },
    }
}

impl ZhiRequest {
    /// Strict decoding of the interaction tool's arguments.
    pub fn from_args(args: &ToolArgs) -> (r: Result<ZhiRequest, String>)
        ensures
            match r {
                Ok(q) => zhi_decode_spec(args@) matches Ok(v) && q@ == v,
                Err(e) => zhi_decode_spec(args@) matches Err(m) && e@ == m,
            },
    {
        let message: String = match args.get("message") {
            None => {
                return Err(String::from_str("missing field `message`"));
            },
            Some(v) => match v {
                ArgValue::Text(s) => s.clone(),
                _ => {
                    return Err(String::from_str("invalid field `message`"));
                },
            },
        };
        let predefined_options: Vec<String> = match args.get("predefined_options") {
            None => {
                let empty: Vec<String> = Vec::new();
                proof {
                    assert(empty@.map_values(|s: String| s@) =~= Seq::<Seq<char>>::empty());
                }
                empty
            },
            Some(v) => match v {
                ArgValue::TextList(items) => clone_string_vec(items),
                _ => {
                    return Err(String::from_str("invalid field `predefined_options`"));
                },
            },
        };
        let is_markdown: bool = match args.get("is_markdown") {
            None => true,
            Some(v) => match v {
                ArgValue::Flag(b) => *b,
                _ => {
                    return Err(String::from_str("invalid field `is_markdown`"));
                },
            },
        };
        Ok(ZhiRequest { message, predefined_options, is_markdown })
    }
}

impl JiyiRequest {
    /// Strict decoding of the memory tool's arguments.
    pub fn from_args(args: &ToolArgs) -> (r: Result<JiyiRequest, String>)
        ensures
            match r {
                Ok(q) => jiyi_decode_spec(args@) matches Ok(v) && q@ == v,
                Err(e) => jiyi_decode_spec(args@) matches Err(m) && e@ == m,
            },
    {
        let action: String = match args.get("action") {
            None => {
                return Err(String::from_str("missing field `action`"));
            },
            Some(v) => match v {
                ArgValue::Text(s) => s.clone(),
                _ => {
                    return Err(String::from_str("invalid field `action`"));
                },
            },
        };
        let project_path: String = match args.get("project_path") {
            None => {
                return Err(String::from_str("missing field `project_path`"));
            },
            Some(v) => match v {
                ArgValue::Text(s) => s.clone(),
                _ => {
                    return Err(String::from_str("invalid field `project_path`"));
                },
            },
        };
        let content: String = match args.get("content") {
            None => String::new(),
            Some(v) => match v {
                ArgValue::Text(s) => s.clone(),
                _ => {
                    return Err(String::from_str("invalid field `content`"));
                },
            },
        };
        let category: String = match args.get("category") {
            None => String::new(),
            Some(v) => match v {
                ArgValue::Text(s) => s.clone(),
                _ => {
                    return Err(String::from_str("invalid field `category`"));
                },
            },
        };
        Ok(JiyiRequest { action, project_path, content, category })
    }
}

/// One item of a protocol response: text, or attached image data.
pub enum Content {
    Text(String),
    Image { data: String, mime_type: String },
}

/// A successful tool invocation's protocol payload.
pub struct CallToolResult {
    pub content: Vec<Content>,
    pub is_error: bool,
}

impl CallToolResult {
    pub fn success(content: Vec<Content>) -> (r: Self)
        ensures
            r.content@ == content@,
            r.is_error == false,
    {
        CallToolResult { content, is_error: false }
    }
}

/// A protocol-level failure, carrying its themed, human-readable message.
pub enum McpError {
    UnknownTool { message: String },
    ToolDisabled { message: String },
    InvalidParams { message: String },
    CollaboratorFailure { message: String },
}

impl McpError {
    pub fn message(&self) -> (m: &String)
        ensures
            self matches McpError::UnknownTool { message } ==> m == message,
            self matches McpError::ToolDisabled { message } ==> m == message,
            self matches McpError::InvalidParams { message } ==> m == message,
            self matches McpError::CollaboratorFailure { message } ==> m == message,
    {
        match self {
            McpError::UnknownTool { message } => message,
            McpError::ToolDisabled { message } => message,
            McpError::InvalidParams { message } => message,
            McpError::CollaboratorFailure { message } => message,
        }
    }
}

} // verus!
