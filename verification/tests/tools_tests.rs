use cunzhi::interaction::InteractionTool;
use cunzhi::memory::{validate_project_path, MemoryAction, MemoryCategory, MemoryTool};
use cunzhi::types::{Content, JiyiRequest, McpError, ZhiRequest};

fn jiyi_request(action: &str, path: &str, content: &str, category: &str) -> JiyiRequest {
    JiyiRequest {
        action: String::from(action),
        project_path: String::from(path),
        content: String::from(content),
        category: String::from(category),
    }
}

#[test]
fn popup_request_drops_empty_option_list() {
    let q = ZhiRequest {
        message: String::from("继续？"),
        predefined_options: Vec::new(),
        is_markdown: true,
    };
    let p = InteractionTool::zhi_popup_request(q, String::from("req-1"));
    assert_eq!(p.id, "req-1");
    assert_eq!(p.message, "继续？");
    assert!(p.predefined_options.is_none());
    assert!(p.is_markdown);
}

#[test]
fn popup_request_keeps_options() {
    let q = ZhiRequest {
        message: String::from("choose"),
        predefined_options: vec![String::from("a"), String::from("b")],
        is_markdown: false,
    };
    let p = InteractionTool::zhi_popup_request(q, String::from("req-2"));
    assert_eq!(p.predefined_options, Some(vec![String::from("a"), String::from("b")]));
    assert!(!p.is_markdown);
}

#[test]
fn interaction_outcome_is_wrapped() {
    let content = vec![Content::Text(String::from("ok")), Content::Image {
        data: String::from("abcd"),
        mime_type: String::from("image/png"),
    }];
    match InteractionTool::zhi(Ok(content)) {
        Ok(res) => {
            assert!(!res.is_error);
            assert_eq!(res.content.len(), 2);
            match &res.content[0] {
                Content::Text(t) => assert_eq!(t, "ok"),
                _ => panic!("the first response item must stay text"),
            }
        }
        _ => panic!("a collaborator response must become a successful result"),
    }
    match InteractionTool::zhi(Err(String::from("boom"))) {
        Err(McpError::CollaboratorFailure { message }) => {
            assert_eq!(message, "擎天柱通信链路故障: boom");
        }
        _ => panic!("a collaborator failure must surface as CollaboratorFailure"),
    }
}

#[test]
fn project_paths_must_be_absolute() {
    assert!(validate_project_path("/srv/project"));
    assert!(validate_project_path("/"));
    assert!(validate_project_path("C:\\work"));
    assert!(validate_project_path("d:/work"));
    assert!(!validate_project_path(""));
    assert!(!validate_project_path("relative/path"));
    assert!(!validate_project_path("1:\\work"));
    assert!(!validate_project_path("C:"));
}

#[test]
fn jiyi_rejects_bad_path() {
    let r = MemoryTool::jiyi(&jiyi_request("记忆", "not-absolute", "x", ""));
    match r {
        Err(McpError::InvalidParams { message }) => {
            assert_eq!(
                message,
                "大黄蜂无法定位作战基地: 无效的项目路径\n原始路径: not-absolute\n请检查路径格式是否正确，特别是 Windows 路径应使用正确的盘符格式（如 C:\\path）"
            );
        }
        _ => panic!("a relative path must fail with InvalidParams"),
    }
}

#[test]
fn jiyi_store_requires_content() {
    let r = MemoryTool::jiyi(&jiyi_request("记忆", "/srv/p", "  \t\n", "rule"));
    match r {
        Err(McpError::InvalidParams { message }) => {
            assert_eq!(message, "大黄蜂需要情报内容才能存储！");
        }
        _ => panic!("a blank content must fail with InvalidParams"),
    }
}

#[test]
fn jiyi_store_refuses_content_that_trims_to_empty() {
    // Unicode whitespace beyond space/tab/LF/CR: vertical tab, form feed,
    // NEL, NBSP, en quad, ideographic space, and a mix.
    for blank in [
        "\u{000B}",
        "\u{000C}",
        "\u{0085}",
        "\u{00A0}",
        "\u{2000}",
        "\u{3000}",
        " \u{2003}\t\u{202F}\r\n",
    ] {
        assert!(blank.trim().is_empty());
        match MemoryTool::jiyi(&jiyi_request("记忆", "/srv/p", blank, "")) {
            Err(McpError::InvalidParams { message }) => {
                assert_eq!(message, "大黄蜂需要情报内容才能存储！");
            }
            _ => panic!("content that trims to empty must fail with InvalidParams"),
        }
    }
    // A non-whitespace character anywhere makes the content storable.
    match MemoryTool::jiyi(&jiyi_request("记忆", "/srv/p", "\u{3000}x\u{3000}", "")) {
        Ok(MemoryAction::Store { content, .. }) => assert_eq!(content, "\u{3000}x\u{3000}"),
        _ => panic!("a store request with real content must become a store action"),
    }
}

#[test]
fn jiyi_store_classifies_categories() {
    for (given, expected) in [
        ("rule", MemoryCategory::Rule),
        ("preference", MemoryCategory::Preference),
        ("pattern", MemoryCategory::Pattern),
        ("context", MemoryCategory::Context),
        ("whatever", MemoryCategory::Context),
        ("", MemoryCategory::Context),
    ] {
        let r = MemoryTool::jiyi(&jiyi_request("记忆", "/srv/p", "note", given));
        match r {
            Ok(MemoryAction::Store { content, category }) => {
                assert_eq!(content, "note");
                assert_eq!(category, expected);
            }
            _ => panic!("a store request must become a store action"),
        }
    }
}

#[test]
fn jiyi_recall_and_unknown_action() {
    match MemoryTool::jiyi(&jiyi_request("回忆", "/srv/p", "", "")) {
        Ok(MemoryAction::Recall) => {}
        _ => panic!("a recall request must become a recall action"),
    }
    match MemoryTool::jiyi(&jiyi_request("forget", "/srv/p", "", "")) {
        Err(McpError::InvalidParams { message }) => {
            assert_eq!(message, "大黄蜂不理解这个指令: forget");
        }
        _ => panic!("an unsupported action must fail with InvalidParams"),
    }
}

#[test]
fn category_labels_and_parsing() {
    assert_eq!(MemoryCategory::from_str("rule"), MemoryCategory::Rule);
    assert_eq!(MemoryCategory::from_str("x"), MemoryCategory::Context);
    assert_eq!(MemoryCategory::Rule.label(), "Rule");
    assert_eq!(MemoryCategory::Preference.label(), "Preference");
    assert_eq!(MemoryCategory::Pattern.label(), "Pattern");
    assert_eq!(MemoryCategory::Context.label(), "Context");
}

#[test]
fn store_outcome_reports_the_memory() {
    let action = MemoryAction::Store {
        content: String::from("use tabs"),
        category: MemoryCategory::Rule,
    };
    match MemoryTool::jiyi_outcome(&action, Ok(String::from("id-7"))) {
        Ok(res) => {
            assert!(!res.is_error);
            assert_eq!(res.content.len(), 1);
            match &res.content[0] {
                Content::Text(t) => assert_eq!(
                    t,
                    "🚗 大黄蜂已存储情报！\n📋 情报ID: id-7\n📝 内容: use tabs\n📂 分类: Rule"
                ),
                _ => panic!("the store report must be text"),
            }
        }
        _ => panic!("a stored memory must produce a successful result"),
    }
    match MemoryTool::jiyi_outcome(&action, Err(String::from("db gone"))) {
        Err(McpError::CollaboratorFailure { message }) => {
            assert_eq!(message, "大黄蜂存储情报失败: db gone");
        }
        _ => panic!("a failed store must surface as CollaboratorFailure"),
    }
}

#[test]
fn recall_outcome_returns_the_summary() {
    match MemoryTool::jiyi_outcome(&MemoryAction::Recall, Ok(String::from("3 memories"))) {
        Ok(res) => match &res.content[0] {
            Content::Text(t) => assert_eq!(t, "3 memories"),
            _ => panic!("the summary must be text"),
        },
        _ => panic!("a recalled summary must produce a successful result"),
    }
    match MemoryTool::jiyi_outcome(&MemoryAction::Recall, Err(String::from("no index"))) {
        Err(McpError::CollaboratorFailure { message }) => {
            assert_eq!(message, "大黄蜂提取情报失败: no index");
        }
        _ => panic!("a failed recall must surface as CollaboratorFailure"),
    }
}

#[test]
fn init_failure_is_prefixed() {
    match MemoryTool::init_failure("locked") {
        McpError::CollaboratorFailure { message } => {
            assert_eq!(message, "大黄蜂记忆系统初始化失败: locked");
        }
        _ => panic!("an init failure must surface as CollaboratorFailure"),
    }
}

#[test]
fn error_messages_are_reachable() {
    let e = McpError::UnknownTool { message: String::from("m1") };
    assert_eq!(e.message().as_str(), "m1");
    let e = McpError::ToolDisabled { message: String::from("m2") };
    assert_eq!(e.message().as_str(), "m2");
}
