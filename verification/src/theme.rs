use vstd::prelude::*;

use crate::text::{contains_seq, lemma_replace_absent, replace_spec, replace_str, str_eq};

verus! {

/// Identity and presentation of one protocol tool, as the active theme
/// defines it.
pub struct ToolTheme {
    pub id: String,
    pub display_name: String,
    pub description: String,
    pub icon: String,
    pub icon_bg: String,
}

pub ghost struct ToolThemeView {
    pub id: Seq<char>,
    pub display_name: Seq<char>,
    pub description: Seq<char>,
    pub icon: Seq<char>,
    pub icon_bg: Seq<char>,
}

impl View for ToolTheme {
    type V = ToolThemeView;

    open spec fn view(&self) -> ToolThemeView {
        ToolThemeView {
            id: self.id@,
            display_name: self.display_name@,
            description: self.description@,
            icon: self.icon@,
            icon_bg: self.icon_bg@,
        }
    }
}

impl ToolTheme {
    pub fn new(id: &str, display_name: &str, description: &str, icon: &str, icon_bg: &str) -> (t:
        Self)
        ensures
            t@ == (ToolThemeView {
                id: id@,
                display_name: display_name@,
                description: description@,
                icon: icon@,
                icon_bg: icon_bg@,
            }),
    {
        ToolTheme {
            id: String::from_str(id),
            display_name: String::from_str(display_name),
            description: String::from_str(description),
            icon: String::from_str(icon),
            icon_bg: String::from_str(icon_bg),
        }
    }
}

/// The named message templates of a theme; `tool_disabled_msg`,
/// `param_parse_error_msg` and `unknown_tool_msg` may hold the placeholders
/// `{tool}` and `{error}`.
pub struct MessageTheme {
    pub server_name: String,
    pub server_intro: String,
    pub continue_prompt: String,
    pub tool_disabled_msg: String,
    pub leader_cannot_disable_msg: String,
    pub param_parse_error_msg: String,
    pub unknown_tool_msg: String,
}

pub ghost struct MessageThemeView {
    pub server_name: Seq<char>,
    pub server_intro: Seq<char>,
    pub continue_prompt: Seq<char>,
    pub tool_disabled_msg: Seq<char>,
    pub leader_cannot_disable_msg: Seq<char>,
    pub param_parse_error_msg: Seq<char>,
    pub unknown_tool_msg: Seq<char>,
}

impl View for MessageTheme {
    type V = MessageThemeView;

    open spec fn view(&self) -> MessageThemeView {
        MessageThemeView {
            server_name: self.server_name@,
            server_intro: self.server_intro@,
            continue_prompt: self.continue_prompt@,
            tool_disabled_msg: self.tool_disabled_msg@,
            leader_cannot_disable_msg: self.leader_cannot_disable_msg@,
            param_parse_error_msg: self.param_parse_error_msg@,
            unknown_tool_msg: self.unknown_tool_msg@,
        }
    }
}

impl MessageTheme {
    pub fn new(
        server_name: &str,
        server_intro: &str,
        continue_prompt: &str,
        tool_disabled_msg: &str,
        leader_cannot_disable_msg: &str,
        param_parse_error_msg: &str,
        unknown_tool_msg: &str,
    ) -> (m: Self)
        ensures
            m@ == (MessageThemeView {
                server_name: server_name@,
                server_intro: server_intro@,
                continue_prompt: continue_prompt@,
                tool_disabled_msg: tool_disabled_msg@,
                leader_cannot_disable_msg: leader_cannot_disable_msg@,
                param_parse_error_msg: param_parse_error_msg@,
                unknown_tool_msg: unknown_tool_msg@,
            }),
    {
        MessageTheme {
            server_name: String::from_str(server_name),
            server_intro: String::from_str(server_intro),
            continue_prompt: String::from_str(continue_prompt),
            tool_disabled_msg: String::from_str(tool_disabled_msg),
            leader_cannot_disable_msg: String::from_str(leader_cannot_disable_msg),
            param_parse_error_msg: String::from_str(param_parse_error_msg),
            unknown_tool_msg: String::from_str(unknown_tool_msg),
        }
    }
}

/// A complete theme: one identity per role plus the message templates.
/// A theme is selected wholesale and never merged with another.
pub struct McpTheme {
    pub name: String,
    pub description: String,
    pub tool_interaction: ToolTheme,
    pub tool_memory: ToolTheme,
    pub tool_search: ToolTheme,
    pub messages: MessageTheme,
}

pub ghost struct McpThemeView {
    pub name: Seq<char>,
    pub description: Seq<char>,
    pub tool_interaction: ToolThemeView,
    pub tool_memory: ToolThemeView,
    pub tool_search: ToolThemeView,
    pub messages: MessageThemeView,
}

impl View for McpTheme {
    type V = McpThemeView;

    open spec fn view(&self) -> McpThemeView {
        McpThemeView {
            name: self.name@,
            description: self.description@,
            tool_interaction: self.tool_interaction@,
            tool_memory: self.tool_memory@,
            tool_search: self.tool_search@,
            messages: self.messages@,
        }
    }
}

impl McpThemeView {
    /// Role identifiers are unique within a theme.
    pub open spec fn wf(self) -> bool {
        &&& self.tool_interaction.id != self.tool_memory.id
        &&& self.tool_interaction.id != self.tool_search.id
        &&& self.tool_memory.id != self.tool_search.id
    }
}

pub open spec fn transformers_spec() -> McpThemeView {
    McpThemeView {
        name: "transformers"@,
        description: "变形金刚主题 - 赛博坦军团"@,
        tool_interaction: ToolThemeView {
            id: "optimus"@,
            display_name: "擎天柱"@,
            description: "🚛 汽车人领袖！负责与人类盟友建立通信链路，支持战术选项、自由指令输入和图像情报上传"@,
            icon: "i-carbon-chat text-lg text-blue-600 dark:text-blue-400"@,
            icon_bg: "bg-blue-100 dark:bg-blue-900"@,
        },
        tool_memory: ToolThemeView {
            id: "bumblebee"@,
            display_name: "大黄蜂"@,
            description: "🚗 忠诚的记忆守护者！负责存储和管理重要的作战规范、盟友偏好和最佳战术"@,
            icon: "i-carbon-data-base text-lg text-yellow-600 dark:text-yellow-400"@,
            icon_bg: "bg-yellow-100 dark:bg-yellow-900"@,
        },
        tool_search: ToolThemeView {
            id: "megatron"@,
            display_name: "威震天"@,
            description: "🔫 强大的代码搜索引擎！掌控全局的霸主，支持语义搜索和增量索引"@,
            icon: "i-carbon-search text-lg text-purple-600 dark:text-purple-400"@,
            icon_bg: "bg-purple-100 dark:bg-purple-900"@,
        },
        messages: MessageThemeView {
            server_name: "Cybertron-MCP"@,
            server_intro: "🤖 赛博坦军团 - 变形金刚代码战队！擎天柱领衔，大黄蜂守护记忆，威震天掌控搜索。汽车人，变形出发！"@,
            continue_prompt: "汽车人，变形出发！继续执行任务"@,
            tool_disabled_msg: "{tool}正在休眠中，请先激活！"@,
            leader_cannot_disable_msg: "擎天柱是汽车人领袖，永不退场！"@,
            param_parse_error_msg: "{tool}无法解析指令: {error}"@,
            unknown_tool_msg: "未知的战士: {tool}，不属于赛博坦军团！"@,
        },
    }
}

pub open spec fn classic_spec() -> McpThemeView {
    McpThemeView {
        name: "classic"@,
        description: "经典主题 - 原版寸止风格"@,
        tool_interaction: ToolThemeView {
            id: "zhi"@,
            display_name: "寸止"@,
            description: "智能代码审查交互工具，支持预定义选项、自由文本输入和图片上传"@,
            icon: "i-carbon-chat text-lg text-blue-600 dark:text-blue-400"@,
            icon_bg: "bg-blue-100 dark:bg-blue-900"@,
        },
        tool_memory: ToolThemeView {
            id: "ji"@,
            display_name: "记忆管理"@,
            description: "全局记忆管理工具，用于存储和管理重要的开发规范、用户偏好和最佳实践"@,
            icon: "i-carbon-data-base text-lg text-purple-600 dark:text-purple-400"@,
            icon_bg: "bg-green-100 dark:bg-green-900"@,
        },
        tool_search: ToolThemeView {
            id: "sou"@,
            display_name: "代码搜索"@,
            description: "基于查询在特定项目中搜索相关的代码上下文，支持语义搜索和增量索引"@,
            icon: "i-carbon-search text-lg text-green-600 dark:text-green-400"@,
            icon_bg: "bg-green-100 dark:bg-green-900"@,
        },
        messages: MessageThemeView {
            server_name: "Zhi-mcp"@,
            server_intro: "Zhi 智能代码审查工具，支持交互式对话和记忆管理"@,
            continue_prompt: "请按照最佳实践继续"@,
            tool_disabled_msg: "{tool}工具已被禁用"@,
            leader_cannot_disable_msg: "寸止工具是必需的，无法禁用"@,
            param_parse_error_msg: "参数解析失败: {error}"@,
            unknown_tool_msg: "未知的工具: {tool}"@,
        },
    }
}

pub open spec fn one_piece_spec() -> McpThemeView {
    McpThemeView {
        name: "one_piece"@,
        description: "海贼王主题 - 草帽海贼团"@,
        tool_interaction: ToolThemeView {
            id: "luffy"@,
            display_name: "路飞"@,
            description: "🏴‍☠️ 草帽海贼团船长！负责与伙伴们沟通，支持战斗选项、自由对话和图像情报"@,
            icon: "i-carbon-chat text-lg text-red-600 dark:text-red-400"@,
            icon_bg: "bg-red-100 dark:bg-red-900"@,
        },
        tool_memory: ToolThemeView {
            id: "robin"@,
            display_name: "罗宾"@,
            description: "📚 考古学家！负责记录和管理重要的历史文本、航海日志和冒险记忆"@,
            icon: "i-carbon-data-base text-lg text-purple-600 dark:text-purple-400"@,
            icon_bg: "bg-purple-100 dark:bg-purple-900"@,
        },
        tool_search: ToolThemeView {
            id: "nami"@,
            display_name: "娜美"@,
            description: "🗺️ 航海士！精准定位代码宝藏，支持语义搜索和智能导航"@,
            icon: "i-carbon-search text-lg text-orange-600 dark:text-orange-400"@,
            icon_bg: "bg-orange-100 dark:bg-orange-900"@,
        },
        messages: MessageThemeView {
            server_name: "StrawHat-MCP"@,
            server_intro: "🏴‍☠️ 草帽海贼团代码冒险！路飞领航，罗宾守护记忆，娜美掌控搜索。出发，去找 One Piece！"@,
            continue_prompt: "我要成为代码之王！继续冒险"@,
            tool_disabled_msg: "{tool}正在休息中，请先叫醒！"@,
            leader_cannot_disable_msg: "路飞是船长，不能下船！"@,
            param_parse_error_msg: "{tool}看不懂这个指令: {error}"@,
            unknown_tool_msg: "这个人不是我们的伙伴: {tool}"@,
        },
    }
}

pub open spec fn naruto_spec() -> McpThemeView {
    McpThemeView {
        name: "naruto"@,
        description: "火影忍者主题 - 木叶忍者"@,
        tool_interaction: ToolThemeView {
            id: "naruto"@,
            display_name: "鸣人"@,
            description: "🍥 七代目火影！负责与忍者们沟通，支持忍术选项、自由对话和影像情报"@,
            icon: "i-carbon-chat text-lg text-orange-600 dark:text-orange-400"@,
            icon_bg: "bg-orange-100 dark:bg-orange-900"@,
        },
        tool_memory: ToolThemeView {
            id: "shikamaru"@,
            display_name: "鹿丸"@,
            description: "🧠 天才军师！负责记录和管理重要的战术情报、任务记录和忍术心得"@,
            icon: "i-carbon-data-base text-lg text-green-600 dark:text-green-400"@,
            icon_bg: "bg-green-100 dark:bg-green-900"@,
        },
        tool_search: ToolThemeView {
            id: "sasuke"@,
            display_name: "佐助"@,
            description: "👁️ 写轮眼使者！精准洞察代码真相，支持语义搜索和深度分析"@,
            icon: "i-carbon-search text-lg text-indigo-600 dark:text-indigo-400"@,
            icon_bg: "bg-indigo-100 dark:bg-indigo-900"@,
        },
        messages: MessageThemeView {
            server_name: "Konoha-MCP"@,
            server_intro: "🍃 木叶忍者代码任务！鸣人领队，鹿丸守护情报，佐助掌控搜索。这就是我的忍道！"@,
            continue_prompt: "我绝不会放弃！继续执行任务"@,
            tool_disabled_msg: "{tool}正在修炼中，请先召唤！"@,
            leader_cannot_disable_msg: "鸣人是火影，不能退缩！"@,
            param_parse_error_msg: "{tool}无法理解这个忍术: {error}"@,
            unknown_tool_msg: "这个忍者不属于木叶: {tool}"@,
        },
    }
}

/// Each built-in theme keeps its three role identifiers distinct.
pub proof fn lemma_builtin_themes_wf()
    ensures
        transformers_spec().wf(),
        classic_spec().wf(),
        one_piece_spec().wf(),
        naruto_spec().wf(),
{
    reveal_strlit("optimus");
    reveal_strlit("bumblebee");
    reveal_strlit("megatron");
    reveal_strlit("zhi");
    reveal_strlit("ji");
    reveal_strlit("sou");
    reveal_strlit("luffy");
    reveal_strlit("robin");
    reveal_strlit("nami");
    reveal_strlit("naruto");
    reveal_strlit("shikamaru");
    reveal_strlit("sasuke");
    assert("optimus"@.len() == 7);
    assert("bumblebee"@.len() == 9);
    assert("megatron"@.len() == 8);
    assert("zhi"@[0] != "sou"@[0]);
    assert("luffy"@[0] != "robin"@[0]);
    assert("naruto"@[0] != "sasuke"@[0]);
    assert("naruto"@.len() == 6);
    assert("shikamaru"@.len() == 9);
}

/// The theme a name selects: the three named built-ins, any other name
/// falling back to the default.
pub open spec fn from_name_spec(name: Seq<char>) -> McpThemeView {
    if name == "classic"@ {
        classic_spec()
    } else if name == "one_piece"@ {
        one_piece_spec()
    } else if name == "naruto"@ {
        naruto_spec()
    } else {
        transformers_spec()
    }
}

impl Default for McpTheme {
    fn default() -> (r: Self)
        ensures
            r@ == transformers_spec(),
            r@.wf(),
    {
        McpTheme::transformers()
    }
}

impl McpTheme {
    pub fn transformers() -> (r: Self)
        ensures
            r@ == transformers_spec(),
            r@.wf(),
    {
        proof {
            lemma_builtin_themes_wf();
        }
        McpTheme {
            name: String::from_str("transformers"),
            description: String::from_str("变形金刚主题 - 赛博坦军团"),
            tool_interaction: ToolTheme::new(
                "optimus",
                "擎天柱",
                "🚛 汽车人领袖！负责与人类盟友建立通信链路，支持战术选项、自由指令输入和图像情报上传",
                "i-carbon-chat text-lg text-blue-600 dark:text-blue-400",
                "bg-blue-100 dark:bg-blue-900",
            ),
            tool_memory: ToolTheme::new(
                "bumblebee",
                "大黄蜂",
                "🚗 忠诚的记忆守护者！负责存储和管理重要的作战规范、盟友偏好和最佳战术",
                "i-carbon-data-base text-lg text-yellow-600 dark:text-yellow-400",
                "bg-yellow-100 dark:bg-yellow-900",
            ),
            tool_search: ToolTheme::new(
                "megatron",
                "威震天",
                "🔫 强大的代码搜索引擎！掌控全局的霸主，支持语义搜索和增量索引",
                "i-carbon-search text-lg text-purple-600 dark:text-purple-400",
                "bg-purple-100 dark:bg-purple-900",
            ),
            messages: MessageTheme::new(
                "Cybertron-MCP",
                "🤖 赛博坦军团 - 变形金刚代码战队！擎天柱领衔，大黄蜂守护记忆，威震天掌控搜索。汽车人，变形出发！",
                "汽车人，变形出发！继续执行任务",
                "{tool}正在休眠中，请先激活！",
                "擎天柱是汽车人领袖，永不退场！",
                "{tool}无法解析指令: {error}",
                "未知的战士: {tool}，不属于赛博坦军团！",
            ),
        }
    }

    pub fn classic() -> (r: Self)
        ensures
            r@ == classic_spec(),
            r@.wf(),
    {
        proof {
            lemma_builtin_themes_wf();
        }
        McpTheme {
            name: String::from_str("classic"),
            description: String::from_str("经典主题 - 原版寸止风格"),
            tool_interaction: ToolTheme::new(
                "zhi",
                "寸止",
                "智能代码审查交互工具，支持预定义选项、自由文本输入和图片上传",
                "i-carbon-chat text-lg text-blue-600 dark:text-blue-400",
                "bg-blue-100 dark:bg-blue-900",
            ),
            tool_memory: ToolTheme::new(
                "ji",
                "记忆管理",
                "全局记忆管理工具，用于存储和管理重要的开发规范、用户偏好和最佳实践",
                "i-carbon-data-base text-lg text-purple-600 dark:text-purple-400",
                "bg-green-100 dark:bg-green-900",
            ),
            tool_search: ToolTheme::new(
                "sou",
                "代码搜索",
                "基于查询在特定项目中搜索相关的代码上下文，支持语义搜索和增量索引",
                "i-carbon-search text-lg text-green-600 dark:text-green-400",
                "bg-green-100 dark:bg-green-900",
            ),
            messages: MessageTheme::new(
                "Zhi-mcp",
                "Zhi 智能代码审查工具，支持交互式对话和记忆管理",
                "请按照最佳实践继续",
                "{tool}工具已被禁用",
                "寸止工具是必需的，无法禁用",
                "参数解析失败: {error}",
                "未知的工具: {tool}",
            ),
        }
    }

    pub fn one_piece() -> (r: Self)
        ensures
            r@ == one_piece_spec(),
            r@.wf(),
    {
        proof {
            lemma_builtin_themes_wf();
        }
        McpTheme {
            name: String::from_str("one_piece"),
            description: String::from_str("海贼王主题 - 草帽海贼团"),
            tool_interaction: ToolTheme::new(
                "luffy",
                "路飞",
                "🏴‍☠️ 草帽海贼团船长！负责与伙伴们沟通，支持战斗选项、自由对话和图像情报",
                "i-carbon-chat text-lg text-red-600 dark:text-red-400",
                "bg-red-100 dark:bg-red-900",
            ),
            tool_memory: ToolTheme::new(
                "robin",
                "罗宾",
                "📚 考古学家！负责记录和管理重要的历史文本、航海日志和冒险记忆",
                "i-carbon-data-base text-lg text-purple-600 dark:text-purple-400",
                "bg-purple-100 dark:bg-purple-900",
            ),
            tool_search: ToolTheme::new(
                "nami",
                "娜美",
                "🗺️ 航海士！精准定位代码宝藏，支持语义搜索和智能导航",
                "i-carbon-search text-lg text-orange-600 dark:text-orange-400",
                "bg-orange-100 dark:bg-orange-900",
            ),
            messages: MessageTheme::new(
                "StrawHat-MCP",
                "🏴‍☠️ 草帽海贼团代码冒险！路飞领航，罗宾守护记忆，娜美掌控搜索。出发，去找 One Piece！",
                "我要成为代码之王！继续冒险",
                "{tool}正在休息中，请先叫醒！",
                "路飞是船长，不能下船！",
                "{tool}看不懂这个指令: {error}",
                "这个人不是我们的伙伴: {tool}",
            ),
        }
    }

    pub fn naruto() -> (r: Self)
        ensures
            r@ == naruto_spec(),
            r@.wf(),
    {
        proof {
            lemma_builtin_themes_wf();
        }
        McpTheme {
            name: String::from_str("naruto"),
            description: String::from_str("火影忍者主题 - 木叶忍者"),
            tool_interaction: ToolTheme::new(
                "naruto",
                "鸣人",
                "🍥 七代目火影！负责与忍者们沟通，支持忍术选项、自由对话和影像情报",
                "i-carbon-chat text-lg text-orange-600 dark:text-orange-400",
                "bg-orange-100 dark:bg-orange-900",
            ),
            tool_memory: ToolTheme::new(
                "shikamaru",
                "鹿丸",
                "🧠 天才军师！负责记录和管理重要的战术情报、任务记录和忍术心得",
                "i-carbon-data-base text-lg text-green-600 dark:text-green-400",
                "bg-green-100 dark:bg-green-900",
            ),
            tool_search: ToolTheme::new(
                "sasuke",
                "佐助",
                "👁️ 写轮眼使者！精准洞察代码真相，支持语义搜索和深度分析",
                "i-carbon-search text-lg text-indigo-600 dark:text-indigo-400",
                "bg-indigo-100 dark:bg-indigo-900",
            ),
            messages: MessageTheme::new(
                "Konoha-MCP",
                "🍃 木叶忍者代码任务！鸣人领队，鹿丸守护情报，佐助掌控搜索。这就是我的忍道！",
                "我绝不会放弃！继续执行任务",
                "{tool}正在修炼中，请先召唤！",
                "鸣人是火影，不能退缩！",
                "{tool}无法理解这个忍术: {error}",
                "这个忍者不属于木叶: {tool}",
            ),
        }
    }

    /// Selects a built-in theme by name; any unrecognized name falls back
    /// to the default theme.
    pub fn from_name(name: &str) -> (r: Self)
        ensures
            r@ == from_name_spec(name@),
            r@.wf(),
    {
        if str_eq(name, "classic") {
            Self::classic()
        } else if str_eq(name, "one_piece") {
            Self::one_piece()
        } else if str_eq(name, "naruto") {
            Self::naruto()
        } else {
            Self::transformers()
        }
    }

    /// The names and short descriptions of the built-in themes.
    pub fn available_themes() -> (r: Vec<(&'static str, &'static str)>)
        ensures
            r@.len() == 4,
            r@[0].0@ == "transformers"@,
            r@[0].1@ == "变形金刚 - 赛博坦军团"@,
            r@[1].0@ == "classic"@,
            r@[1].1@ == "经典 - 原版寸止风格"@,
            r@[2].0@ == "one_piece"@,
            r@[2].1@ == "海贼王 - 草帽海贼团"@,
            r@[3].0@ == "naruto"@,
            r@[3].1@ == "火影忍者 - 木叶忍者"@,
    {
        let mut v: Vec<(&'static str, &'static str)> = Vec::new();
        v.push(("transformers", "变形金刚 - 赛博坦军团"));
        v.push(("classic", "经典 - 原版寸止风格"));
        v.push(("one_piece", "海贼王 - 草帽海贼团"));
        v.push(("naruto", "火影忍者 - 木叶忍者"));
        v
    }

    /// Fills a message template: every `{tool}` is replaced by `tool` first;
    /// then, only when an error text is supplied, every `{error}` is replaced
    /// by it. Without an error text the `{error}` placeholders stay as they
    /// are.
    pub fn format_msg(&self, template: &str, tool: &str, error: Option<&str>) -> (r: String)
        ensures
            r@ == format_msg_spec(template@, tool@, opt_str_view(error)),
    {
        proof {
            reveal_strlit("{tool}");
            reveal_strlit("{error}");
        }
        let tooled = replace_str(template, "{tool}", tool);
        match error {
            Some(e) => replace_str(tooled.as_str(), "{error}", e),
            None => tooled,
        }
    }
}

pub open spec fn opt_str_view(o: Option<&str>) -> Option<Seq<char>> {
    match o {
        Some(s) => Some(s@),
        None => None,
    }
}

/// What `format_msg` computes: tool substitution first, error substitution
/// second and only when an error text is present.
pub open spec fn format_msg_spec(
    template: Seq<char>,
    tool: Seq<char>,
    error: Option<Seq<char>>,
) -> Seq<char> {
    let tooled = replace_spec(template, "{tool}"@, tool);
    match error {
        Some(e) => replace_spec(tooled, "{error}"@, e),
        None => tooled,
    }
}

/// Substitution order is fixed: the tool text goes in first, and the error
/// text afterwards, only when one is supplied; without one the template gets
/// the tool substitution alone, so its `{error}` placeholders are not
/// rewritten.
pub proof fn lemma_format_msg_order(template: Seq<char>, tool: Seq<char>, e: Seq<char>)
    ensures
        format_msg_spec(template, tool, Some(e)) == replace_spec(
            replace_spec(template, "{tool}"@, tool),
            "{error}"@,
            e,
        ),
        format_msg_spec(template, tool, None) == replace_spec(template, "{tool}"@, tool),
{
}

/// A template in which `{tool}` does not occur comes back verbatim when no
/// error text is supplied: in particular, every `{error}` placeholder in it
/// stays exactly where it was.
pub proof fn lemma_format_msg_none_keeps_template(template: Seq<char>, tool: Seq<char>)
    requires
        !contains_seq(template, "{tool}"@),
    ensures
        format_msg_spec(template, tool, None) == template,
{
    reveal_strlit("{tool}");
    lemma_replace_absent(template, "{tool}"@, tool);
}

/// Resolves the active theme from what the resolution chain found: a theme
/// file already decoded wins; otherwise a theme name from the environment
/// picks a built-in; otherwise the default theme stands.
pub open spec fn get_theme_spec(
    file_theme: Option<McpThemeView>,
    env_name: Option<Seq<char>>,
) -> McpThemeView {
    match file_theme {
        Some(t) => t,
        None => match env_name {
            Some(n) => from_name_spec(n),
            None => transformers_spec(),
        },
    }
}

/// The pure step of theme resolution. Reading the theme file and the
/// environment happens outside; this function fixes which candidate wins.
pub fn get_theme(file_theme: Option<McpTheme>, env_name: Option<&str>) -> (r: McpTheme)
    ensures
        r@ == get_theme_spec(
            match file_theme {
                Some(t) => Some(t@),
                None => None,
            },
            opt_str_view(env_name),
        ),
        file_theme is None ==> r@.wf(),
{
    match file_theme {
        Some(t) => t,
        None => match env_name {
            Some(n) => McpTheme::from_name(n),
            None => McpTheme::transformers(),
        },
    }
}

} // verus!
