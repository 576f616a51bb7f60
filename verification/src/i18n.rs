//! The two interface languages and the table of interface strings.

use vstd::prelude::*;
use vstd::string::StringExecFns;
use crate::text::str_eq;

verus! {

/// An interface language.
#[derive(Debug, Clone, Copy, PartialEq, Eq, Structural)]
pub enum Language {
    Chinese,
    English,
}

impl Default for Language {
    /// Chinese is the language at start-up.
    fn default() -> (r: Self)
        ensures
            r == Language::Chinese,
    {
        Language::Chinese
    }
}

impl Language {
    /// The language's own name for itself.
    pub fn name(&self) -> (r: &'static str)
        ensures
            r@ == (match self {
                Language::Chinese => "中文"@,
                Language::English => "English"@,
            }),
    {
        match self {
            Language::Chinese => "中文",
            Language::English => "English",
        }
    }

    /// The language's two-letter code.
    pub fn code(&self) -> (r: &'static str)
        ensures
            r@ == (match self {
                Language::Chinese => "zh"@,
                Language::English => "en"@,
            }),
    {
        match self {
            Language::Chinese => "zh",
            Language::English => "en",
        }
    }
}

/// The key/value pairs of a string table.
pub open spec fn pairs_view(s: Seq<(String, String)>) -> Seq<(Seq<char>, Seq<char>)> {
    s.map_values(|p: (String, String)| (p.0@, p.1@))
}

/// First-match lookup in a key/value table.
pub open spec fn lookup(t: Seq<(Seq<char>, Seq<char>)>, k: Seq<char>) -> Option<Seq<char>>
    decreases t.len(),
{
    if t.len() == 0 {
        None
    } else if t[0].0 == k {
        Some(t[0].1)
    } else {
        lookup(t.drop_first(), k)
    }
}

/// The interface strings of one language, looked up by key.
#[derive(Debug)]
pub struct Translations {
    pub strings: Vec<(String, String)>,
}

impl View for Translations {
    type V = Seq<(Seq<char>, Seq<char>)>;

    open spec fn view(&self) -> Seq<(Seq<char>, Seq<char>)> {
        pairs_view(self.strings@)
    }
}

/// Appends one key/value pair to a table under construction.
fn put(t: &mut Vec<(String, String)>, k: &str, v: &str)
    ensures
        pairs_view(final(t)@) == pairs_view(old(t)@).push((k@, v@)),
{
    t.push((k.to_owned(), v.to_owned()));
    proof {
        assert(pairs_view(t@) =~= pairs_view(old(t)@).push((k@, v@)));
    }
}

/// The Chinese string table.
pub open spec fn table_zh() -> Seq<(Seq<char>, Seq<char>)> {
    seq![
        ("app_title"@, "✨ AI 聊天终端 v1.0"@),
        ("app_subtitle"@, "选择 AI 模型并开始智能对话"@),
        ("model_selector_title"@, "🎯 AI 模型 (← →)"@),
        ("theme_selector_title"@, "主题 (1-4)"@),
        ("theme_names"@, "(蓝色/绿色/橙色/霓虹)"@),
        ("input_hint_normal"@, "💬 按 'i' 开始输入，Enter 发送"@),
        ("input_hint_editing"@, "✏️ 编辑中 (按 Enter 发送，Esc 取消)"@),
        ("chat_empty"@, "还没有消息。开始对话吧！"@),
        ("language_selector"@, "语言 (C/E)"@),
        ("help_title"@, "📖 帮助 - AI 聊天终端"@),
        ("help_nav_title"@, "🎯 导航："@),
        ("help_edit_title"@, "✏️ 编辑模式："@),
        ("help_theme_title"@, "🌈 主题："@),
        ("help_tips_title"@, "💡 提示："@),
        ("help_nav_line1"@, "  ← →          切换 AI 模型"@),
        ("help_nav_line2"@, "  ↑ ↓          滚动聊天历史"@),
        ("help_nav_line3"@, "  PageUp/Down  快速滚动"@),
        ("help_nav_line4"@, "  Home/End     跳至顶部/底部"@),
        ("help_nav_line5"@, "  i            进入编辑模式"@),
        ("help_nav_line6"@, "  Enter        发送消息"@),
        ("help_nav_line7"@, "  Esc          取消/退出编辑模式"@),
        ("help_nav_line8"@, "  F1           显示/隐藏帮助"@),
        ("help_nav_line9"@, "  C/E          切换中英文"@),
        ("help_nav_line10"@, "  q            退出应用"@),
        ("help_edit_line1"@, "  输入消息后按 Enter 发送"@),
        ("help_edit_line2"@, "  Esc 取消编辑并清空输入"@),
        ("help_edit_line3"@, "  Delete 清空整行"@),
        ("help_edit_line4"@, "  Backspace 删除上一个字符"@),
        ("help_theme_line1"@, "  1 - 深蓝海洋"@),
        ("help_theme_line2"@, "  2 - 森林绿"@),
        ("help_theme_line3"@, "  3 - 日落橙"@),
        ("help_theme_line4"@, "  4 - 霓虹赛博"@),
        ("help_tips_line1"@, "  • 每个 AI 模型都有独特的响应风格"@),
        ("help_tips_line2"@, "  • 消息仅保存在内存中"@),
        ("help_tips_line3"@, "  • 切换主题改变界面氛围"@),
        ("help_tips_line4"@, "  • 按 C/E 键切换中英文界面"@),
        ("help_close_hint"@, "按任意键关闭帮助"@),
        ("notification_title"@, "💡 通知"@),
        ("notification_continue"@, "按任意键继续..."@),
        (
            "welcome_message"@,
            "欢迎使用 AI 聊天终端！使用左右键切换 AI 模型，输入消息后按 Enter 发送。按 F1 显示帮助，按 C/E 切换中英文。"@,
        ),
        ("notification_language_changed"@, "语言已切换为中文"@),
        ("notification_theme_changed"@, "主题已更改"@),
    ]
}

/// The English string table.
pub open spec fn table_en() -> Seq<(Seq<char>, Seq<char>)> {
    seq![
        ("app_title"@, "✨ AI Chat Terminal v1.0"@),
        ("app_subtitle"@, "Select AI Model and Start Intelligent Conversation"@),
        ("model_selector_title"@, "🎯 AI Models (← →)"@),
        ("theme_selector_title"@, "Themes (1-4)"@),
        ("theme_names"@, "(Blue/Green/Orange/Neon)"@),
        ("input_hint_normal"@, "💬 Type 'i' to start typing, then press Enter to send"@),
        ("input_hint_editing"@, "✏️ Editing (Press Enter to send, Esc to cancel)"@),
        ("chat_empty"@, "No messages yet. Start a conversation!"@),
        ("language_selector"@, "Language (C/E)"@),
        ("help_title"@, "📖 Help - AI Chat Terminal"@),
        ("help_nav_title"@, "🎯 Navigation:"@),
        ("help_edit_title"@, "✏️ Edit Mode:"@),
        ("help_theme_title"@, "🌈 Themes:"@),
        ("help_tips_title"@, "💡 Tips:"@),
        ("help_nav_line1"@, "  ← →          Switch AI Models"@),
        ("help_nav_line2"@, "  ↑ ↓          Scroll chat history"@),
        ("help_nav_line3"@, "  PageUp/Down  Fast scroll"@),
        ("help_nav_line4"@, "  Home/End     Jump to top/bottom"@),
        ("help_nav_line5"@, "  i            Enter edit mode"@),
        ("help_nav_line6"@, "  Enter        Send message"@),
        ("help_nav_line7"@, "  Esc          Cancel/Exit edit mode"@),
        ("help_nav_line8"@, "  F1           Show/Hide help"@),
        ("help_nav_line9"@, "  C/E          Switch Chinese/English"@),
        ("help_nav_line10"@, "  q            Quit application"@),
        ("help_edit_line1"@, "  Type your message and press Enter to send"@),
        ("help_edit_line2"@, "  Esc cancels editing and clears input"@),
        ("help_edit_line3"@, "  Delete clears the entire input line"@),
        ("help_edit_line4"@, "  Backspace deletes the last character"@),
        ("help_theme_line1"@, "  1 - Deep Blue Ocean"@),
        ("help_theme_line2"@, "  2 - Forest Green"@),
        ("help_theme_line3"@, "  3 - Sunset Orange"@),
        ("help_theme_line4"@, "  4 - Neon Cyber"@),
        ("help_tips_line1"@, "  • Each AI model has unique response style"@),
        ("help_tips_line2"@, "  • Messages are saved in memory only"@),
        ("help_tips_line3"@, "  • Switch themes to change the mood"@),
        ("help_tips_line4"@, "  • Press C/E to switch Chinese/English"@),
        ("help_close_hint"@, "Press any key to close help"@),
        ("notification_title"@, "💡 Notification"@),
        ("notification_continue"@, "Press any key to continue..."@),
        (
            "welcome_message"@,
            "Welcome to AI Chat Terminal! Use left/right arrows to switch AI models, press Enter to send messages. Press F1 for help, C/E to switch languages."@,
        ),
        ("notification_language_changed"@, "Language changed to English"@),
        ("notification_theme_changed"@, "Theme changed"@),
    ]
}

/// The table that belongs to a language.
pub open spec fn table_of(lang: Language) -> Seq<(Seq<char>, Seq<char>)> {
    match lang {
        Language::Chinese => table_zh(),
        Language::English => table_en(),
    }
}

impl Translations {
    /// The string table of the given language, complete.
    pub fn new(lang: Language) -> (r: Self)
        ensures
            r@ == table_of(lang),
    {
        match lang {
            Language::Chinese => Self::chinese(),
            Language::English => Self::english(),
        }
    }

    fn chinese() -> (r: Self)
        ensures
            r@ == table_zh(),
    {
        let mut t: Vec<(String, String)> = Vec::new();
        put(&mut t, "app_title", "✨ AI 聊天终端 v1.0");
        put(&mut t, "app_subtitle", "选择 AI 模型并开始智能对话");
        put(&mut t, "model_selector_title", "🎯 AI 模型 (← →)");
        put(&mut t, "theme_selector_title", "主题 (1-4)");
        put(&mut t, "theme_names", "(蓝色/绿色/橙色/霓虹)");
        put(&mut t, "input_hint_normal", "💬 按 'i' 开始输入，Enter 发送");
        put(&mut t, "input_hint_editing", "✏️ 编辑中 (按 Enter 发送，Esc 取消)");
        put(&mut t, "chat_empty", "还没有消息。开始对话吧！");
        put(&mut t, "language_selector", "语言 (C/E)");
        put(&mut t, "help_title", "📖 帮助 - AI 聊天终端");
        put(&mut t, "help_nav_title", "🎯 导航：");
        put(&mut t, "help_edit_title", "✏️ 编辑模式：");
        put(&mut t, "help_theme_title", "🌈 主题：");
        put(&mut t, "help_tips_title", "💡 提示：");
        put(&mut t, "help_nav_line1", "  ← →          切换 AI 模型");
        put(&mut t, "help_nav_line2", "  ↑ ↓          滚动聊天历史");
        put(&mut t, "help_nav_line3", "  PageUp/Down  快速滚动");
        put(&mut t, "help_nav_line4", "  Home/End     跳至顶部/底部");
        put(&mut t, "help_nav_line5", "  i            进入编辑模式");
        put(&mut t, "help_nav_line6", "  Enter        发送消息");
        put(&mut t, "help_nav_line7", "  Esc          取消/退出编辑模式");
        put(&mut t, "help_nav_line8", "  F1           显示/隐藏帮助");
        put(&mut t, "help_nav_line9", "  C/E          切换中英文");
        put(&mut t, "help_nav_line10", "  q            退出应用");
        put(&mut t, "help_edit_line1", "  输入消息后按 Enter 发送");
        put(&mut t, "help_edit_line2", "  Esc 取消编辑并清空输入");
        put(&mut t, "help_edit_line3", "  Delete 清空整行");
        put(&mut t, "help_edit_line4", "  Backspace 删除上一个字符");
        put(&mut t, "help_theme_line1", "  1 - 深蓝海洋");
        put(&mut t, "help_theme_line2", "  2 - 森林绿");
        put(&mut t, "help_theme_line3", "  3 - 日落橙");
        put(&mut t, "help_theme_line4", "  4 - 霓虹赛博");
        put(&mut t, "help_tips_line1", "  • 每个 AI 模型都有独特的响应风格");
        put(&mut t, "help_tips_line2", "  • 消息仅保存在内存中");
        put(&mut t, "help_tips_line3", "  • 切换主题改变界面氛围");
        put(&mut t, "help_tips_line4", "  • 按 C/E 键切换中英文界面");
        put(&mut t, "help_close_hint", "按任意键关闭帮助");
        put(&mut t, "notification_title", "💡 通知");
        put(&mut t, "notification_continue", "按任意键继续...");
        put(
            &mut t,
            "welcome_message",
            "欢迎使用 AI 聊天终端！使用左右键切换 AI 模型，输入消息后按 Enter 发送。按 F1 显示帮助，按 C/E 切换中英文。",
        );
        put(&mut t, "notification_language_changed", "语言已切换为中文");
        put(&mut t, "notification_theme_changed", "主题已更改");
        let r = Translations { strings: t };
        proof {
            assert(r@ =~= table_zh());
        }
        r
    }

    fn english() -> (r: Self)
        ensures
            r@ == table_en(),
    {
        let mut t: Vec<(String, String)> = Vec::new();
        put(&mut t, "app_title", "✨ AI Chat Terminal v1.0");
        put(&mut t, "app_subtitle", "Select AI Model and Start Intelligent Conversation");
        put(&mut t, "model_selector_title", "🎯 AI Models (← →)");
        put(&mut t, "theme_selector_title", "Themes (1-4)");
        put(&mut t, "theme_names", "(Blue/Green/Orange/Neon)");
        put(&mut t, "input_hint_normal", "💬 Type 'i' to start typing, then press Enter to send");
        put(&mut t, "input_hint_editing", "✏️ Editing (Press Enter to send, Esc to cancel)");
        put(&mut t, "chat_empty", "No messages yet. Start a conversation!");
        put(&mut t, "language_selector", "Language (C/E)");
        put(&mut t, "help_title", "📖 Help - AI Chat Terminal");
        put(&mut t, "help_nav_title", "🎯 Navigation:");
        put(&mut t, "help_edit_title", "✏️ Edit Mode:");
        put(&mut t, "help_theme_title", "🌈 Themes:");
        put(&mut t, "help_tips_title", "💡 Tips:");
        put(&mut t, "help_nav_line1", "  ← →          Switch AI Models");
        put(&mut t, "help_nav_line2", "  ↑ ↓          Scroll chat history");
        put(&mut t, "help_nav_line3", "  PageUp/Down  Fast scroll");
        put(&mut t, "help_nav_line4", "  Home/End     Jump to top/bottom");
        put(&mut t, "help_nav_line5", "  i            Enter edit mode");
        put(&mut t, "help_nav_line6", "  Enter        Send message");
        put(&mut t, "help_nav_line7", "  Esc          Cancel/Exit edit mode");
        put(&mut t, "help_nav_line8", "  F1           Show/Hide help");
        put(&mut t, "help_nav_line9", "  C/E          Switch Chinese/English");
        put(&mut t, "help_nav_line10", "  q            Quit application");
        put(&mut t, "help_edit_line1", "  Type your message and press Enter to send");
        put(&mut t, "help_edit_line2", "  Esc cancels editing and clears input");
        put(&mut t, "help_edit_line3", "  Delete clears the entire input line");
        put(&mut t, "help_edit_line4", "  Backspace deletes the last character");
        put(&mut t, "help_theme_line1", "  1 - Deep Blue Ocean");
        put(&mut t, "help_theme_line2", "  2 - Forest Green");
        put(&mut t, "help_theme_line3", "  3 - Sunset Orange");
        put(&mut t, "help_theme_line4", "  4 - Neon Cyber");
        put(&mut t, "help_tips_line1", "  • Each AI model has unique response style");
        put(&mut t, "help_tips_line2", "  • Messages are saved in memory only");
        put(&mut t, "help_tips_line3", "  • Switch themes to change the mood");
        put(&mut t, "help_tips_line4", "  • Press C/E to switch Chinese/English");
        put(&mut t, "help_close_hint", "Press any key to close help");
        put(&mut t, "notification_title", "💡 Notification");
        put(&mut t, "notification_continue", "Press any key to continue...");
        put(
            &mut t,
            "welcome_message",
            "Welcome to AI Chat Terminal! Use left/right arrows to switch AI models, press Enter to send messages. Press F1 for help, C/E to switch languages.",
        );
        put(&mut t, "notification_language_changed", "Language changed to English");
        put(&mut t, "notification_theme_changed", "Theme changed");
        let r = Translations { strings: t };
        proof {
            assert(r@ =~= table_en());
        }
        r
    }

    /// Looks a key up; an unknown key is answered with a visible
    /// marker around the key itself rather than a failure.
    pub fn get(&self, key: &str) -> (r: String)
        ensures
            r@ == (match lookup(self@, key@) {
                Some(v) => v,
                None => "[MISSING: "@ + key@ + "]"@,
            }),
    {
        let n = self.strings.len();
        let mut i: usize = 0;
        proof {
            assert(self@.skip(0) =~= self@);
        }
        while i < n
            invariant
                i <= n,
                n == self.strings@.len(),
                lookup(self@, key@) == lookup(self@.skip(i as int), key@),
            decreases n - i,
        {
            let p = &self.strings[i];
            proof {
                assert(self@.skip(i as int).len() > 0);
                assert(self@.skip(i as int)[0] == self@[i as int]);
                assert(self@[i as int] == (p.0@, p.1@));
            }
            if str_eq(p.0.as_str(), key) {
                return p.1.clone();
            }
            proof {
                assert(self@.skip(i as int).drop_first() =~= self@.skip(i + 1 as int));
            }
            i += 1;
        }
        proof {
            assert(self@.skip(n as int) =~= Seq::<(Seq<char>, Seq<char>)>::empty());
        }
        let mut s = "[MISSING: ".to_owned();
        s.append(key);
        s.append("]");
        s
    }
}

} // verus!
