//! The language of the user-facing messages, and the messages themselves.

use vstd::prelude::*;

verus! {

/// The languages in which messages exist.
#[derive(Clone, Copy, Debug, PartialEq, Eq, Structural)]
pub enum Language {
    English,
    Chinese,
}

/// A locale value selects Chinese when it begins with `zh`, in either case.
pub open spec fn is_chinese_locale(value: Seq<char>) -> bool {
    &&& value.len() >= 2
    &&& (value[0] == 'z' || value[0] == 'Z')
    &&& (value[1] == 'h' || value[1] == 'H')
}

/// The language for a list of locale values: Chinese if any of them selects
/// it, English otherwise.
pub open spec fn detected_language(values: Seq<Seq<char>>) -> Language {
    if exists|i: int| 0 <= i < values.len() && is_chinese_locale(#[trigger] values[i]) {
        Language::Chinese
    } else {
        Language::English
    }
}

/// The escape sequence that switches a terminal to yellow.
pub open spec fn highlight_start() -> Seq<char> {
    "\x1b[33m"@
}

/// The escape sequence that switches a terminal back.
pub open spec fn highlight_end() -> Seq<char> {
    "\x1b[0m"@
}

/// The text between the two escape sequences.
pub open spec fn highlighted(text: Seq<char>) -> Seq<char> {
    highlight_start() + text + highlight_end()
}

/// The warning that both format flags were given.
pub open spec fn conflict_warning_text(lang: Language) -> Seq<char> {
    match lang {
        Language::English => "Warning: Both -f (full) and -s (simple) format flags specified."@,
        Language::Chinese => "警告：同时指定了 -f（完整）和 -s（简单）格式标志。"@,
    }
}

/// The notice that the full format is used.
pub open spec fn using_full_text(lang: Language) -> Seq<char> {
    match lang {
        Language::English => "Using -f (full format) based on argument order."@,
        Language::Chinese => "根据参数顺序使用 -f（完整格式）。"@,
    }
}

/// The notice that the simple format is used.
pub open spec fn using_simple_text(lang: Language) -> Seq<char> {
    match lang {
        Language::English => "Using -s (simple format) based on argument order."@,
        Language::Chinese => "根据参数顺序使用 -s（简单格式）。"@,
    }
}

/// What stands before the rejected text in the report of an invalid version.
pub open spec fn invalid_version_lead(lang: Language) -> Seq<char> {
    match lang {
        Language::English => "Invalid UUID version: "@,
        Language::Chinese => "无效的 UUID 版本："@,
    }
}

/// What stands behind the rejected text in the report of an invalid version.
pub open spec fn invalid_version_tail(lang: Language) -> Seq<char> {
    match lang {
        Language::English => ". Valid values: 4, 7"@,
        Language::Chinese => "。有效值：4、7"@,
    }
}

/// The report of an invalid version: the rejected text, as given, between
/// the lead and the tail of the language.
pub open spec fn invalid_version_text(lang: Language, version: Seq<char>) -> Seq<char> {
    invalid_version_lead(lang) + version + invalid_version_tail(lang)
}

/// The two lines of the conflict warning, each highlighted: the warning
/// itself, then the notice of the format that is used.
pub open spec fn conflict_notice_text(lang: Language, prefer_full: bool) -> (Seq<char>, Seq<char>) {
    (
        highlighted(conflict_warning_text(lang)),
        highlighted(
            if prefer_full {
                using_full_text(lang)
            } else {
                using_simple_text(lang)
            },
        ),
    )
}

fn selects_chinese(value: &str) -> (r: bool)
    ensures
        r == is_chinese_locale(value@),
{
    let n: usize = value.unicode_len();
    if n < 2 {
        false
    } else {
        let first = value.get_char(0);
        let second = value.get_char(1);
        (first == 'z' || first == 'Z') && (second == 'h' || second == 'H')
    }
}

fn highlight(text: &str) -> (r: String)
    ensures
        r@ == highlighted(text@),
{
    let mut line = String::from_str("\x1b[33m");
    line.append(text);
    line.append("\x1b[0m");
    line
}

impl Language {
    /// The environment variables that hold locale values, in the order in
    /// which they are consulted.
    pub fn locale_variables() -> (names: [&'static str; 3])
        ensures
            names@[0]@ == "LANG"@,
            names@[1]@ == "LC_ALL"@,
            names@[2]@ == "LC_MESSAGES"@,
    {
        ["LANG", "LC_ALL", "LC_MESSAGES"]
    }

    /// The language for the locale values that are set. With none set, or
    /// none that selects Chinese, it is English.
    pub fn detect(values: &Vec<String>) -> (lang: Language)
        ensures
            lang == detected_language(values.deep_view()),
    {
        let mut i: usize = 0;
        while i < values.len()
            invariant
                i <= values.len(),
                forall|k: int| 0 <= k < i ==> !is_chinese_locale(#[trigger] values.deep_view()[k]),
            decreases values.len() - i,
        {
            assert(values.deep_view()[i as int] == values[i as int]@);
            if selects_chinese(values[i].as_str()) {
                return Language::Chinese;
            }
            i += 1;
        }
        Language::English
    }
}

/// The messages of one language.
#[derive(Clone, Copy, Debug, PartialEq, Eq)]
pub struct Messages {
    lang: Language,
}

impl Messages {
    /// The language of these messages.
    pub closed spec fn language(&self) -> Language {
        self.lang
    }

    /// The messages of `lang`.
    pub fn new(lang: Language) -> (messages: Messages)
        ensures
            messages.language() == lang,
    {
        Messages { lang }
    }

    /// The warning that both format flags were given.
    pub fn conflict_warning(&self) -> (text: &'static str)
        ensures
            text@ == conflict_warning_text(self.language()),
    {
        match self.lang {
            Language::English => "Warning: Both -f (full) and -s (simple) format flags specified.",
            Language::Chinese => "警告：同时指定了 -f（完整）和 -s（简单）格式标志。",
        }
    }

    /// The notice that the full format is used.
    pub fn using_full(&self) -> (text: &'static str)
        ensures
            text@ == using_full_text(self.language()),
    {
        match self.lang {
            Language::English => "Using -f (full format) based on argument order.",
            Language::Chinese => "根据参数顺序使用 -f（完整格式）。",
        }
    }

    /// The notice that the simple format is used.
    pub fn using_simple(&self) -> (text: &'static str)
        ensures
            text@ == using_simple_text(self.language()),
    {
        match self.lang {
            Language::English => "Using -s (simple format) based on argument order.",
            Language::Chinese => "根据参数顺序使用 -s（简单格式）。",
        }
    }

    /// The report that `version` names no known version.
    pub fn invalid_version(&self, version: &str) -> (text: String)
        ensures
            text@ == invalid_version_text(self.language(), version@),
    {
        let (lead, tail) = match self.lang {
            Language::English => ("Invalid UUID version: ", ". Valid values: 4, 7"),
            Language::Chinese => ("无效的 UUID 版本：", "。有效值：4、7"),
        };
        let mut text = String::from_str(lead);
        text.append(version);
        text.append(tail);
        text
    }

    /// The two lines that warn of a conflict between the format flags, ready
    /// for the diagnostic stream: highlighted, and naming the format in use.
    pub fn conflict_notice(&self, prefer_full: bool) -> (lines: (String, String))
        ensures
            lines.0@ == conflict_notice_text(self.language(), prefer_full).0,
            lines.1@ == conflict_notice_text(self.language(), prefer_full).1,
    {
        let second = if prefer_full {
            self.using_full()
        } else {
            self.using_simple()
        };
        (highlight(self.conflict_warning()), highlight(second))
    }
}

} // verus!
