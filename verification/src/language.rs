//! The reply languages of a card.

use crate::text;
use vstd::prelude::*;

verus! {

/// The names of English.
pub open spec fn names_english(name: Seq<char>) -> bool {
    name == "en"@ || name == "en-US"@ || name == "English"@
}

/// The names of simplified Chinese.
pub open spec fn names_chinese(name: Seq<char>) -> bool {
    name == "zh"@ || name == "zh-CN"@ || name == "zh_CN"@ || name == "ChineseSimplified"@
}

/// The code of the language that `raw` names, white space around the name aside; nothing
/// where that is no language a card is written in.
pub open spec fn language_code_of(raw: Seq<char>) -> Option<Seq<char>> {
    let name = text::trimmed(raw);
    if names_english(name) {
        Some("en"@)
    } else if names_chinese(name) {
        Some("zh-CN"@)
    } else {
        None
    }
}

/// The code of the language that `raw` names, or `None` where a card is not written in it.
pub fn normalize_language_code(raw: &str) -> (code: Option<&'static str>)
    ensures
        code is Some <==> language_code_of(raw@) is Some,
        code matches Some(c) ==> language_code_of(raw@) == Some(c@),
{
    let name = text::trim(raw);
    if text::same_text(name, "en") || text::same_text(name, "en-US") || text::same_text(
        name,
        "English",
    ) {
        Some("en")
    } else if text::same_text(name, "zh") || text::same_text(name, "zh-CN") || text::same_text(
        name,
        "zh_CN",
    ) || text::same_text(name, "ChineseSimplified") {
        Some("zh-CN")
    } else {
        None
    }
}

/// No name is a name of both languages.
proof fn names_differ(name: Seq<char>)
    ensures
        !(names_english(name) && names_chinese(name)),
{
    reveal_strlit("en");
    reveal_strlit("en-US");
    reveal_strlit("English");
    reveal_strlit("zh");
    reveal_strlit("zh-CN");
    reveal_strlit("zh_CN");
    reveal_strlit("ChineseSimplified");
    assert("en"@[0] == 'e' && "en-US"@[0] == 'e' && "English"@[0] == 'E');
    assert("zh"@[0] == 'z' && "zh-CN"@[0] == 'z' && "zh_CN"@[0] == 'z');
    assert("ChineseSimplified"@[0] == 'C');
}

/// A language code that was found stands for itself: looking it up again gives it back.
pub proof fn language_codes_are_stable(raw: Seq<char>)
    ensures
        language_code_of(raw) matches Some(code) ==> language_code_of(code) == Some(code),
{
    reveal_strlit("en");
    reveal_strlit("zh-CN");
    names_differ("zh-CN"@);
    assert(text::trimmed("en"@) == "en"@);
    assert(text::trimmed("zh-CN"@) == "zh-CN"@);
}

/// White space around a language name, of any kind and length, does not matter.
pub proof fn language_names_may_be_padded(before: Seq<char>, raw: Seq<char>, after: Seq<char>)
    requires
        text::blank(before),
        text::blank(after),
    ensures
        language_code_of(before + raw + after) == language_code_of(raw),
{
    text::trimming_ignores_padding(before, raw, after);
}

} // verus!
