//! The display languages offered in the settings.

use vstd::prelude::*;
use vstd::string::*;

verus! {

/// A display language: its code and the label shown for it.
#[derive(Clone, Debug)]
pub struct LanguageInfo {
    pub code: String,
    pub label: String,
}

/// The offered languages as (code, label) pairs, in the order shown.
pub open spec fn supported_languages() -> Seq<(Seq<char>, Seq<char>)> {
    seq![
        ("zh-CN"@, "中文 (简体)"@),
        ("zh-TW"@, "中文 (繁體)"@),
        ("en"@, "English"@),
        ("ja"@, "日本語"@),
        ("ko"@, "한국어"@),
    ]
}

fn language(code: &str, label: &str) -> (l: LanguageInfo)
    ensures
        l.code@ == code@,
        l.label@ == label@,
{
    LanguageInfo { code: String::from_str(code), label: String::from_str(label) }
}

/// The languages the settings offer.
pub fn get_supported_languages() -> (v: Vec<LanguageInfo>)
    ensures
        v@.len() == supported_languages().len(),
        forall|i: int|
            0 <= i < v@.len() ==> (#[trigger] v@[i]).code@ == supported_languages()[i].0
                && v@[i].label@ == supported_languages()[i].1,
{
    let mut v: Vec<LanguageInfo> = Vec::new();
    v.push(language("zh-CN", "中文 (简体)"));
    v.push(language("zh-TW", "中文 (繁體)"));
    v.push(language("en", "English"));
    v.push(language("ja", "日本語"));
    v.push(language("ko", "한국어"));
    v
}

} // verus!
