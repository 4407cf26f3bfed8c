//! Conversion between the variants of written Chinese.

use crate::text::same_text;
use ferrous_opencc::config::BuiltinConfig;
use ferrous_opencc::OpenCC;
use vstd::prelude::*;
use vstd::string::*;

verus! {

/// A variant of written Chinese.
#[derive(Clone, Copy, Debug, PartialEq, Eq, Structural)]
pub enum ChineseVariant {
    Simplified,
    Traditional,
}

/// The variant that a language asks for.
pub open spec fn variant_for(language: Seq<char>) -> Option<ChineseVariant> {
    if language == "zh-Hans"@ {
        Some(ChineseVariant::Simplified)
    } else if language == "zh-Hant"@ {
        Some(ChineseVariant::Traditional)
    } else {
        None
    }
}

/// The configurations of OpenCC that are used, under its own names for them.
#[derive(Clone, Copy, Debug, PartialEq, Eq, Structural)]
pub enum OpenccConfig {
    Tw2sp,
    S2twp,
}

/// The configuration that writes a variant.
pub open spec fn config_of(variant: ChineseVariant) -> OpenccConfig {
    match variant {
        ChineseVariant::Simplified => OpenccConfig::Tw2sp,
        ChineseVariant::Traditional => OpenccConfig::S2twp,
    }
}

/// What OpenCC makes of a text with a configuration; nothing where it cannot be loaded.
pub uninterp spec fn opencc_text(config: OpenccConfig, text: Seq<char>) -> Option<Seq<char>>;

/// The text in the variant that the language asks for. A language that asks for none, or a
/// converter that cannot be loaded, leaves it as it is.
pub open spec fn converted(text: Seq<char>, language: Seq<char>) -> Seq<char> {
    match variant_for(language) {
        Some(v) => kept_or_converted(text, opencc_text(config_of(v), text)),
        None => text,
    }
}

/// The converter's text, or else the text itself.
pub open spec fn kept_or_converted(text: Seq<char>, result: Option<Seq<char>>) -> Seq<char> {
    match result {
        Some(t) => t,
        None => text,
    }
}

/// Calls `OpenCC::from_config` and, where it succeeds, `OpenCC::convert`. Configurations and
/// dictionaries are built into the crate, so the result is a function of the arguments.
#[verifier::external_body]
fn opencc_convert(config: OpenccConfig, text: &str) -> (r: Option<String>)
    ensures
        match r {
            Some(t) => opencc_text(config, text@) == Some(t@),
            None => opencc_text(config, text@) is None,
        },
{
    let config = match config {
        OpenccConfig::Tw2sp => BuiltinConfig::Tw2sp,
        OpenccConfig::S2twp => BuiltinConfig::S2twp,
    };
    OpenCC::from_config(config).ok().map(|converter| converter.convert(text))
}

fn opencc_config(variant: ChineseVariant) -> (r: OpenccConfig)
    ensures
        r == config_of(variant),
{
    match variant {
        ChineseVariant::Simplified => OpenccConfig::Tw2sp,
        ChineseVariant::Traditional => OpenccConfig::S2twp,
    }
}

/// The variant that a language asks for.
pub fn chinese_variant(language: &str) -> (r: Option<ChineseVariant>)
    ensures
        r == variant_for(language@),
{
    if same_text(language, "zh-Hans") {
        Some(ChineseVariant::Simplified)
    } else if same_text(language, "zh-Hant") {
        Some(ChineseVariant::Traditional)
    } else {
        None
    }
}

/// The converter's text, or else the text itself.
pub fn converted_or_kept(text: &str, result: Option<String>) -> (r: String)
    ensures
        r@ == kept_or_converted(
            text@,
            match result {
                Some(t) => Some(t@),
                None => None,
            },
        ),
{
    match result {
        Some(t) => t,
        None => text.to_owned(),
    }
}

/// Converts a text to the variant of Chinese that the language asks for.
///
/// The engines mostly write simplified Chinese: for `zh-Hans` the text is normalised, for
/// `zh-Hant` it is converted with phrase adjustments.
pub fn convert_chinese_variant(text: &str, language: &str) -> (r: String)
    ensures
        r@ == converted(text@, language@),
{
    match chinese_variant(language) {
        Some(variant) => converted_or_kept(text, opencc_convert(opencc_config(variant), text)),
        None => text.to_owned(),
    }
}

/// Only a text in one of the two variants of written Chinese is converted, each with its own
/// configuration; any other text stays as it is, and so does one that the converter cannot handle.
pub proof fn law_only_chinese_is_converted(t: Seq<char>, language: Seq<char>)
    ensures
        language != "zh-Hans"@ && language != "zh-Hant"@ ==> converted(t, language) == t,
        opencc_text(OpenccConfig::Tw2sp, t) matches Some(c) ==> converted(t, "zh-Hans"@) == c,
        opencc_text(OpenccConfig::S2twp, t) matches Some(c) ==> converted(t, "zh-Hant"@) == c,
        opencc_text(OpenccConfig::Tw2sp, t) is None ==> converted(t, "zh-Hans"@) == t,
        opencc_text(OpenccConfig::S2twp, t) is None ==> converted(t, "zh-Hant"@) == t,
{
    reveal_strlit("zh-Hans");
    reveal_strlit("zh-Hant");
    assert("zh-Hans"@[6] != "zh-Hant"@[6]);
}

} // verus!
