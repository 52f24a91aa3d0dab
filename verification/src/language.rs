//! The languages in which the service can answer.

use vstd::prelude::*;
use crate::tag::Tagged;

verus! {

/// A language of the reply, sent as its language code.
#[derive(Clone, Copy, Debug, PartialEq, Eq, Hash, Structural)]
pub enum Language {
    /// Arabic, `ar`.
    Arabic,
    /// Bulgarian, `bg`.
    Bulgarian,
    /// Bengali, `bn`.
    Bengali,
    /// Catalan, `ca`.
    Catalan,
    /// Czech, `cs`.
    Czech,
    /// Danish, `da`.
    Danish,
    /// German, `de`.
    German,
    /// Greek, `el`.
    Greek,
    /// English, `en`.
    English,
    /// English Australian, `en-AU`.
    EnglishAustralian,
    /// English Great Britain, `en-GB`.
    EnglishGreatBritain,
    /// Spanish, `es`.
    Spanish,
    /// Basque, `eu`.
    Basque,
    /// Farsi, `fa`.
    Farsi,
    /// Finnish, `fi`.
    Finnish,
    /// Filipino, `fil`.
    Filipino,
    /// French, `fr`.
    French,
    /// Galician, `gl`.
    Galician,
    /// Gujarati, `gu`.
    Gujarati,
    /// Hindi, `hi`.
    Hindi,
    /// Croatian, `hr`.
    Croatian,
    /// Hungarian, `hu`.
    Hungarian,
    /// Indonesian, `id`.
    Indonesian,
    /// Italian, `it`.
    Italian,
    /// Hebrew, `iw`.
    Hebrew,
    /// Japanese, `ja`.
    Japanese,
    /// Kannada, `kn`.
    Kannada,
    /// Korean, `ko`.
    Korean,
    /// Lithuanian, `lt`.
    Lithuanian,
    /// Latvian, `lv`.
    Latvian,
    /// Malayalam, `ml`.
    Malayalam,
    /// Marathi, `mr`.
    Marathi,
    /// Dutch, `nl`.
    Dutch,
    /// Norwegian, `no`.
    Norwegian,
    /// Polish, `pl`.
    Polish,
    /// Portuguese, `pt`.
    Portuguese,
    /// Portuguese Brazil, `pt-BR`.
    PortugueseBrazil,
    /// Portuguese Portugal, `pt-PT`.
    PortuguesePortugal,
    /// Romanian, `ro`.
    Romanian,
    /// Russian, `ru`.
    Russian,
    /// Slovak, `sk`.
    Slovak,
    /// Slovenian, `sl`.
    Slovenian,
    /// Serbian, `sr`.
    Serbian,
    /// Swedish, `sv`.
    Swedish,
    /// Tamil, `ta`.
    Tamil,
    /// Telugu, `te`.
    Telugu,
    /// Thai, `th`.
    Thai,
    /// Tagalog, `tl`.
    Tagalog,
    /// Turkish, `tr`.
    Turkish,
    /// Ukrainian, `uk`.
    Ukrainian,
    /// Vietnamese, `vi`.
    Vietnamese,
    /// Chinese Simplified, `zh-CN`.
    ChineseSimplified,
    /// Chinese Traditional, `zh-TW`.
    ChineseTraditional,
}

impl Tagged for Language {
    open spec fn label(&self) -> Seq<char> {
        match self {
            Language::Arabic => "ar"@,
            Language::Bulgarian => "bg"@,
            Language::Bengali => "bn"@,
            Language::Catalan => "ca"@,
            Language::Czech => "cs"@,
            Language::Danish => "da"@,
            Language::German => "de"@,
            Language::Greek => "el"@,
            Language::English => "en"@,
            Language::EnglishAustralian => "en-AU"@,
            Language::EnglishGreatBritain => "en-GB"@,
            Language::Spanish => "es"@,
            Language::Basque => "eu"@,
            Language::Farsi => "fa"@,
            Language::Finnish => "fi"@,
            Language::Filipino => "fil"@,
            Language::French => "fr"@,
            Language::Galician => "gl"@,
            Language::Gujarati => "gu"@,
            Language::Hindi => "hi"@,
            Language::Croatian => "hr"@,
            Language::Hungarian => "hu"@,
            Language::Indonesian => "id"@,
            Language::Italian => "it"@,
            Language::Hebrew => "iw"@,
            Language::Japanese => "ja"@,
            Language::Kannada => "kn"@,
            Language::Korean => "ko"@,
            Language::Lithuanian => "lt"@,
            Language::Latvian => "lv"@,
            Language::Malayalam => "ml"@,
            Language::Marathi => "mr"@,
            Language::Dutch => "nl"@,
            Language::Norwegian => "no"@,
            Language::Polish => "pl"@,
            Language::Portuguese => "pt"@,
            Language::PortugueseBrazil => "pt-BR"@,
            Language::PortuguesePortugal => "pt-PT"@,
            Language::Romanian => "ro"@,
            Language::Russian => "ru"@,
            Language::Slovak => "sk"@,
            Language::Slovenian => "sl"@,
            Language::Serbian => "sr"@,
            Language::Swedish => "sv"@,
            Language::Tamil => "ta"@,
            Language::Telugu => "te"@,
            Language::Thai => "th"@,
            Language::Tagalog => "tl"@,
            Language::Turkish => "tr"@,
            Language::Ukrainian => "uk"@,
            Language::Vietnamese => "vi"@,
            Language::ChineseSimplified => "zh-CN"@,
            Language::ChineseTraditional => "zh-TW"@,
        }
    }

    fn variant_name(&self) -> (name: &'static str) {
        match self {
            Language::Arabic => "ar",
            Language::Bulgarian => "bg",
            Language::Bengali => "bn",
            Language::Catalan => "ca",
            Language::Czech => "cs",
            Language::Danish => "da",
            Language::German => "de",
            Language::Greek => "el",
            Language::English => "en",
            Language::EnglishAustralian => "en-AU",
            Language::EnglishGreatBritain => "en-GB",
            Language::Spanish => "es",
            Language::Basque => "eu",
            Language::Farsi => "fa",
            Language::Finnish => "fi",
            Language::Filipino => "fil",
            Language::French => "fr",
            Language::Galician => "gl",
            Language::Gujarati => "gu",
            Language::Hindi => "hi",
            Language::Croatian => "hr",
            Language::Hungarian => "hu",
            Language::Indonesian => "id",
            Language::Italian => "it",
            Language::Hebrew => "iw",
            Language::Japanese => "ja",
            Language::Kannada => "kn",
            Language::Korean => "ko",
            Language::Lithuanian => "lt",
            Language::Latvian => "lv",
            Language::Malayalam => "ml",
            Language::Marathi => "mr",
            Language::Dutch => "nl",
            Language::Norwegian => "no",
            Language::Polish => "pl",
            Language::Portuguese => "pt",
            Language::PortugueseBrazil => "pt-BR",
            Language::PortuguesePortugal => "pt-PT",
            Language::Romanian => "ro",
            Language::Russian => "ru",
            Language::Slovak => "sk",
            Language::Slovenian => "sl",
            Language::Serbian => "sr",
            Language::Swedish => "sv",
            Language::Tamil => "ta",
            Language::Telugu => "te",
            Language::Thai => "th",
            Language::Tagalog => "tl",
            Language::Turkish => "tr",
            Language::Ukrainian => "uk",
            Language::Vietnamese => "vi",
            Language::ChineseSimplified => "zh-CN",
            Language::ChineseTraditional => "zh-TW",
        }
    }
}

} // verus!
