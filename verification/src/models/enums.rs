//! Enums used throughout the library: languages and image parameters, each
//! with its lowercase wire code.

use vstd::prelude::*;

verus! {

/// Language codes supported by the API.
#[derive(Debug, Clone, Copy, PartialEq, Eq, Hash, Structural)]
#[allow(non_camel_case_types)]
pub enum Language {
    /// English
    EN,
    /// French
    FR,
    /// Spanish
    ES,
    /// Latin Spanish
    ES_MX,
    /// Italian
    IT,
    /// Brazilian Portuguese
    PT_BR,
    /// Portugal Portuguese
    PT_PT,
    /// German
    DE,
    /// Dutch
    NL,
    /// Polish
    PL,
    /// Russian
    RU,
    /// Japanese
    JA,
    /// Korean
    KO,
    /// Traditional Chinese
    ZH_TW,
    /// Indonesian
    ID,
    /// Thai
    TH,
    /// Simplified Chinese
    ZH_CN,
}

impl Language {
    /// The lowercase code a language takes in request URLs.
    pub open spec fn spec_code(&self) -> Seq<char> {
        match *self {
            Language::EN => "en"@,
            Language::FR => "fr"@,
            Language::ES => "es"@,
            Language::ES_MX => "es-mx"@,
            Language::IT => "it"@,
            Language::PT_BR => "pt-br"@,
            Language::PT_PT => "pt-pt"@,
            Language::DE => "de"@,
            Language::NL => "nl"@,
            Language::PL => "pl"@,
            Language::RU => "ru"@,
            Language::JA => "ja"@,
            Language::KO => "ko"@,
            Language::ZH_TW => "zh-tw"@,
            Language::ID => "id"@,
            Language::TH => "th"@,
            Language::ZH_CN => "zh-cn"@,
        }
    }

    /// The lowercase code a language takes in request URLs.
    pub fn code(&self) -> (r: &'static str)
        ensures
            r@ == self.spec_code(),
    {
        match *self {
            Language::EN => "en",
            Language::FR => "fr",
            Language::ES => "es",
            Language::ES_MX => "es-mx",
            Language::IT => "it",
            Language::PT_BR => "pt-br",
            Language::PT_PT => "pt-pt",
            Language::DE => "de",
            Language::NL => "nl",
            Language::PL => "pl",
            Language::RU => "ru",
            Language::JA => "ja",
            Language::KO => "ko",
            Language::ZH_TW => "zh-tw",
            Language::ID => "id",
            Language::TH => "th",
            Language::ZH_CN => "zh-cn",
        }
    }
}

impl Default for Language {
    /// English is the default language.
    fn default() -> (r: Language)
        ensures
            r == Language::EN,
    {
        Language::EN
    }
}

/// The different image formats available.
#[derive(Debug, Clone, Copy, PartialEq, Eq, Hash, Structural)]
pub enum Extension {
    /// PNG image with transparent background
    PNG,
    /// JPG image with white background
    JPG,
    /// WEBP image with transparent background
    WEBP,
}

impl Extension {
    /// The lowercase file extension.
    pub open spec fn spec_code(&self) -> Seq<char> {
        match *self {
            Extension::PNG => "png"@,
            Extension::JPG => "jpg"@,
            Extension::WEBP => "webp"@,
        }
    }

    /// The lowercase file extension.
    pub fn code(&self) -> (r: &'static str)
        ensures
            r@ == self.spec_code(),
    {
        match *self {
            Extension::PNG => "png",
            Extension::JPG => "jpg",
            Extension::WEBP => "webp",
        }
    }
}

impl Default for Extension {
    /// PNG is the default format.
    fn default() -> (r: Extension)
        ensures
            r == Extension::PNG,
    {
        Extension::PNG
    }
}

/// Image quality options.
#[derive(Debug, Clone, Copy, PartialEq, Eq, Hash, Structural)]
pub enum Quality {
    /// High quality image
    HIGH,
    /// Low quality image
    LOW,
}

impl Quality {
    /// The lowercase quality segment of an image URL.
    pub open spec fn spec_code(&self) -> Seq<char> {
        match *self {
            Quality::HIGH => "high"@,
            Quality::LOW => "low"@,
        }
    }

    /// The lowercase quality segment of an image URL.
    pub fn code(&self) -> (r: &'static str)
        ensures
            r@ == self.spec_code(),
    {
        match *self {
            Quality::HIGH => "high",
            Quality::LOW => "low",
        }
    }
}

impl Default for Quality {
    /// High quality is the default.
    fn default() -> (r: Quality)
        ensures
            r == Quality::HIGH,
    {
        Quality::HIGH
    }
}

} // verus!
