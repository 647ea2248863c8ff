//! Responses to commands: a title and a description, each a translation key or a
//! ready text, and whether the response reports success or an error.

use crate::i18n::{t, translate};
use vstd::prelude::*;

verus! {

/// The embed color used for success messages.
pub const HYDROGEN_PRIMARY_COLOR: i32 = 0x5865f2;

/// The embed color used for error messages.
pub const HYDROGEN_ERROR_COLOR: i32 = 0xf04747;

/// Hydrogen's logo URL, used in embed's footers.
pub const HYDROGEN_LOGO_URL: &'static str =
    "https://raw.githubusercontent.com/nashiradeer/hydrogen/main/assets/icons/hydrogen-circular.png";

/// Represents a response.
#[derive(Debug, Clone, PartialEq, Eq, Hash)]
pub struct Response<'a> {
    /// The translation key for the title.
    pub title: ResponseValue<'a>,
    /// The translation key for the description.
    pub description: ResponseValue<'a>,
    /// The response type.
    pub response_type: ResponseType,
}

/// Represents a response value.
#[derive(Debug, Clone, PartialEq, Eq, Hash)]
pub enum ResponseValue<'a> {
    /// Represents a translation key.
    TranslationKey(&'a str),
    /// Represents a raw value.
    Raw(&'a str),
    /// Represents a raw string.
    RawString(String),
}

/// Represents a response type.
#[derive(Debug, Clone, Copy, PartialEq, Eq, Hash, Structural)]
pub enum ResponseType {
    /// Represents a successful response.
    Success,
    /// Represents an error response.
    Error,
}

/// The text a response value shows in the language `lang`.
pub open spec fn value_text(v: ResponseValue, lang: Seq<char>) -> Seq<char> {
    match v {
        ResponseValue::TranslationKey(key) => translate(lang, key@),
        ResponseValue::Raw(value) => value@,
        ResponseValue::RawString(value) => value@,
    }
}

/// The color of a response type.
pub open spec fn type_color(t: ResponseType) -> i32 {
    match t {
        ResponseType::Success => HYDROGEN_PRIMARY_COLOR,
        ResponseType::Error => HYDROGEN_ERROR_COLOR,
    }
}

impl<'a> Response<'a> {
    /// A response whose title and description are translation keys.
    pub fn new(title: &'a str, description: &'a str, response_type: ResponseType) -> (r: Self)
        ensures
            r.title == ResponseValue::TranslationKey(title),
            r.description == ResponseValue::TranslationKey(description),
            r.response_type == response_type,
    {
        Self {
            title: ResponseValue::TranslationKey(title),
            description: ResponseValue::TranslationKey(description),
            response_type,
        }
    }

    /// A response made of the given values.
    pub fn raw(title: ResponseValue<'a>, description: ResponseValue<'a>, response_type: ResponseType) -> (r: Self)
        ensures
            r.title == title,
            r.description == description,
            r.response_type == response_type,
    {
        Self { title, description, response_type }
    }

    /// The texts that show the response in the language `lang`.
    pub fn render(self, lang: &str) -> (r: RenderedResponse)
        ensures
            r.title@ == value_text(self.title, lang@),
            r.description@ == value_text(self.description, lang@),
            r.color == type_color(self.response_type),
            r.footer@ == translate(lang@, "generic.embed_footer"@),
            r.footer_icon@ == HYDROGEN_LOGO_URL@,
    {
        RenderedResponse {
            title: self.title.into_value(lang),
            description: self.description.into_value(lang),
            color: self.response_type.into_color(),
            footer: t(lang, "generic.embed_footer"),
            footer_icon: HYDROGEN_LOGO_URL,
        }
    }
}

/// The texts of a response in one language, ready to be shown in an embed.
#[derive(Debug, Clone, PartialEq, Eq)]
pub struct RenderedResponse {
    /// The embed's title.
    pub title: String,
    /// The embed's description.
    pub description: String,
    /// The embed's color.
    pub color: i32,
    /// The embed's footer text.
    pub footer: &'static str,
    /// The embed's footer icon.
    pub footer_icon: &'static str,
}

impl ResponseValue<'_> {
    /// Converts the [ResponseValue] into its value.
    pub fn into_value(self, lang: &str) -> (r: String)
        ensures
            r@ == value_text(self, lang@),
    {
        match self {
            ResponseValue::TranslationKey(key) => t(lang, key).to_owned(),
            ResponseValue::Raw(value) => value.to_owned(),
            ResponseValue::RawString(value) => value,
        }
    }
}

impl ResponseType {
    /// Converts the response type into a color.
    pub fn into_color(self) -> (r: i32)
        ensures
            r == type_color(self),
    {
        match self {
            ResponseType::Success => HYDROGEN_PRIMARY_COLOR,
            ResponseType::Error => HYDROGEN_ERROR_COLOR,
        }
    }
}

} // verus!
