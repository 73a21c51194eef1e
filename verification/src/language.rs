//! Languages, as ISO 639 knows them.
//!
//! A [`LanguageId`] holds the three-letter ISO 639-3 code of a language.
//! Which tokens name a language, which two-letter code a language has and how
//! it is shown are questions for the `isolang` crate; this module asks them
//! and hands the answers on as plain text.

use vstd::prelude::*;
use vstd::string::*;

verus! {

/// The ISO 639-3 code of the language that `isolang` reads a token as
/// (`<isolang::Language as FromStr>::from_str`): the token may be a 639-3
/// code, a 639-1 code, an English name in lower case or an autonym.
pub uninterp spec fn language_named(token: Seq<char>) -> Option<Seq<char>>;

/// The ISO 639-3 code of the language that `isolang` finds in a locale such
/// as `de_DE.UTF-8` (`isolang::Language::from_locale`).
pub uninterp spec fn language_of_locale(locale: Seq<char>) -> Option<Seq<char>>;

/// The ISO 639-1 code of the language with the given 639-3 code
/// (`isolang::Language::to_639_1`); none where the language has no such code
/// or `isolang` knows no language by the 639-3 code.
pub uninterp spec fn short_code_of(code: Seq<char>) -> Option<Seq<char>>;

/// How `isolang` writes the language with the given 639-3 code (its
/// `Display`); none where it knows no language by that code.
pub uninterp spec fn label_of(code: Seq<char>) -> Option<Seq<char>>;

/// A language, identified by its ISO 639-3 code.
#[derive(Debug, PartialEq, Eq)]
pub struct LanguageId {
    code: String,
}

impl DeepView for LanguageId {
    type V = Seq<char>;

    /// The ISO 639-3 code.
    closed spec fn deep_view(&self) -> Seq<char> {
        self.code@
    }
}

impl View for LanguageId {
    type V = Seq<char>;

    /// The ISO 639-3 code.
    open spec fn view(&self) -> Seq<char> {
        self.deep_view()
    }
}

impl Clone for LanguageId {
    fn clone(&self) -> (copy: LanguageId)
        ensures
            copy@ == self@,
    {
        LanguageId { code: self.code.clone() }
    }
}

/// The code that stands for a language nobody could determine.
pub open spec fn undetermined_code() -> Seq<char> {
    "und"@
}

/// How a language is shown, given how `isolang` writes it: so, or by its
/// bare code where `isolang` does not know it.
pub open spec fn shown(label: Option<Seq<char>>, code: Seq<char>) -> Seq<char> {
    match label {
        Some(label) => label,
        None => code,
    }
}

/// How the language with the given code is shown; see [`shown`].
pub open spec fn label_text(code: Seq<char>) -> Seq<char> {
    shown(label_of(code), code)
}

/// How a language is shown, given how `isolang` writes it; see [`shown`].
pub fn shown_as(label: Option<String>, code: &str) -> (text: String)
    ensures
        text@ == shown(label.deep_view(), code@),
{
    match label {
        Some(text) => text,
        None => String::from_str(code),
    }
}

impl LanguageId {
    /// The marker for a language that is not known.
    pub fn undetermined() -> (language: LanguageId)
        ensures
            language@ == undetermined_code(),
    {
        LanguageId { code: String::from_str("und") }
    }

    /// The ISO 639-3 code.
    pub fn to_639_3(&self) -> (code: &str)
        ensures
            code@ == self@,
    {
        self.code.as_str()
    }

    /// The ISO 639-1 code, where the language has one.
    pub fn to_639_1(&self) -> (code: Option<String>)
        ensures
            code.deep_view() == short_code_of(self@),
    {
        short_code(self.code.as_str())
    }

    /// The language as it is shown to the user.
    pub fn to_string(&self) -> (text: String)
        ensures
            text@ == label_text(self@),
    {
        shown_as(label(self.code.as_str()), self.code.as_str())
    }
}

/// `isolang`'s `FromStr` for `Language`, the language found handed on by its
/// 639-3 code (`Language::to_639_3`). Believed of it: whether a language is
/// found and which depends on the characters of `token` alone.
#[verifier::external_body]
pub(crate) fn parse_token(token: &str) -> (found: Option<LanguageId>)
    ensures
        found.deep_view() == language_named(token@),
{
    match token.parse::<isolang::Language>() {
        Ok(language) => Some(LanguageId { code: language.to_639_3().to_string() }),
        Err(_) => None,
    }
}

/// `isolang::Language::from_locale`, the language found handed on by its
/// 639-3 code. Believed of it: whether a language is found and which depends
/// on the characters of `locale` alone.
#[verifier::external_body]
pub(crate) fn parse_locale(locale: &str) -> (found: Option<LanguageId>)
    ensures
        found.deep_view() == language_of_locale(locale@),
{
    match isolang::Language::from_locale(locale) {
        Some(language) => Some(LanguageId { code: language.to_639_3().to_string() }),
        None => None,
    }
}

/// `isolang::Language::to_639_1`, on the language that
/// `isolang::Language::from_639_3` finds for `code`. Believed of it: the
/// result depends on the characters of `code` alone.
#[verifier::external_body]
fn short_code(code: &str) -> (short: Option<String>)
    ensures
        short.deep_view() == short_code_of(code@),
{
    match isolang::Language::from_639_3(code) {
        Some(language) => match language.to_639_1() {
            Some(short) => Some(short.to_string()),
            None => None,
        },
        None => None,
    }
}

/// `isolang`'s `Display` for `Language`, on the language that
/// `isolang::Language::from_639_3` finds for `code`. Believed of it: the
/// result depends on the characters of `code` alone.
#[verifier::external_body]
fn label(code: &str) -> (text: Option<String>)
    ensures
        text.deep_view() == label_of(code@),
{
    match isolang::Language::from_639_3(code) {
        Some(language) => Some(language.to_string()),
        None => None,
    }
}

} // verus!
