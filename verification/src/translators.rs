//! Translators and dictionaries that a query can be sent to.

pub mod google_translate;

use vstd::prelude::*;
use vstd::string::*;

verus! {

/// Why a provider could not answer.
#[derive(Debug, Clone)]
pub struct TranslateError(String);

impl View for TranslateError {
    type V = Seq<char>;

    /// The reason, without the prefix that [`TranslateError::to_string`] adds.
    closed spec fn view(&self) -> Seq<char> {
        self.0@
    }
}

impl TranslateError {
    /// An error with the given reason.
    pub fn new(reason: &str) -> (error: TranslateError)
        ensures
            error@ == reason@,
    {
        TranslateError(String::from_str(reason))
    }

    /// The reason this error was made with.
    pub fn reason(&self) -> (reason: &str)
        ensures
            reason@ == self@,
    {
        self.0.as_str()
    }

    /// The message shown to the user: a fixed prefix, then the reason.
    pub fn to_string(&self) -> (text: String)
        ensures
            text@ == "failed to translate: "@ + self@,
    {
        let mut text = String::from_str("failed to translate: ");
        text.append(self.0.as_str());
        text
    }
}

/// The providers a query can be dispatched to.
#[derive(Copy, Clone, Debug, PartialEq, Eq, Structural)]
pub enum SearchProvider {
    GoogleTranslate,
    Jisho,
}

impl Default for SearchProvider {
    fn default() -> (provider: SearchProvider)
        ensures
            provider == SearchProvider::GoogleTranslate,
    {
        SearchProvider::GoogleTranslate
    }
}

impl SearchProvider {
    /// The name a provider is selected and shown by.
    pub open spec fn name(self) -> Seq<char> {
        match self {
            SearchProvider::GoogleTranslate => "google-translate"@,
            SearchProvider::Jisho => "jisho"@,
        }
    }

    /// The provider's name as text.
    pub fn to_string(&self) -> (text: String)
        ensures
            text@ == self.name(),
    {
        match self {
            SearchProvider::GoogleTranslate => String::from_str("google-translate"),
            SearchProvider::Jisho => String::from_str("jisho"),
        }
    }
}

} // verus!
