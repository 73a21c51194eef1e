//! What is asked of a provider and what comes back.
//!
//! A [`SearchConfig`] is one question; a [`SearchResult`] is one answer, a
//! bag of sections of which each may be missing. [`parse_lang`] turns what a
//! user wrote for a language into a [`LanguageId`].

use vstd::prelude::*;
use vstd::string::*;
use vstd::seq_lib::to_multiset_build;
use crate::language::{language_named, language_of_locale, parse_locale, parse_token, LanguageId};
use crate::score::{order_key_or_zero, rank_or_zero, Confidence};
use crate::text::{lowercase, to_lowercase};
use crate::translators::google_translate::{self, HttpResponse};
use crate::translators::{SearchProvider, TranslateError};
use crate::views::lemma_deep_insert;

verus! {

/// What a [`SearchConfig`] is, as a value of the specification.
pub struct SearchConfigView {
    pub query: Seq<char>,
    pub source_language: Option<Seq<char>>,
    pub target_language: Option<Seq<char>>,
    pub provider: SearchProvider,
}

/// One question: what to look up, from and into which language, and where.
#[derive(Debug)]
pub struct SearchConfig {
    pub query: String,
    pub source_language: Option<LanguageId>,
    pub target_language: Option<LanguageId>,
    pub provider: SearchProvider,
}

impl DeepView for SearchConfig {
    type V = SearchConfigView;

    open spec fn deep_view(&self) -> SearchConfigView {
        SearchConfigView {
            query: self.query@,
            source_language: self.source_language.deep_view(),
            target_language: self.target_language.deep_view(),
            provider: self.provider,
        }
    }
}

impl View for SearchConfig {
    type V = SearchConfigView;

    open spec fn view(&self) -> SearchConfigView {
        self.deep_view()
    }
}

impl Clone for SearchConfig {
    fn clone(&self) -> (copy: SearchConfig)
        ensures
            copy@ == self@,
    {
        SearchConfig {
            query: self.query.clone(),
            source_language: match &self.source_language {
                Some(language) => Some(language.clone()),
                None => None,
            },
            target_language: match &self.target_language {
                Some(language) => Some(language.clone()),
                None => None,
            },
            provider: self.provider,
        }
    }
}

impl Default for SearchConfig {
    fn default() -> (config: SearchConfig)
        ensures
            config@ == (SearchConfigView {
                query: Seq::empty(),
                source_language: None,
                target_language: None,
                provider: SearchProvider::GoogleTranslate,
            }),
    {
        SearchConfig {
            query: String::new(),
            source_language: None,
            target_language: None,
            provider: SearchProvider::GoogleTranslate,
        }
    }
}

/// What a [`Translation`] or a [`Literation`] is, as a value of the
/// specification: two halves, each of which may be missing.
pub struct PairView {
    pub orig: Option<Seq<char>>,
    pub translated: Option<Seq<char>>,
}

/// A sentence and its translation.
#[derive(Debug, Clone)]
pub struct Translation {
    pub orig: Option<String>,
    pub translated: Option<String>,
}

impl DeepView for Translation {
    type V = PairView;

    open spec fn deep_view(&self) -> PairView {
        PairView { orig: self.orig.deep_view(), translated: self.translated.deep_view() }
    }
}

impl View for Translation {
    type V = PairView;

    open spec fn view(&self) -> PairView {
        self.deep_view()
    }
}

/// What a [`Definition`] is, as a value of the specification.
pub struct DefinitionView {
    pub meaning: Seq<char>,
    pub pos: Seq<char>,
    pub reverse_translation: Option<Seq<Seq<char>>>,
    pub confidence: Option<Confidence>,
    pub examples: Option<Seq<Seq<char>>>,
}

/// One sense of a word.
#[derive(Debug, Clone)]
pub struct Definition {
    pub meaning: String,
    /// The part of speech: noun, verb and so on.
    pub pos: String,
    pub reverse_translation: Option<Vec<String>>,
    pub confidence: Option<Confidence>,
    pub examples: Option<Vec<String>>,
}

impl DeepView for Definition {
    type V = DefinitionView;

    open spec fn deep_view(&self) -> DefinitionView {
        DefinitionView {
            meaning: self.meaning@,
            pos: self.pos@,
            reverse_translation: self.reverse_translation.deep_view(),
            confidence: self.confidence,
            examples: self.examples.deep_view(),
        }
    }
}

impl View for Definition {
    type V = DefinitionView;

    open spec fn view(&self) -> DefinitionView {
        self.deep_view()
    }
}

/// A text and its translation, each written in the letters of the other
/// language.
#[derive(Debug, Clone)]
pub struct Literation {
    pub orig: Option<String>,
    pub translated: Option<String>,
}

impl DeepView for Literation {
    type V = PairView;

    open spec fn deep_view(&self) -> PairView {
        PairView { orig: self.orig.deep_view(), translated: self.translated.deep_view() }
    }
}

impl View for Literation {
    type V = PairView;

    open spec fn view(&self) -> PairView {
        self.deep_view()
    }
}

/// What a [`SearchResult`] is, as a value of the specification.
pub struct SearchResultView {
    pub provider: SearchProvider,
    pub translations: Option<Seq<PairView>>,
    pub definitions: Option<Seq<DefinitionView>>,
    pub src_lang: Option<Seq<char>>,
    pub literation: Option<PairView>,
}

/// One answer of a provider. Every section may be missing.
#[derive(Debug, Clone)]
pub struct SearchResult {
    pub provider: SearchProvider,
    pub translations: Option<Vec<Translation>>,
    pub definitions: Option<Vec<Definition>>,
    /// The language the provider took the query to be in.
    pub src_lang: Option<String>,
    pub literation: Option<Literation>,
}

impl DeepView for SearchResult {
    type V = SearchResultView;

    open spec fn deep_view(&self) -> SearchResultView {
        SearchResultView {
            provider: self.provider,
            translations: self.translations.deep_view(),
            definitions: self.definitions.deep_view(),
            src_lang: self.src_lang.deep_view(),
            literation: self.literation.deep_view(),
        }
    }
}

impl View for SearchResult {
    type V = SearchResultView;

    open spec fn view(&self) -> SearchResultView {
        self.deep_view()
    }
}

/// Whether senses stand in descending order of confidence, a sense without a
/// confidence counting as zero.
pub open spec fn descending(definitions: Seq<DefinitionView>) -> bool {
    forall|i: int, j: int|
        0 <= i <= j < definitions.len() ==> rank_or_zero(#[trigger] definitions[i].confidence)
            >= rank_or_zero(#[trigger] definitions[j].confidence)
}

impl SearchResultView {
    /// What holds of every answer that the library builds from a provider's
    /// reply: a section that is there has something in it, the senses are in
    /// descending order of confidence, and a transliteration has both halves.
    pub open spec fn well_formed(self) -> bool {
        &&& self.translations matches Some(translations) ==> translations.len() > 0
        &&& self.definitions matches Some(definitions) ==> definitions.len() > 0 && descending(
            definitions,
        )
        &&& self.literation matches Some(literation) ==> literation.orig is Some
            && literation.translated is Some
    }
}

/// Where a sense goes in a list of senses: behind the last sense whose
/// confidence is not lower than its own.
pub open spec fn inserted(senses: Seq<DefinitionView>, sense: DefinitionView) -> Seq<
    DefinitionView,
>
    decreases senses.len(),
{
    if senses.len() == 0 || rank_or_zero(senses.last().confidence) >= rank_or_zero(
        sense.confidence,
    ) {
        senses.push(sense)
    } else {
        inserted(senses.drop_last(), sense).push(senses.last())
    }
}

/// The senses in descending order of confidence; senses of one confidence
/// stay in the order they came in.
pub open spec fn by_confidence(senses: Seq<DefinitionView>) -> Seq<DefinitionView>
    decreases senses.len(),
{
    if senses.len() == 0 {
        Seq::empty()
    } else {
        inserted(by_confidence(senses.drop_last()), senses.last())
    }
}

/// Inserting behind the last sense that is not lower is inserting at the
/// place that a walk from the end finds.
proof fn lemma_inserted_at(senses: Seq<DefinitionView>, sense: DefinitionView, at: int)
    requires
        0 <= at <= senses.len(),
        at > 0 ==> rank_or_zero(senses[at - 1].confidence) >= rank_or_zero(sense.confidence),
        forall|k: int|
            at <= k < senses.len() ==> rank_or_zero(#[trigger] senses[k].confidence)
                < rank_or_zero(sense.confidence),
    ensures
        inserted(senses, sense) == senses.insert(at, sense),
    decreases senses.len() - at,
{
    if at == senses.len() {
        assert(senses.push(sense) =~= senses.insert(at, sense));
    } else {
        lemma_inserted_at(senses.drop_last(), sense, at);
        assert(senses.drop_last().insert(at, sense).push(senses.last()) =~= senses.insert(
            at,
            sense,
        ));
    }
}

/// A sense put into a descending list leaves the list descending.
pub proof fn lemma_inserted_descending(senses: Seq<DefinitionView>, sense: DefinitionView)
    requires
        descending(senses),
    ensures
        descending(inserted(senses, sense)),
        inserted(senses, sense).len() == senses.len() + 1,
    decreases senses.len(),
{
    if senses.len() == 0 || rank_or_zero(senses.last().confidence) >= rank_or_zero(
        sense.confidence,
    ) {
        let longer = senses.push(sense);
        assert forall|i: int, j: int| 0 <= i <= j < longer.len() implies rank_or_zero(
            #[trigger] longer[i].confidence,
        ) >= rank_or_zero(#[trigger] longer[j].confidence) by {
            if j == senses.len() && i < j {
                assert(rank_or_zero(senses[i].confidence) >= rank_or_zero(
                    senses[senses.len() - 1].confidence,
                ));
            }
        }
    } else {
        let shorter = senses.drop_last();
        assert forall|i: int, j: int| 0 <= i <= j < shorter.len() implies rank_or_zero(
            #[trigger] shorter[i].confidence,
        ) >= rank_or_zero(#[trigger] shorter[j].confidence) by {
            assert(shorter[i] == senses[i] && shorter[j] == senses[j]);
        }
        lemma_inserted_descending(shorter, sense);
        lemma_inserted_is_insert(shorter, sense);
        let at = choose|at: int| insert_place(shorter, sense, at);
        let middle = inserted(shorter, sense);
        let longer = middle.push(senses.last());
        assert forall|i: int, j: int| 0 <= i <= j < longer.len() implies rank_or_zero(
            #[trigger] longer[i].confidence,
        ) >= rank_or_zero(#[trigger] longer[j].confidence) by {
            if j == middle.len() && i < j {
                if i == at {
                } else if i < at {
                    assert(middle[i] == senses[i]);
                    assert(rank_or_zero(senses[i].confidence) >= rank_or_zero(
                        senses[senses.len() - 1].confidence,
                    ));
                } else {
                    assert(middle[i] == senses[i - 1]);
                    assert(rank_or_zero(senses[i - 1].confidence) >= rank_or_zero(
                        senses[senses.len() - 1].confidence,
                    ));
                }
            }
        }
    }
}

/// Whether `at` is the place where [`inserted`] puts a sense: everything
/// behind it is lower than the sense, what stands before it is not.
pub open spec fn insert_place(senses: Seq<DefinitionView>, sense: DefinitionView, at: int) -> bool {
    &&& 0 <= at <= senses.len()
    &&& at > 0 ==> rank_or_zero(senses[at - 1].confidence) >= rank_or_zero(sense.confidence)
    &&& forall|k: int|
        at <= k < senses.len() ==> rank_or_zero(#[trigger] senses[k].confidence) < rank_or_zero(
            sense.confidence,
        )
    &&& inserted(senses, sense) == senses.insert(at, sense)
}

/// [`inserted`] puts the sense in at one place and moves nothing else.
pub proof fn lemma_inserted_is_insert(senses: Seq<DefinitionView>, sense: DefinitionView)
    ensures
        exists|at: int| insert_place(senses, sense, at),
    decreases senses.len(),
{
    if senses.len() == 0 || rank_or_zero(senses.last().confidence) >= rank_or_zero(
        sense.confidence,
    ) {
        lemma_inserted_at(senses, sense, senses.len() as int);
        assert(insert_place(senses, sense, senses.len() as int));
    } else {
        let shorter = senses.drop_last();
        lemma_inserted_is_insert(shorter, sense);
        let at = choose|at: int| insert_place(shorter, sense, at);
        assert forall|k: int| at <= k < senses.len() implies rank_or_zero(
            #[trigger] senses[k].confidence,
        ) < rank_or_zero(sense.confidence) by {
            if k < shorter.len() {
                assert(shorter[k] == senses[k]);
            }
        }
        if at > 0 {
            assert(shorter[at - 1] == senses[at - 1]);
        }
        lemma_inserted_at(senses, sense, at);
        assert(insert_place(senses, sense, at));
    }
}

/// The ordered senses are in descending order of confidence, and as many as
/// before.
pub proof fn lemma_by_confidence_descending(senses: Seq<DefinitionView>)
    ensures
        descending(by_confidence(senses)),
        by_confidence(senses).len() == senses.len(),
    decreases senses.len(),
{
    if senses.len() > 0 {
        lemma_by_confidence_descending(senses.drop_last());
        lemma_inserted_descending(by_confidence(senses.drop_last()), senses.last());
    }
}

/// A sense put into a list is one sense more and nothing else.
pub proof fn lemma_inserted_permutes(senses: Seq<DefinitionView>, sense: DefinitionView)
    ensures
        inserted(senses, sense).to_multiset() == senses.to_multiset().insert(sense),
    decreases senses.len(),
{
    if senses.len() == 0 || rank_or_zero(senses.last().confidence) >= rank_or_zero(
        sense.confidence,
    ) {
        to_multiset_build(senses, sense);
    } else {
        let shorter = senses.drop_last();
        lemma_inserted_permutes(shorter, sense);
        to_multiset_build(inserted(shorter, sense), senses.last());
        to_multiset_build(shorter, senses.last());
        assert(shorter.push(senses.last()) =~= senses);
        assert(shorter.to_multiset().insert(sense).insert(senses.last())
            =~= shorter.to_multiset().insert(senses.last()).insert(sense));
    }
}

/// Ordering neither adds a sense nor loses one.
pub proof fn lemma_by_confidence_permutes(senses: Seq<DefinitionView>)
    ensures
        by_confidence(senses).to_multiset() == senses.to_multiset(),
    decreases senses.len(),
{
    if senses.len() == 0 {
        assert(by_confidence(senses) =~= senses);
    } else {
        let shorter = senses.drop_last();
        lemma_by_confidence_permutes(shorter);
        lemma_inserted_permutes(by_confidence(shorter), senses.last());
        to_multiset_build(shorter, senses.last());
        assert(shorter.push(senses.last()) =~= senses);
    }
}

/// The senses whose confidence has the given place in the order.
pub open spec fn of_rank(rank: int) -> spec_fn(DefinitionView) -> bool {
    |sense: DefinitionView| rank_or_zero(sense.confidence) == rank
}

/// A sense put into a list comes behind the senses of its own confidence,
/// and the others keep their order.
pub proof fn lemma_inserted_stable(senses: Seq<DefinitionView>, sense: DefinitionView, rank: int)
    ensures
        inserted(senses, sense).filter(of_rank(rank)) == if rank_or_zero(sense.confidence)
            == rank {
            senses.filter(of_rank(rank)).push(sense)
        } else {
            senses.filter(of_rank(rank))
        },
    decreases senses.len(),
{
    if senses.len() == 0 || rank_or_zero(senses.last().confidence) >= rank_or_zero(
        sense.confidence,
    ) {
        senses.lemma_filter_push(sense, of_rank(rank));
    } else {
        let shorter = senses.drop_last();
        lemma_inserted_stable(shorter, sense, rank);
        inserted(shorter, sense).lemma_filter_push(senses.last(), of_rank(rank));
        shorter.lemma_filter_push(senses.last(), of_rank(rank));
        assert(shorter.push(senses.last()) =~= senses);
    }
}

/// Ordering is stable: the senses of one confidence stand in the order they
/// came in.
pub proof fn lemma_by_confidence_stable(senses: Seq<DefinitionView>, rank: int)
    ensures
        by_confidence(senses).filter(of_rank(rank)) == senses.filter(of_rank(rank)),
    decreases senses.len(),
{
    if senses.len() == 0 {
        assert(by_confidence(senses) =~= senses);
    } else {
        let shorter = senses.drop_last();
        lemma_by_confidence_stable(shorter, rank);
        lemma_inserted_stable(by_confidence(shorter), senses.last(), rank);
        shorter.lemma_filter_push(senses.last(), of_rank(rank));
        assert(shorter.push(senses.last()) =~= senses);
    }
}

/// Put a sense into a list of senses, behind the last one whose confidence
/// is not lower; see [`inserted`].
pub fn insert_by_confidence(senses: &mut Vec<Definition>, sense: Definition)
    ensures
        final(senses).deep_view() == inserted(old(senses).deep_view(), sense@),
{
    let key = order_key_or_zero(&sense.confidence);
    let mut at: usize = senses.len();
    while at > 0 && order_key_or_zero(&senses[at - 1].confidence) < key
        invariant
            at <= senses.len(),
            key == rank_or_zero(sense.confidence),
            forall|k: int|
                at <= k < senses.len() ==> rank_or_zero(#[trigger] senses@[k].confidence) < key,
        decreases at,
    {
        at = at - 1;
    }
    proof {
        let before = senses.deep_view();
        assert forall|k: int| at <= k < before.len() implies rank_or_zero(
            #[trigger] before[k].confidence,
        ) < rank_or_zero(sense.confidence) by {
            assert(before[k].confidence == senses@[k].confidence);
        }
        lemma_inserted_at(before, sense@, at as int);
        lemma_deep_insert(senses@, at as int, sense);
    }
    senses.insert(at, sense);
}

/// A token that names no language.
#[derive(Debug)]
pub struct LanguageParseError(String);

impl View for LanguageParseError {
    type V = Seq<char>;

    /// The token, in lower case.
    closed spec fn view(&self) -> Seq<char> {
        self.0@
    }
}

impl LanguageParseError {
    /// An error for the given token.
    pub fn new(token: String) -> (error: LanguageParseError)
        ensures
            error@ == token@,
    {
        LanguageParseError(token)
    }

    /// The token that named no language.
    pub fn token(&self) -> (token: &str)
        ensures
            token@ == self@,
    {
        self.0.as_str()
    }

    /// The message shown to the user: a fixed prefix, then the token.
    pub fn to_string(&self) -> (text: String)
        ensures
            text@ == "failed to parse the language code: "@ + self@,
    {
        let mut text = String::from_str("failed to parse the language code: ");
        text.append(self.0.as_str());
        text
    }
}

/// The language that a lower-case token stands for, given what it names
/// when read as a code or a name and what it names when read as a locale:
/// the first of the two that is there; the token itself where neither is.
pub open spec fn first_found(
    lowered: Seq<char>,
    named: Option<Seq<char>>,
    located: Option<Seq<char>>,
) -> Result<Seq<char>, Seq<char>> {
    match named {
        Some(code) => Ok(code),
        None => match located {
            Some(code) => Ok(code),
            None => Err(lowered),
        },
    }
}

/// The language that a token stands for: the token is put in lower case and
/// read as an ISO 639-3 code, an ISO 639-1 code, an English name or an
/// autonym, and failing that as a locale such as `zh_CN.utf8`.
pub open spec fn resolved(token: Seq<char>) -> Result<Seq<char>, Seq<char>> {
    let lowered = lowercase(token);
    first_found(lowered, language_named(lowered), language_of_locale(lowered))
}

/// The view of what [`parse_lang`] returns.
pub open spec fn outcome_view(outcome: Result<LanguageId, LanguageParseError>) -> Result<
    Seq<char>,
    Seq<char>,
> {
    match outcome {
        Ok(language) => Ok(language@),
        Err(error) => Err(error@),
    }
}

/// Choose between the two readings of a lower-case token; see
/// [`first_found`].
pub fn choose_language(
    lowered: String,
    named: Option<LanguageId>,
    located: Option<LanguageId>,
) -> (outcome: Result<LanguageId, LanguageParseError>)
    ensures
        outcome_view(outcome) == first_found(lowered@, named.deep_view(), located.deep_view()),
{
    match named {
        Some(language) => Ok(language),
        None => match located {
            Some(language) => Ok(language),
            None => Err(LanguageParseError(lowered)),
        },
    }
}

/// Parse what a user wrote for a language.
///
/// Accepted, in any case of letters: ISO 639-1 and 639-3 codes, English
/// names, autonyms, and locales of which the part before `_` is a two-letter
/// code. The error holds the token in lower case.
pub fn parse_lang(lang: &str) -> (outcome: Result<LanguageId, LanguageParseError>)
    ensures
        outcome_view(outcome) == resolved(lang@),
{
    let lowered = to_lowercase(lang);
    let named = parse_token(lowered.as_str());
    let located = match named {
        Some(_) => None,
        None => parse_locale(lowered.as_str()),
    };
    choose_language(lowered, named, located)
}

/// The reason why a provider that is not built in cannot be asked.
pub open spec fn not_implemented() -> Seq<char> {
    "This provider is not implemented"@
}

/// The address to ask for a question, or why its provider cannot be asked.
pub open spec fn request(config: SearchConfigView) -> Result<Seq<char>, Seq<char>> {
    match config.provider {
        SearchProvider::GoogleTranslate => google_translate::request(config),
        SearchProvider::Jisho => Err(not_implemented()),
    }
}

/// The address to ask for a question, or why its provider cannot be asked;
/// see [`request`].
pub fn request_url(query: &SearchConfig) -> (outcome: Result<String, TranslateError>)
    ensures
        google_translate::request_view(outcome) == request(query@),
{
    match query.provider {
        SearchProvider::GoogleTranslate => google_translate::request_url(query),
        SearchProvider::Jisho => Err(TranslateError::new("This provider is not implemented")),
    }
}

/// The answer to a question that the reply of its provider holds. A
/// question that the provider cannot be asked has no answer, whatever the
/// reply; see [`request`] for those.
pub fn lookup(query: &SearchConfig, reply: HttpResponse) -> (outcome: Result<
    SearchResult,
    TranslateError,
>)
    ensures
        match outcome {
            Ok(result) => request(query@) is Ok && result@ == reply@.read().generalized()
                && result@.well_formed(),
            Err(error) => request(query@) == Err::<Seq<char>, _>(error@),
        },
{
    match query.provider {
        SearchProvider::GoogleTranslate => {
            match google_translate::lookup_google_translate(query, reply) {
                Ok(answer) => Ok(SearchResult::from(answer)),
                Err(error) => Err(error),
            }
        },
        SearchProvider::Jisho => Err(TranslateError::new("This provider is not implemented")),
    }
}

/// A language that was asked for, as the question holds it: none where
/// none was named, and the error where the name could not be resolved.
pub open spec fn wanted(language: Option<Result<Seq<char>, Seq<char>>>) -> Result<
    Option<Seq<char>>,
    Seq<char>,
> {
    match language {
        Some(Ok(code)) => Ok(Some(code)),
        Some(Err(token)) => Err(token),
        None => Ok(None),
    }
}

/// The question that a query, the two languages as far as they were named
/// and could be resolved, and a provider make. The first language that
/// could not be resolved is the error; the source language is looked at
/// first.
pub open spec fn config_with(
    input: Seq<char>,
    source: Option<Result<Seq<char>, Seq<char>>>,
    target: Option<Result<Seq<char>, Seq<char>>>,
    provider: SearchProvider,
) -> Result<SearchConfigView, Seq<char>> {
    match wanted(source) {
        Err(token) => Err(token),
        Ok(source_language) => match wanted(target) {
            Err(token) => Err(token),
            Ok(target_language) => Ok(
                SearchConfigView { query: input, source_language, target_language, provider },
            ),
        },
    }
}

/// What a token that may be missing resolves to.
pub open spec fn resolved_any(token: Option<Seq<char>>) -> Option<Result<Seq<char>, Seq<char>>> {
    match token {
        Some(token) => Some(resolved(token)),
        None => None,
    }
}

/// The question that the arguments of a run ask: the query, the two
/// language tokens resolved, and the provider; see [`config_with`].
pub open spec fn config_of(
    input: Seq<char>,
    source_lang: Option<Seq<char>>,
    dest_lang: Option<Seq<char>>,
    provider: SearchProvider,
) -> Result<SearchConfigView, Seq<char>> {
    config_with(input, resolved_any(source_lang), resolved_any(dest_lang), provider)
}

/// The view of a language that was asked for.
pub open spec fn wanted_view(language: Option<Result<LanguageId, LanguageParseError>>) -> Option<
    Result<Seq<char>, Seq<char>>,
> {
    match language {
        Some(outcome) => Some(outcome_view(outcome)),
        None => None,
    }
}

/// The view of a question or an error.
pub open spec fn config_view(outcome: Result<SearchConfig, LanguageParseError>) -> Result<
    SearchConfigView,
    Seq<char>,
> {
    match outcome {
        Ok(config) => Ok(config@),
        Err(error) => Err(error@),
    }
}

impl SearchConfig {
    /// The question that a query, the two languages as far as they were
    /// named and could be resolved, and a provider make; see
    /// [`config_with`].
    pub fn with_languages(
        input: String,
        source: Option<Result<LanguageId, LanguageParseError>>,
        target: Option<Result<LanguageId, LanguageParseError>>,
        provider: SearchProvider,
    ) -> (outcome: Result<SearchConfig, LanguageParseError>)
        ensures
            config_view(outcome) == config_with(
                input@,
                wanted_view(source),
                wanted_view(target),
                provider,
            ),
    {
        let source_language = match source {
            Some(Ok(language)) => Some(language),
            Some(Err(error)) => {
                return Err(error);
            },
            None => None,
        };
        let target_language = match target {
            Some(Ok(language)) => Some(language),
            Some(Err(error)) => {
                return Err(error);
            },
            None => None,
        };
        Ok(SearchConfig { query: input, source_language, target_language, provider })
    }

    /// The question that the arguments of a run ask; see [`config_of`].
    pub fn from_args(
        input: String,
        source_lang: Option<String>,
        dest_lang: Option<String>,
        provider: SearchProvider,
    ) -> (outcome: Result<SearchConfig, LanguageParseError>)
        ensures
            config_view(outcome) == config_of(
                input@,
                source_lang.deep_view(),
                dest_lang.deep_view(),
                provider,
            ),
    {
        let source = match &source_lang {
            Some(lang) => Some(parse_lang(lang.as_str())),
            None => None,
        };
        let target = match &dest_lang {
            Some(lang) => Some(parse_lang(lang.as_str())),
            None => None,
        };
        SearchConfig::with_languages(input, source, target, provider)
    }
}

} // verus!
