//! The Google translator.
//!
//! The provider is asked over HTTP and answers in JSON. This module says
//! which address to ask ([`request_url`]), holds the answer as it comes
//! ([`HttpResponse`]) and as the library reads it ([`SearchResult`]), and
//! turns the latter into the answer that every provider gives
//! ([`crate::search::SearchResult`]).

use vstd::prelude::*;
use vstd::string::*;
use crate::language::short_code_of;
use crate::score::Confidence;
use crate::search::{
    by_confidence, insert_by_confidence, lemma_by_confidence_descending, Definition,
    DefinitionView, Literation, PairView, SearchConfig, SearchConfigView, SearchResultView,
    Translation,
};
use crate::text::{copy_of_text, copy_of_texts};
use crate::translators::{SearchProvider, TranslateError};
use crate::views::{
    flat_map, lemma_deep_push, lemma_deep_take, lemma_flat_map_next, lemma_flat_map_none,
    lemma_take_next,
};

verus! {

/// What an [`HttpResponseSentence`] is, as a value of the specification.
pub struct SentenceView {
    pub src_translit: Option<Seq<char>>,
    pub trans: Option<Seq<char>>,
    pub orig: Option<Seq<char>>,
    pub translit: Option<Seq<char>>,
}

/// One member of the answer's `sentences`: a sentence with its translation,
/// or the transliterations of the whole text.
#[derive(Debug, Clone)]
pub struct HttpResponseSentence {
    pub src_translit: Option<String>,
    pub trans: Option<String>,
    pub orig: Option<String>,
    pub translit: Option<String>,
}

impl DeepView for HttpResponseSentence {
    type V = SentenceView;

    open spec fn deep_view(&self) -> SentenceView {
        SentenceView {
            src_translit: self.src_translit.deep_view(),
            trans: self.trans.deep_view(),
            orig: self.orig.deep_view(),
            translit: self.translit.deep_view(),
        }
    }
}

impl View for HttpResponseSentence {
    type V = SentenceView;

    open spec fn view(&self) -> SentenceView {
        self.deep_view()
    }
}

/// What a [`SearchResultEntry`] is, as a value of the specification.
pub struct EntryView {
    pub word: Seq<char>,
    pub reverse_translation: Seq<Seq<char>>,
    pub score: Option<Confidence>,
}

/// One sense in a dictionary block.
#[derive(Debug)]
pub struct SearchResultEntry {
    pub word: String,
    pub reverse_translation: Vec<String>,
    pub score: Option<Confidence>,
}

impl DeepView for SearchResultEntry {
    type V = EntryView;

    open spec fn deep_view(&self) -> EntryView {
        EntryView {
            word: self.word@,
            reverse_translation: self.reverse_translation.deep_view(),
            score: self.score,
        }
    }
}

impl View for SearchResultEntry {
    type V = EntryView;

    open spec fn view(&self) -> EntryView {
        self.deep_view()
    }
}

impl Clone for SearchResultEntry {
    fn clone(&self) -> (copy: SearchResultEntry)
        ensures
            copy@ == self@,
    {
        SearchResultEntry {
            word: self.word.clone(),
            reverse_translation: copy_of_texts(&self.reverse_translation),
            score: self.score,
        }
    }
}

/// A copy of a list of senses.
fn copy_of_entries(entries: &Vec<SearchResultEntry>) -> (copy: Vec<SearchResultEntry>)
    ensures
        copy.deep_view() == entries.deep_view(),
{
    let mut copy: Vec<SearchResultEntry> = Vec::new();
    let mut i: usize = 0;
    while i < entries.len()
        invariant
            i <= entries.len(),
            copy.deep_view() == entries.deep_view().take(i as int),
        decreases entries.len() - i,
    {
        let entry = entries[i].clone();
        proof {
            lemma_deep_push(copy@, entry);
            lemma_take_next(entries.deep_view(), i as int);
        }
        copy.push(entry);
        i = i + 1;
    }
    proof {
        lemma_deep_take(entries@, i as int);
    }
    copy
}

/// What an [`HttpResponseDict`] is, as a value of the specification.
pub struct HttpDictView {
    pub pos: Seq<char>,
    pub terms: Seq<Seq<char>>,
    pub entry: Seq<EntryView>,
    pub base_form: Seq<char>,
    pub pos_enum: i32,
}

/// One member of the answer's `dict`: the senses of one part of speech.
#[derive(Debug, Clone)]
pub struct HttpResponseDict {
    pub pos: String,
    pub terms: Vec<String>,
    pub entry: Vec<SearchResultEntry>,
    pub base_form: String,
    pub pos_enum: i32,
}

impl DeepView for HttpResponseDict {
    type V = HttpDictView;

    open spec fn deep_view(&self) -> HttpDictView {
        HttpDictView {
            pos: self.pos@,
            terms: self.terms.deep_view(),
            entry: self.entry.deep_view(),
            base_form: self.base_form@,
            pos_enum: self.pos_enum,
        }
    }
}

impl View for HttpResponseDict {
    type V = HttpDictView;

    open spec fn view(&self) -> HttpDictView {
        self.deep_view()
    }
}

/// What an [`HttpResponse`] is, as a value of the specification.
pub struct HttpResponseView {
    pub dict: Option<Seq<Option<HttpDictView>>>,
    pub sentences: Option<Seq<Option<SentenceView>>>,
    pub src: Seq<char>,
    pub confidence: Option<Confidence>,
}

/// The provider's answer, member by member. Members of the answer that the
/// library does not read have no field here.
#[derive(Debug, Clone)]
pub struct HttpResponse {
    pub dict: Option<Vec<Option<HttpResponseDict>>>,
    pub sentences: Option<Vec<Option<HttpResponseSentence>>>,
    pub src: String,
    pub confidence: Option<Confidence>,
}

impl DeepView for HttpResponse {
    type V = HttpResponseView;

    open spec fn deep_view(&self) -> HttpResponseView {
        HttpResponseView {
            dict: self.dict.deep_view(),
            sentences: self.sentences.deep_view(),
            src: self.src@,
            confidence: self.confidence,
        }
    }
}

impl View for HttpResponse {
    type V = HttpResponseView;

    open spec fn view(&self) -> HttpResponseView {
        self.deep_view()
    }
}

/// What a [`SearchResultDict`] is, as a value of the specification.
pub struct DictView {
    pub pos: Seq<char>,
    pub entry: Seq<EntryView>,
}

/// The senses of one part of speech.
#[derive(Debug, Clone)]
pub struct SearchResultDict {
    pub pos: String,
    pub entry: Vec<SearchResultEntry>,
}

impl DeepView for SearchResultDict {
    type V = DictView;

    open spec fn deep_view(&self) -> DictView {
        DictView { pos: self.pos@, entry: self.entry.deep_view() }
    }
}

impl View for SearchResultDict {
    type V = DictView;

    open spec fn view(&self) -> DictView {
        self.deep_view()
    }
}

impl HttpDictView {
    /// The block without the members that nothing reads.
    pub open spec fn trimmed(self) -> DictView {
        DictView { pos: self.pos, entry: self.entry }
    }
}

impl SearchResultDict {
    /// Keep the part of speech and the senses of a block of the answer.
    pub fn from(value: HttpResponseDict) -> (dict: SearchResultDict)
        ensures
            dict@ == value@.trimmed(),
    {
        SearchResultDict { pos: value.pos, entry: value.entry }
    }

    /// As [`SearchResultDict::from`], on a borrowed block.
    fn from_ref(value: &HttpResponseDict) -> (dict: SearchResultDict)
        ensures
            dict@ == value@.trimmed(),
    {
        SearchResultDict { pos: value.pos.clone(), entry: copy_of_entries(&value.entry) }
    }
}

/// What a [`SearchResult`] is, as a value of the specification.
pub struct AnswerView {
    pub dicts: Option<Seq<DictView>>,
    pub sentence_translation: Option<Seq<(Seq<char>, Seq<char>)>>,
    pub src_translit: Option<Seq<char>>,
    pub translit: Option<Seq<char>>,
    pub src_lang: Seq<char>,
}

/// The search result of google translate.
///
/// [`crate::search::SearchResult::from`] makes the answer of every provider
/// of it.
#[derive(Debug, Clone)]
pub struct SearchResult {
    pub dicts: Option<Vec<SearchResultDict>>,
    pub sentence_translation: Option<Vec<(String, String)>>,
    pub src_translit: Option<String>,
    pub translit: Option<String>,
    pub src_lang: String,
}

impl DeepView for SearchResult {
    type V = AnswerView;

    open spec fn deep_view(&self) -> AnswerView {
        AnswerView {
            dicts: self.dicts.deep_view(),
            sentence_translation: self.sentence_translation.deep_view(),
            src_translit: self.src_translit.deep_view(),
            translit: self.translit.deep_view(),
            src_lang: self.src_lang@,
        }
    }
}

impl View for SearchResult {
    type V = AnswerView;

    open spec fn view(&self) -> AnswerView {
        self.deep_view()
    }
}

/// The last member of `sentences` that is there.
pub open spec fn last_present(sentences: Seq<Option<SentenceView>>) -> Option<SentenceView>
    decreases sentences.len(),
{
    if sentences.len() == 0 {
        None
    } else {
        match sentences.last() {
            Some(sentence) => Some(sentence),
            None => last_present(sentences.drop_last()),
        }
    }
}

/// The sentence and its translation, where a member has both.
pub open spec fn pair_of(sentence: Option<SentenceView>) -> Option<(Seq<char>, Seq<char>)> {
    match sentence {
        Some(sentence) => if sentence.orig is Some && sentence.trans is Some {
            Some((sentence.orig->0, sentence.trans->0))
        } else {
            None
        },
        None => None,
    }
}

/// The block of a member of `dict` that is there.
pub open spec fn block_of(dict: Option<HttpDictView>) -> Option<DictView> {
    match dict {
        Some(dict) => Some(dict.trimmed()),
        None => None,
    }
}

/// The pairs of the members of `sentences` that have both halves, in order.
pub open spec fn pairs_of(sentences: Seq<Option<SentenceView>>) -> Seq<(Seq<char>, Seq<char>)> {
    sentences.filter_map(|sentence: Option<SentenceView>| pair_of(sentence))
}

/// The blocks of the members of `dict` that are there, in order.
pub open spec fn blocks_of(dict: Seq<Option<HttpDictView>>) -> Seq<DictView> {
    dict.filter_map(|dict: Option<HttpDictView>| block_of(dict))
}

impl HttpResponseView {
    /// The members of `sentences`; none where the answer has no such member.
    pub open spec fn all_sentences(self) -> Seq<Option<SentenceView>> {
        match self.sentences {
            Some(sentences) => sentences,
            None => Seq::empty(),
        }
    }

    /// What the library reads in the answer.
    ///
    /// The two transliterations are those of the last sentence that is
    /// there, the translations are the sentences with both halves (none at
    /// all where there is no such sentence), and the dictionary blocks are
    /// those that are there.
    pub open spec fn read(self) -> AnswerView {
        let last = last_present(self.all_sentences());
        let pairs = pairs_of(self.all_sentences());
        AnswerView {
            dicts: match self.dict {
                Some(dict) => Some(blocks_of(dict)),
                None => None,
            },
            sentence_translation: if pairs.len() == 0 {
                None
            } else {
                Some(pairs)
            },
            src_translit: match last {
                Some(sentence) => sentence.src_translit,
                None => None,
            },
            translit: match last {
                Some(sentence) => sentence.translit,
                None => None,
            },
            src_lang: self.src,
        }
    }
}

/// The pairs of one more member.
proof fn lemma_pairs_next(sentences: Seq<Option<SentenceView>>, n: int)
    requires
        0 <= n < sentences.len(),
    ensures
        pairs_of(sentences.take(n + 1)) == match pair_of(sentences[n]) {
            Some(pair) => pairs_of(sentences.take(n)).push(pair),
            None => pairs_of(sentences.take(n)),
        },
{
    let keep = |sentence: Option<SentenceView>| pair_of(sentence);
    sentences.lemma_filter_map_take_succ(keep, n);
    match pair_of(sentences[n]) {
        Some(pair) => {
            assert(pairs_of(sentences.take(n)) + seq![pair] =~= pairs_of(sentences.take(n)).push(
                pair,
            ));
        },
        None => {
            assert(pairs_of(sentences.take(n)) + Seq::empty() =~= pairs_of(sentences.take(n)));
        },
    }
}

/// The blocks of one more member.
proof fn lemma_blocks_next(dict: Seq<Option<HttpDictView>>, n: int)
    requires
        0 <= n < dict.len(),
    ensures
        blocks_of(dict.take(n + 1)) == match block_of(dict[n]) {
            Some(block) => blocks_of(dict.take(n)).push(block),
            None => blocks_of(dict.take(n)),
        },
{
    let keep = |dict: Option<HttpDictView>| block_of(dict);
    dict.lemma_filter_map_take_succ(keep, n);
    match block_of(dict[n]) {
        Some(block) => {
            assert(blocks_of(dict.take(n)) + seq![block] =~= blocks_of(dict.take(n)).push(block));
        },
        None => {
            assert(blocks_of(dict.take(n)) + Seq::empty() =~= blocks_of(dict.take(n)));
        },
    }
}

impl SearchResult {
    /// Read the provider's answer; see [`HttpResponseView::read`]. Every
    /// answer can be read.
    pub fn try_from(value: HttpResponse) -> (outcome: Result<SearchResult, TranslateError>)
        ensures
            outcome matches Ok(answer) && answer@ == value@.read(),
    {
        let mut src_translit: Option<String> = None;
        let mut translit: Option<String> = None;
        let mut translations: Vec<(String, String)> = Vec::new();
        if let Some(sentences) = &value.sentences {
            let ghost all = sentences.deep_view();
            let mut i: usize = 0;
            assert(all.take(0) =~= Seq::empty());
            while i < sentences.len()
                invariant
                    i <= sentences.len(),
                    all == sentences.deep_view(),
                    translations.deep_view() == pairs_of(all.take(i as int)),
                    src_translit.deep_view() == match last_present(all.take(i as int)) {
                        Some(sentence) => sentence.src_translit,
                        None => None,
                    },
                    translit.deep_view() == match last_present(all.take(i as int)) {
                        Some(sentence) => sentence.translit,
                        None => None,
                    },
                decreases sentences.len() - i,
            {
                proof {
                    lemma_pairs_next(all, i as int);
                    lemma_take_next(all, i as int);
                    assert(all.take(i + 1).drop_last() =~= all.take(i as int));
                }
                if let Some(sentence) = &sentences[i] {
                    translit = copy_of_text(&sentence.translit);
                    src_translit = copy_of_text(&sentence.src_translit);
                    if let Some(orig) = &sentence.orig {
                        if let Some(trans) = &sentence.trans {
                            let pair = (orig.clone(), trans.clone());
                            proof {
                                lemma_deep_push(translations@, pair);
                            }
                            translations.push(pair);
                        }
                    }
                }
                i = i + 1;
            }
            assert(all.take(i as int) =~= all);
        }
        let sentence_translation = if translations.len() == 0 {
            None
        } else {
            Some(translations)
        };
        let dicts = match &value.dict {
            Some(dict) => {
                let ghost all = dict.deep_view();
                let mut blocks: Vec<SearchResultDict> = Vec::new();
                let mut i: usize = 0;
                assert(all.take(0) =~= Seq::empty());
                while i < dict.len()
                    invariant
                        i <= dict.len(),
                        all == dict.deep_view(),
                        blocks.deep_view() == blocks_of(all.take(i as int)),
                    decreases dict.len() - i,
                {
                    proof {
                        lemma_blocks_next(all, i as int);
                    }
                    if let Some(block) = &dict[i] {
                        let kept = SearchResultDict::from_ref(block);
                        proof {
                            lemma_deep_push(blocks@, kept);
                        }
                        blocks.push(kept);
                    }
                    i = i + 1;
                }
                assert(all.take(i as int) =~= all);
                Some(blocks)
            },
            None => None,
        };
        Ok(SearchResult { dicts, sentence_translation, src_translit, translit, src_lang: value.src })
    }
}

/// The sense that an entry of a dictionary block stands for.
pub open spec fn sense_of(pos: Seq<char>, entry: EntryView) -> DefinitionView {
    DefinitionView {
        meaning: entry.word,
        pos,
        reverse_translation: Some(entry.reverse_translation),
        confidence: entry.score,
        examples: None,
    }
}

/// The senses of a dictionary block, in its order.
pub open spec fn senses_of(block: DictView) -> Seq<DefinitionView> {
    block.entry.map_values(|entry: EntryView| sense_of(block.pos, entry))
}

/// The senses of all blocks, block after block.
pub open spec fn all_senses(blocks: Seq<DictView>) -> Seq<DefinitionView> {
    flat_map(blocks, |block: DictView| senses_of(block))
}

/// A sentence and its translation as the answer of every provider holds
/// them.
pub open spec fn translation_of(pair: (Seq<char>, Seq<char>)) -> PairView {
    PairView { orig: Some(pair.0), translated: Some(pair.1) }
}

impl AnswerView {
    /// The answer as the answer of every provider.
    ///
    /// The senses of all blocks are put in descending order of confidence,
    /// the translations are kept, and the two transliterations make a
    /// section where both are there. A section that would hold nothing is
    /// left out.
    pub open spec fn generalized(self) -> SearchResultView {
        SearchResultView {
            provider: SearchProvider::GoogleTranslate,
            translations: match self.sentence_translation {
                Some(pairs) => if pairs.len() == 0 {
                    None
                } else {
                    Some(pairs.map_values(|pair: (Seq<char>, Seq<char>)| translation_of(pair)))
                },
                None => None,
            },
            definitions: match self.dicts {
                Some(blocks) => if all_senses(blocks).len() == 0 {
                    None
                } else {
                    Some(by_confidence(all_senses(blocks)))
                },
                None => None,
            },
            src_lang: Some(self.src_lang),
            literation: if self.src_translit is Some && self.translit is Some {
                Some(PairView { orig: self.src_translit, translated: self.translit })
            } else {
                None
            },
        }
    }
}

/// The answer that the library builds of a reply is well formed.
pub proof fn lemma_generalized_well_formed(answer: AnswerView)
    ensures
        answer.generalized().well_formed(),
{
    if let Some(blocks) = answer.dicts {
        lemma_by_confidence_descending(all_senses(blocks));
    }
}

/// The senses of one more block.
proof fn lemma_all_senses_next(blocks: Seq<DictView>, n: int)
    requires
        0 <= n < blocks.len(),
    ensures
        all_senses(blocks.take(n + 1)) == all_senses(blocks.take(n)) + senses_of(blocks[n]),
{
    lemma_flat_map_next(blocks, |block: DictView| senses_of(block), n);
}

impl crate::search::SearchResult {
    /// Make the answer of every provider of an answer of this one; see
    /// [`AnswerView::generalized`].
    pub fn from(value: SearchResult) -> (result: crate::search::SearchResult)
        ensures
            result@ == value@.generalized(),
            result@.well_formed(),
    {
        proof {
            lemma_generalized_well_formed(value@);
        }
        let definitions: Option<Vec<Definition>> = match &value.dicts {
            Some(dicts) => {
                let ghost blocks = dicts.deep_view();
                let mut res: Vec<Definition> = Vec::new();
                let mut i: usize = 0;
                proof {
                    lemma_flat_map_none(blocks, |block: DictView| senses_of(block));
                }
                while i < dicts.len()
                    invariant
                        i <= dicts.len(),
                        blocks == dicts.deep_view(),
                        res.deep_view() == by_confidence(all_senses(blocks.take(i as int))),
                    decreases dicts.len() - i,
                {
                    let dict_pos = &dicts[i];
                    let ghost before = all_senses(blocks.take(i as int));
                    let ghost senses = senses_of(blocks[i as int]);
                    let mut j: usize = 0;
                    assert(before + senses.take(0) =~= before);
                    while j < dict_pos.entry.len()
                        invariant
                            j <= dict_pos.entry.len(),
                            dict_pos.deep_view() == blocks[i as int],
                            senses == senses_of(blocks[i as int]),
                            res.deep_view() == by_confidence(before + senses.take(j as int)),
                        decreases dict_pos.entry.len() - j,
                    {
                        let entry = &dict_pos.entry[j];
                        let sense = Definition {
                            meaning: entry.word.clone(),
                            pos: dict_pos.pos.clone(),
                            reverse_translation: Some(copy_of_texts(&entry.reverse_translation)),
                            confidence: entry.score,
                            examples: None,
                        };
                        proof {
                            assert(sense@ == senses[j as int]);
                            let longer = before + senses.take(j + 1);
                            assert(longer.drop_last() =~= before + senses.take(j as int));
                            assert(longer.last() == senses[j as int]);
                        }
                        insert_by_confidence(&mut res, sense);
                        j = j + 1;
                    }
                    proof {
                        assert(senses.take(j as int) =~= senses);
                        lemma_all_senses_next(blocks, i as int);
                    }
                    i = i + 1;
                }
                proof {
                    lemma_flat_map_none(blocks, |block: DictView| senses_of(block));
                }
                if res.len() == 0 {
                    None
                } else {
                    Some(res)
                }
            },
            None => None,
        };
        let translations: Option<Vec<Translation>> = match &value.sentence_translation {
            Some(sentences) => {
                let ghost pairs = sentences.deep_view();
                let ghost each = |pair: (Seq<char>, Seq<char>)| translation_of(pair);
                let mut res: Vec<Translation> = Vec::new();
                let mut i: usize = 0;
                while i < sentences.len()
                    invariant
                        i <= sentences.len(),
                        pairs == sentences.deep_view(),
                        each == |pair: (Seq<char>, Seq<char>)| translation_of(pair),
                        res.deep_view() == pairs.take(i as int).map_values(each),
                    decreases sentences.len() - i,
                {
                    let translation = Translation::from(&sentences[i]);
                    proof {
                        lemma_deep_push(res@, translation);
                        assert(pairs.take(i + 1).map_values(each) =~= pairs.take(
                            i as int,
                        ).map_values(each).push(translation@));
                    }
                    res.push(translation);
                    i = i + 1;
                }
                assert(pairs.take(i as int) =~= pairs);
                if res.len() == 0 {
                    None
                } else {
                    Some(res)
                }
            },
            None => None,
        };
        let literation = if value.src_translit.is_some() && value.translit.is_some() {
            Some(Literation { orig: value.src_translit, translated: value.translit })
        } else {
            None
        };
        crate::search::SearchResult {
            provider: SearchProvider::GoogleTranslate,
            translations,
            src_lang: Some(value.src_lang),
            literation,
            definitions,
        }
    }
}

impl Translation {
    /// A sentence and its translation, both there.
    pub fn from(value: &(String, String)) -> (translation: Translation)
        ensures
            translation@ == translation_of(value.deep_view()),
    {
        Translation { orig: Some(value.0.clone()), translated: Some(value.1.clone()) }
    }
}

/// Whether a character ends a sentence.
pub open spec fn ends_sentence(c: char) -> bool {
    c == '.' || c == '?' || c == '!'
}

/// How many characters the first sentence of a text has: up to and with the
/// first character that ends a sentence, or all of them.
pub open spec fn first_sentence_len(text: Seq<char>) -> nat
    decreases text.len(),
{
    if text.len() == 0 {
        0
    } else if ends_sentence(text[0]) {
        1
    } else {
        1 + first_sentence_len(text.skip(1))
    }
}

/// One sentence as a line of a section: a tab, the sentence without the
/// space it may begin with, and a line break.
pub open spec fn section_line(sentence: Seq<char>) -> Seq<char> {
    "\t"@ + (if sentence.len() > 0 && sentence[0] == ' ' {
        sentence.skip(1)
    } else {
        sentence
    }) + "\n"@
}

/// A text as a section: each of its sentences on a line of its own.
pub open spec fn section_text(text: Seq<char>) -> Seq<char>
    decreases text.len(),
{
    if text.len() == 0 {
        Seq::empty()
    } else {
        let n = first_sentence_len(text) as int;
        if 0 < n <= text.len() {
            section_line(text.take(n)) + section_text(text.skip(n))
        } else {
            Seq::empty()
        }
    }
}

/// The first sentence reaches as far as the first character that ends one.
proof fn lemma_first_sentence(text: Seq<char>, n: int)
    requires
        0 <= n <= text.len(),
        forall|k: int| 0 <= k < n ==> !ends_sentence(#[trigger] text[k]),
        n < text.len() ==> ends_sentence(text[n]),
    ensures
        first_sentence_len(text) == if n < text.len() {
            n + 1
        } else {
            n
        },
    decreases n,
{
    if text.len() == 0 {
    } else if n == 0 {
    } else {
        assert(!ends_sentence(text[0]));
        let rest = text.skip(1);
        assert forall|k: int| 0 <= k < n - 1 implies !ends_sentence(#[trigger] rest[k]) by {
            assert(rest[k] == text[k + 1]);
        }
        lemma_first_sentence(rest, n - 1);
    }
}

/// One sentence as a line; see [`section_line`].
fn format_sentence(sentence: &str) -> (line: String)
    ensures
        line@ == section_line(sentence@),
{
    let mut line = String::from_str("\t");
    let len = sentence.unicode_len();
    if len > 0 && sentence.get_char(0) == ' ' {
        line.append(sentence.substring_char(1, len));
        assert(sentence@.subrange(1, len as int) =~= sentence@.skip(1));
    } else {
        line.append(sentence);
    }
    line.append("\n");
    line
}

/// Formats the section: each sentence of `translit` on a line of its own,
/// behind a tab; see [`section_text`].
pub fn pretty_format_section(translit: &str) -> (section: String)
    ensures
        section@ == section_text(translit@),
{
    let ghost text = translit@;
    let len = translit.unicode_len();
    let mut section = String::new();
    let mut start: usize = 0;
    let mut i: usize = 0;
    assert(text.skip(0) =~= text);
    while i < len
        invariant
            text == translit@,
            len == text.len(),
            start <= i <= len,
            forall|k: int| start <= k < i ==> !ends_sentence(#[trigger] text[k]),
            section_text(text) == section@ + section_text(text.skip(start as int)),
        decreases len - i,
    {
        let c = translit.get_char(i);
        if c == '.' || c == '?' || c == '!' {
            let sentence = translit.substring_char(start, i + 1);
            let line = format_sentence(sentence);
            proof {
                let rest = text.skip(start as int);
                assert forall|k: int| 0 <= k < i - start implies !ends_sentence(
                    #[trigger] rest[k],
                ) by {
                    assert(rest[k] == text[start + k]);
                }
                lemma_first_sentence(rest, i - start);
                assert(rest.take(i + 1 - start) =~= text.subrange(start as int, i + 1));
                assert(rest.skip(i + 1 - start) =~= text.skip(i + 1));
                assert(section@ + (line@ + section_text(text.skip(i + 1))) =~= (section@ + line@)
                    + section_text(text.skip(i + 1)));
            }
            section.append(line.as_str());
            start = i + 1;
        }
        i = i + 1;
    }
    if start < len {
        let sentence = translit.substring_char(start, len);
        let line = format_sentence(sentence);
        proof {
            let rest = text.skip(start as int);
            assert forall|k: int| 0 <= k < len - start implies !ends_sentence(
                #[trigger] rest[k],
            ) by {
                assert(rest[k] == text[start + k]);
            }
            lemma_first_sentence(rest, len - start);
            assert(rest.take(len - start) =~= text.subrange(start as int, len as int));
            assert(rest.skip(len - start).len() == 0);
            assert(section_text(rest.skip(len - start)) =~= Seq::<char>::empty());
            assert(section_text(rest) == line@ + section_text(rest.skip(len - start)));
            assert(section@ + (line@ + Seq::<char>::empty()) =~= section@ + line@);
        }
        section.append(line.as_str());
    } else {
        proof {
            assert(text.skip(start as int).len() == 0);
            assert(section_text(text.skip(start as int)) =~= Seq::<char>::empty());
            assert(section@ + Seq::<char>::empty() =~= section@);
        }
    }
    section
}

/// A sentence and its translation, each on a line behind a tab.
pub open spec fn pair_text(pair: (Seq<char>, Seq<char>)) -> Seq<char> {
    "\t"@ + pair.0 + "\n"@ + "\t"@ + pair.1 + "\n"@
}

/// A word and the space behind it.
pub open spec fn spaced(word: Seq<char>) -> Seq<char> {
    word + " "@
}

/// The words of a list, a space behind each.
pub open spec fn spaced_words(words: Seq<Seq<char>>) -> Seq<char> {
    flat_map(words, |word: Seq<char>| spaced(word))
}

/// A sense: the word behind a tab, its score in brackets where it has one,
/// a colon, and on the next line behind two tabs what the word means.
pub open spec fn entry_text(entry: EntryView) -> Seq<char> {
    "\t"@ + entry.word + (match entry.score {
        Some(score) => " ("@ + score.text() + "):\n\t\t"@,
        None => ":\n\t\t"@,
    }) + spaced_words(entry.reverse_translation) + "\n"@
}

/// A dictionary block: its part of speech, then its senses.
pub open spec fn block_text(block: DictView) -> Seq<char> {
    "pos: "@ + block.pos + "\n"@ + flat_map(block.entry, |entry: EntryView| entry_text(entry))
}

impl AnswerView {
    /// The answer as plain text: the language, the translations, the
    /// dictionary blocks and the two transliterations, each part only where
    /// it is there.
    pub open spec fn text(self) -> Seq<char> {
        "src lang: "@ + self.src_lang + "\n"@ + (match self.sentence_translation {
            Some(pairs) => "translations:\n"@ + flat_map(
                pairs,
                |pair: (Seq<char>, Seq<char>)| pair_text(pair),
            ),
            None => Seq::empty(),
        }) + (match self.dicts {
            Some(blocks) => flat_map(blocks, |block: DictView| block_text(block)),
            None => Seq::empty(),
        }) + (match self.src_translit {
            Some(text) => "src_translit:\n"@ + section_text(text),
            None => Seq::empty(),
        }) + (match self.translit {
            Some(text) => "translit:\n"@ + section_text(text),
            None => Seq::empty(),
        })
    }
}

/// The words of a list, a space behind each.
fn format_words(words: &Vec<String>) -> (text: String)
    ensures
        text@ == spaced_words(words.deep_view()),
{
    let ghost all = words.deep_view();
    let mut text = String::new();
    let mut i: usize = 0;
    proof {
        lemma_flat_map_none(all, |word: Seq<char>| spaced(word));
    }
    while i < words.len()
        invariant
            i <= words.len(),
            all == words.deep_view(),
            text@ == spaced_words(all.take(i as int)),
        decreases words.len() - i,
    {
        proof {
            lemma_flat_map_next(all, |word: Seq<char>| spaced(word), i as int);
            assert(text@ + (all[i as int] + " "@) =~= text@ + all[i as int] + " "@);
        }
        text.append(words[i].as_str());
        text.append(" ");
        i = i + 1;
    }
    proof {
        lemma_flat_map_none(all, |word: Seq<char>| spaced(word));
    }
    text
}

/// A sense as text; see [`entry_text`].
fn format_entry(entry: &SearchResultEntry) -> (text: String)
    ensures
        text@ == entry_text(entry@),
{
    let mut text = String::from_str("\t");
    text.append(entry.word.as_str());
    match &entry.score {
        Some(score) => {
            let shown = score.to_text();
            text.append(" (");
            text.append(shown.as_str());
            text.append("):\n\t\t");
        },
        None => {
            text.append(":\n\t\t");
        },
    }
    let words = format_words(&entry.reverse_translation);
    text.append(words.as_str());
    text.append("\n");
    assert(text@ =~= entry_text(entry@));
    text
}

/// A dictionary block as text; see [`block_text`].
fn format_block(block: &SearchResultDict) -> (text: String)
    ensures
        text@ == block_text(block@),
{
    let ghost all = block.entry.deep_view();
    let ghost head = "pos: "@ + block.pos@ + "\n"@;
    let mut text = String::from_str("pos: ");
    text.append(block.pos.as_str());
    text.append("\n");
    let mut i: usize = 0;
    proof {
        lemma_flat_map_none(all, |entry: EntryView| entry_text(entry));
        assert(head + Seq::<char>::empty() =~= head);
    }
    while i < block.entry.len()
        invariant
            i <= block.entry.len(),
            all == block.entry.deep_view(),
            text@ == head + flat_map(all.take(i as int), |entry: EntryView| entry_text(entry)),
        decreases block.entry.len() - i,
    {
        let line = format_entry(&block.entry[i]);
        proof {
            lemma_flat_map_next(all, |entry: EntryView| entry_text(entry), i as int);
            let done = flat_map(all.take(i as int), |entry: EntryView| entry_text(entry));
            assert((head + done) + line@ =~= head + (done + line@));
        }
        text.append(line.as_str());
        i = i + 1;
    }
    proof {
        lemma_flat_map_none(all, |entry: EntryView| entry_text(entry));
    }
    text
}

impl SearchResult {
    /// The answer as plain text; see [`AnswerView::text`].
    pub fn to_string(&self) -> (text: String)
        ensures
            text@ == self@.text(),
    {
        let mut text = String::from_str("src lang: ");
        text.append(self.src_lang.as_str());
        text.append("\n");
        let ghost head = text@;
        if let Some(translations) = &self.sentence_translation {
            let ghost all = translations.deep_view();
            text.append("translations:\n");
            let ghost before = text@;
            let mut i: usize = 0;
            proof {
                lemma_flat_map_none(all, |pair: (Seq<char>, Seq<char>)| pair_text(pair));
                assert(before + Seq::<char>::empty() =~= before);
            }
            while i < translations.len()
                invariant
                    i <= translations.len(),
                    all == translations.deep_view(),
                    text@ == before + flat_map(
                        all.take(i as int),
                        |pair: (Seq<char>, Seq<char>)| pair_text(pair),
                    ),
                decreases translations.len() - i,
            {
                let ghost done = text@;
                text.append("\t");
                text.append(translations[i].0.as_str());
                text.append("\n");
                text.append("\t");
                text.append(translations[i].1.as_str());
                text.append("\n");
                proof {
                    lemma_flat_map_next(
                        all,
                        |pair: (Seq<char>, Seq<char>)| pair_text(pair),
                        i as int,
                    );
                    assert(text@ =~= done + pair_text(all[i as int]));
                    let made = flat_map(
                        all.take(i as int),
                        |pair: (Seq<char>, Seq<char>)| pair_text(pair),
                    );
                    assert((before + made) + pair_text(all[i as int]) =~= before + (made
                        + pair_text(all[i as int])));
                }
                i = i + 1;
            }
            proof {
                lemma_flat_map_none(all, |pair: (Seq<char>, Seq<char>)| pair_text(pair));
                assert(before =~= head + "translations:\n"@);
                let made = flat_map(all, |pair: (Seq<char>, Seq<char>)| pair_text(pair));
                assert((head + "translations:\n"@) + made =~= head + ("translations:\n"@ + made));
            }
        } else {
            assert(head + Seq::<char>::empty() =~= head);
        }
        let ghost second = text@;
        if let Some(dicts) = &self.dicts {
            let ghost all = dicts.deep_view();
            let mut i: usize = 0;
            proof {
                lemma_flat_map_none(all, |block: DictView| block_text(block));
                assert(second + Seq::<char>::empty() =~= second);
            }
            while i < dicts.len()
                invariant
                    i <= dicts.len(),
                    all == dicts.deep_view(),
                    text@ == second + flat_map(
                        all.take(i as int),
                        |block: DictView| block_text(block),
                    ),
                decreases dicts.len() - i,
            {
                let block = format_block(&dicts[i]);
                proof {
                    lemma_flat_map_next(all, |block: DictView| block_text(block), i as int);
                    let made = flat_map(all.take(i as int), |block: DictView| block_text(block));
                    assert((second + made) + block@ =~= second + (made + block@));
                }
                text.append(block.as_str());
                i = i + 1;
            }
            proof {
                lemma_flat_map_none(all, |block: DictView| block_text(block));
            }
        } else {
            assert(second + Seq::<char>::empty() =~= second);
        }
        let ghost third = text@;
        if let Some(src_translit) = &self.src_translit {
            let section = pretty_format_section(src_translit.as_str());
            text.append("src_translit:\n");
            text.append(section.as_str());
            assert(text@ =~= third + ("src_translit:\n"@ + section@));
        } else {
            assert(third + Seq::<char>::empty() =~= third);
        }
        let ghost fourth = text@;
        if let Some(translit) = &self.translit {
            let section = pretty_format_section(translit.as_str());
            text.append("translit:\n");
            text.append(section.as_str());
            assert(text@ =~= fourth + ("translit:\n"@ + section@));
        } else {
            assert(fourth + Seq::<char>::empty() =~= fourth);
        }
        text
    }
}

/// The address that `reqwest::Url::parse_with_params` makes of a base
/// address and the parameters of a query, or the text of its error.
pub uninterp spec fn address_of(base: Seq<char>, params: Seq<(Seq<char>, Seq<char>)>) -> Result<
    Seq<char>,
    Seq<char>,
>;

/// The characters of an address or of the reason why there is none.
pub open spec fn address_view(address: Result<String, String>) -> Result<Seq<char>, Seq<char>> {
    match address {
        Ok(address) => Ok(address@),
        Err(reason) => Err(reason@),
    }
}

/// `reqwest::Url::parse_with_params`, the address handed on as text and the
/// error as its message. Believed of it: the result depends on the
/// characters of `base` and of the parameters alone. A base with a fragment
/// or of great length is left out, as the call can panic on those when the
/// address outgrows 32 bits.
#[verifier::external_body]
fn address_with_params(base: &str, params: &Vec<(String, String)>) -> (address: Result<
    String,
    String,
>)
    requires
        !base@.contains('#'),
        base@.len() < 0x1000_0000,
    ensures
        address_view(address) == address_of(base@, params.deep_view()),
{
    match reqwest::Url::parse_with_params(base, params) {
        Ok(url) => Ok(url.into()),
        Err(error) => Err(error.to_string()),
    }
}

/// Where the provider is asked.
pub open spec fn endpoint() -> Seq<char> {
    "https://clients5.google.com/translate_a/single"@
}

/// The ISO 639-1 code of a language that may be missing: none for no
/// language, and for a language what `isolang` says of its code.
pub open spec fn short_code_of_any(language: Option<Seq<char>>) -> Option<Option<Seq<char>>> {
    match language {
        Some(code) => Some(short_code_of(code)),
        None => None,
    }
}

/// The parameters of the request for a query, given the ISO 639-1 codes of
/// the two languages (none: no language; none inside: a language without
/// such a code), or why the provider cannot be asked: it needs a language
/// to translate into, and one that has an ISO 639-1 code. A source language
/// without such a code is left to the provider to detect, as a missing one
/// is.
pub open spec fn params_of(
    source: Option<Option<Seq<char>>>,
    target: Option<Option<Seq<char>>>,
    query: Seq<char>,
) -> Result<Seq<(Seq<char>, Seq<char>)>, Seq<char>> {
    match target {
        None => Err("google translate requires a destination language"@),
        Some(None) => Err("The language specified doesn't have a iso639-1 language code"@),
        Some(Some(short)) => Ok(
            seq![
                ("dj"@, "1"@),
                ("dt"@, "at"@),
                ("dt"@, "bd"@),
                ("dt"@, "rm"@),
                ("dt"@, "rw"@),
                ("dt"@, "sp"@),
                ("dt"@, "ss"@),
                ("dt"@, "t"@),
                ("client"@, "dict-chrome-ex"@),
                (
                    "sl"@,
                    match source {
                        Some(Some(short)) => short,
                        _ => "auto"@,
                    },
                ),
                ("tl"@, short),
                ("q"@, query),
            ],
        ),
    }
}

/// The parameters of the request for a question, or why the provider cannot
/// be asked it; see [`params_of`].
pub open spec fn request_params(config: SearchConfigView) -> Result<
    Seq<(Seq<char>, Seq<char>)>,
    Seq<char>,
> {
    params_of(
        short_code_of_any(config.source_language),
        short_code_of_any(config.target_language),
        config.query,
    )
}

/// The view of parameters or an error.
pub open spec fn params_view(outcome: Result<Vec<(String, String)>, TranslateError>) -> Result<
    Seq<(Seq<char>, Seq<char>)>,
    Seq<char>,
> {
    match outcome {
        Ok(params) => Ok(params.deep_view()),
        Err(error) => Err(error@),
    }
}

/// The address to ask for a question, or why the provider cannot be asked.
pub open spec fn request(config: SearchConfigView) -> Result<Seq<char>, Seq<char>> {
    match request_params(config) {
        Ok(params) => address_of(endpoint(), params),
        Err(reason) => Err(reason),
    }
}

/// The view of an address or an error.
pub open spec fn request_view(outcome: Result<String, TranslateError>) -> Result<
    Seq<char>,
    Seq<char>,
> {
    match outcome {
        Ok(address) => Ok(address@),
        Err(error) => Err(error@),
    }
}

/// One parameter of a request.
fn param(name: &str, value: &str) -> (pair: (String, String))
    ensures
        pair.deep_view() == (name@, value@),
{
    (String::from_str(name), String::from_str(value))
}

/// The parameters of the request for a query, given the ISO 639-1 codes of
/// the two languages; see [`params_of`].
pub fn params_from(
    source: Option<Option<String>>,
    target: Option<Option<String>>,
    query: String,
) -> (outcome: Result<Vec<(String, String)>, TranslateError>)
    ensures
        params_view(outcome) == params_of(source.deep_view(), target.deep_view(), query@),
{
    let ghost wanted = params_of(source.deep_view(), target.deep_view(), query@);
    let sl = match source {
        Some(Some(short)) => short,
        _ => String::from_str("auto"),
    };
    let tl = match target {
        Some(Some(short)) => short,
        Some(None) => {
            return Err(
                TranslateError::new("The language specified doesn't have a iso639-1 language code"),
            );
        },
        None => {
            return Err(TranslateError::new("google translate requires a destination language"));
        },
    };
    let mut params: Vec<(String, String)> = Vec::new();
    params.push(param("dj", "1"));
    params.push(param("dt", "at"));
    params.push(param("dt", "bd"));
    params.push(param("dt", "rm"));
    params.push(param("dt", "rw"));
    params.push(param("dt", "sp"));
    params.push(param("dt", "ss"));
    params.push(param("dt", "t"));
    params.push(param("client", "dict-chrome-ex"));
    params.push((String::from_str("sl"), sl));
    params.push((String::from_str("tl"), tl));
    params.push((String::from_str("q"), query));
    assert(params.deep_view() =~= wanted->Ok_0);
    Ok(params)
}

/// The parameters of the request for a question; see [`request_params`].
pub fn query_params(search_options: &SearchConfig) -> (outcome: Result<
    Vec<(String, String)>,
    TranslateError,
>)
    ensures
        params_view(outcome) == request_params(search_options@),
{
    let source = match &search_options.source_language {
        Some(language) => Some(language.to_639_1()),
        None => None,
    };
    let target = match &search_options.target_language {
        Some(language) => Some(language.to_639_1()),
        None => None,
    };
    params_from(source, target, search_options.query.clone())
}

/// The address to ask, given the parameters and what the address builder
/// made of them: the address, or the first reason why there is none.
pub fn finish_request(
    params: Result<Vec<(String, String)>, TranslateError>,
    address: Result<String, String>,
) -> (outcome: Result<String, TranslateError>)
    ensures
        request_view(outcome) == match params {
            Ok(_) => address_view(address),
            Err(error) => Err(error@),
        },
{
    match params {
        Ok(_) => match address {
            Ok(address) => Ok(address),
            Err(reason) => Err(TranslateError::new(reason.as_str())),
        },
        Err(error) => Err(error),
    }
}

/// The address to ask for a question, or why the provider cannot be asked;
/// see [`request`].
pub fn request_url(search_options: &SearchConfig) -> (outcome: Result<String, TranslateError>)
    ensures
        request_view(outcome) == request(search_options@),
{
    match query_params(search_options) {
        Ok(params) => {
            proof {
                reveal_strlit("https://clients5.google.com/translate_a/single");
            }
            let address = address_with_params(
                "https://clients5.google.com/translate_a/single",
                &params,
            );
            finish_request(Ok(params), address)
        },
        Err(error) => Err(error),
    }
}

/// What the reply to a request holds: what the library reads in it, where
/// there was an address to ask, and else the reason why there was none.
pub open spec fn answer_of(request: Result<Seq<char>, Seq<char>>, reply: HttpResponseView) -> Result<
    AnswerView,
    Seq<char>,
> {
    match request {
        Ok(_) => Ok(reply.read()),
        Err(reason) => Err(reason),
    }
}

/// The view of an answer or an error.
pub open spec fn answer_view(outcome: Result<SearchResult, TranslateError>) -> Result<
    AnswerView,
    Seq<char>,
> {
    match outcome {
        Ok(answer) => Ok(answer@),
        Err(error) => Err(error@),
    }
}

/// What the reply to a request holds; see [`answer_of`].
pub fn read_reply(request: Result<String, TranslateError>, reply: HttpResponse) -> (outcome: Result<
    SearchResult,
    TranslateError,
>)
    ensures
        answer_view(outcome) == answer_of(request_view(request), reply@),
{
    match request {
        Ok(_) => SearchResult::try_from(reply),
        Err(error) => Err(error),
    }
}

/// Looks up the translation on google translate: says what the provider's
/// reply to a question holds. A question that the provider cannot be asked
/// has no answer, whatever the reply; see [`request`] for those.
pub fn lookup_google_translate(search_options: &SearchConfig, reply: HttpResponse) -> (outcome:
    Result<SearchResult, TranslateError>)
    ensures
        answer_view(outcome) == answer_of(request(search_options@), reply@),
{
    read_reply(request_url(search_options), reply)
}

} // verus!
