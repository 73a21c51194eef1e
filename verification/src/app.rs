//! The interaction: a state machine that takes a question through its
//! phases, and the renderer that says what each phase shows.
//!
//! The machine does no input or output. Whoever runs it draws what
//! [`App::render`] returns, reads an event where [`App::wants_input`] says
//! so, hands it to [`App::step`], asks the provider where `step` returns a
//! question, and reports the reply with [`App::lookup_done`]. Until the
//! reply is in, the machine reads no event.

use vstd::pervasive::unreached;
use vstd::prelude::*;
use vstd::string::*;
use crate::language::{label_text, undetermined_code, LanguageId};
use crate::search::{
    outcome_view, parse_lang, resolved, Definition, DefinitionView, LanguageParseError,
    Literation, PairView, SearchConfig, SearchConfigView, SearchResult, SearchResultView,
    Translation,
};
use crate::text::{
    lowercase, push_line, push_span, to_lowercase, Line, LineView, Span, SpanView,
};
use crate::translators::TranslateError;
use crate::views::{flat_map, lemma_flat_map_next, lemma_flat_map_none};

verus! {

/// A blank line and the heading of a section.
pub open spec fn title_lines(title: Seq<char>) -> Seq<LineView> {
    seq![LineView::of(Seq::empty()), LineView::of(seq![SpanView::raw(title).bold().blue()])]
}

/// Put a blank line and the heading of a section at the end of the lines.
pub fn make_title(res: &mut Vec<Line>, title: &str)
    ensures
        final(res).deep_view() == old(res).deep_view() + title_lines(title@),
{
    let blank: Vec<Span> = Vec::new();
    assert(blank.deep_view() =~= Seq::empty());
    push_line(res, Line::from_spans(blank));
    push_line(res, Line::from_span(Span::from_str(title).bold().blue()));
    assert(res.deep_view() =~= old(res).deep_view() + title_lines(title@));
}

/// A word that a sense translates back to, with the space behind it.
pub open spec fn reverse_span(word: Seq<char>) -> SpanView {
    SpanView::raw(word + " "@).italic()
}

/// The spans that say what a sense translates back to: a colon, then the
/// words.
pub open spec fn reverse_spans(words: Option<Seq<Seq<char>>>) -> Seq<SpanView> {
    match words {
        Some(words) => seq![SpanView::raw(": "@)] + words.map_values(
            |word: Seq<char>| reverse_span(word),
        ),
        None => Seq::empty(),
    }
}

/// The line of a sense, given its part of speech as it is to be shown: the
/// meaning, the part of speech in brackets, what the sense translates back
/// to where that is known, and its confidence with three decimals and in
/// brackets where it has one.
pub open spec fn definition_line_with(definition: DefinitionView, pos: Seq<char>) -> LineView {
    LineView::of(
        seq![
            SpanView::raw(definition.meaning).underlined().cyan(),
            SpanView::raw(" ("@ + pos + ")"@).green(),
        ] + reverse_spans(definition.reverse_translation) + (match definition.confidence {
            Some(confidence) => seq![
                SpanView::raw("("@ + confidence.text() + ")"@).dim().italic(),
            ],
            None => Seq::empty(),
        }),
    )
}

/// The line of a sense: as [`definition_line_with`] says, with the part of
/// speech in lower case.
pub open spec fn definition_line(definition: DefinitionView) -> LineView {
    definition_line_with(definition, lowercase(definition.pos))
}

/// The line of an example.
pub open spec fn example_line(example: Seq<char>) -> LineView {
    LineView::of(seq![SpanView::raw(example).italic().dim()])
}

/// The lines of a sense: its own line, then one line for each example.
pub open spec fn definition_lines(definition: DefinitionView) -> Seq<LineView> {
    seq![definition_line(definition)] + (match definition.examples {
        Some(examples) => examples.map_values(|example: Seq<char>| example_line(example)),
        None => Seq::empty(),
    })
}

/// A half of a pair, or no text where the half is missing.
pub open spec fn text_or_empty(text: Option<Seq<char>>) -> Seq<char> {
    match text {
        Some(text) => text,
        None => Seq::empty(),
    }
}

/// The two lines of a translation: the sentence, then what it means. A
/// half that is missing leaves its line empty.
pub open spec fn translation_lines(translation: PairView) -> Seq<LineView> {
    seq![
        LineView::of(seq![SpanView::raw(text_or_empty(translation.orig)).italic()]),
        LineView::of(seq![SpanView::raw(text_or_empty(translation.translated)).bold()]),
    ]
}

/// The lines of a transliteration: one for each half that is there.
pub open spec fn literation_lines(literation: PairView) -> Seq<LineView> {
    (match literation.orig {
        Some(original) => seq![
            LineView::of(
                seq![SpanView::raw("Original  : "@).dim(), SpanView::raw(original).italic()],
            ),
        ],
        None => Seq::empty(),
    }) + (match literation.translated {
        Some(translated) => seq![
            LineView::of(seq![SpanView::raw("Translated: "@).dim(), SpanView::raw(translated)]),
        ],
        None => Seq::empty(),
    })
}

/// The section of the senses: nothing where there are none.
pub open spec fn definitions_section(definitions: Option<Seq<DefinitionView>>) -> Seq<LineView> {
    match definitions {
        Some(definitions) => title_lines("Definitions"@) + flat_map(
            definitions,
            |definition: DefinitionView| definition_lines(definition),
        ),
        None => Seq::empty(),
    }
}

/// The section of the translations: nothing where there are none.
pub open spec fn translations_section(translations: Option<Seq<PairView>>) -> Seq<LineView> {
    match translations {
        Some(translations) => title_lines("Translations"@) + flat_map(
            translations,
            |translation: PairView| translation_lines(translation),
        ),
        None => Seq::empty(),
    }
}

/// The section of the transliteration: nothing where there is none.
pub open spec fn literation_section(literation: Option<PairView>) -> Seq<LineView> {
    match literation {
        Some(literation) => title_lines("Literations"@) + literation_lines(literation),
        None => Seq::empty(),
    }
}

/// The lines of an answer: the senses, the translations and the
/// transliteration, in this order, each under its heading and only where it
/// is there.
pub open spec fn result_lines(result: SearchResultView) -> Seq<LineView> {
    definitions_section(result.definitions) + translations_section(result.translations)
        + literation_section(result.literation)
}

/// The language that a question was asked in, given the one it names and
/// what the provider's detected language resolves to: the named one;
/// failing that, the detected one, where it could be resolved; failing
/// that, none that could be determined.
pub open spec fn source_of(named: Option<Seq<char>>, detected: Result<Seq<char>, Seq<char>>) -> Seq<
    char,
> {
    match named {
        Some(code) => code,
        None => match detected {
            Ok(code) => code,
            Err(_) => undetermined_code(),
        },
    }
}

/// The language that a question asks for: the one it names, or none that
/// could be determined.
pub open spec fn target_of(named: Option<Seq<char>>) -> Seq<char> {
    match named {
        Some(code) => code,
        None => undetermined_code(),
    }
}

/// The language that a question was asked in; see [`source_of`]. The
/// language that the provider detected is resolved as a token of the user
/// is; a provider that detected nothing counts as one that detected the
/// empty token.
pub open spec fn source_shown(config: SearchConfigView, result: SearchResultView) -> Seq<char> {
    source_of(config.source_language, resolved(text_or_empty(result.src_lang)))
}

/// The language that a question asks for; see [`target_of`].
pub open spec fn target_shown(config: SearchConfigView) -> Seq<char> {
    target_of(config.target_language)
}

/// The line that names two languages: where from, an arrow, where to.
pub open spec fn language_line_with(source: Seq<char>, target: Seq<char>) -> LineView {
    LineView::of(
        seq![
            SpanView::raw(source).italic(),
            SpanView::raw(" -> "@).dim(),
            SpanView::raw(target).italic(),
        ],
    ).cyan().right_aligned()
}

/// The line that names the two languages of an answer.
pub open spec fn language_line(config: SearchConfigView, result: SearchResultView) -> LineView {
    language_line_with(
        label_text(source_shown(config, result)),
        label_text(target_shown(config)),
    )
}

/// The line that names the provider of an answer.
pub open spec fn provider_line(result: SearchResultView) -> LineView {
    LineView::of(seq![SpanView::raw(result.provider.name()).bold().cyan()])
}

/// What a [`Panel`] is, as a value of the specification.
pub struct PanelView {
    pub provider: LineView,
    pub language: LineView,
    pub lines: Seq<LineView>,
}

/// An answer laid out: a frame with the provider and the languages in its
/// head, and the lines of the answer in it.
#[derive(Debug)]
pub struct Panel {
    pub provider: Line,
    pub language: Line,
    pub lines: Vec<Line>,
}

impl DeepView for Panel {
    type V = PanelView;

    open spec fn deep_view(&self) -> PanelView {
        PanelView {
            provider: self.provider@,
            language: self.language@,
            lines: self.lines.deep_view(),
        }
    }
}

impl View for Panel {
    type V = PanelView;

    open spec fn view(&self) -> PanelView {
        self.deep_view()
    }
}

/// An answer to a question, laid out.
pub open spec fn panel_of(result: SearchResultView, config: SearchConfigView) -> PanelView {
    PanelView {
        provider: provider_line(result),
        language: language_line(config, result),
        lines: result_lines(result),
    }
}

/// The spans of the words that a sense translates back to.
fn render_reverse(line: &mut Vec<Span>, words: &Vec<String>)
    ensures
        final(line).deep_view() == old(line).deep_view() + reverse_spans(
            Some(words.deep_view()),
        ),
{
    let ghost before = line.deep_view();
    let ghost all = words.deep_view();
    let ghost each = |word: Seq<char>| reverse_span(word);
    push_span(line, Span::from_str(": "));
    let mut i: usize = 0;
    assert(all.take(0).map_values(each) =~= Seq::empty());
    while i < words.len()
        invariant
            i <= words.len(),
            all == words.deep_view(),
            each == |word: Seq<char>| reverse_span(word),
            line.deep_view() == before + (seq![SpanView::raw(": "@)] + all.take(
                i as int,
            ).map_values(each)),
        decreases words.len() - i,
    {
        let mut content = words[i].clone();
        content.append(" ");
        push_span(line, Span::raw(content).italic());
        assert(all.take(i + 1).map_values(each) =~= all.take(i as int).map_values(each).push(
            reverse_span(all[i as int]),
        ));
        i = i + 1;
    }
    assert(all.take(i as int) =~= all);
}

/// The line of a sense, given its part of speech as it is to be shown; see
/// [`definition_line_with`].
pub fn definition_line_from(definition: &Definition, pos: &str) -> (line: Line)
    ensures
        line@ == definition_line_with(definition@, pos@),
{
    let mut line: Vec<Span> = Vec::new();
    push_span(&mut line, Span::raw(definition.meaning.clone()).underlined().cyan());
    let mut bracketed = String::from_str(" (");
    bracketed.append(pos);
    bracketed.append(")");
    push_span(&mut line, Span::raw(bracketed).green());
    if let Some(reverse_translation) = &definition.reverse_translation {
        render_reverse(&mut line, reverse_translation);
    }
    if let Some(confidence) = &definition.confidence {
        let mut shown = String::from_str("(");
        let digits = confidence.to_text();
        shown.append(digits.as_str());
        shown.append(")");
        push_span(&mut line, Span::raw(shown).dim().italic());
    }
    assert(line.deep_view() =~= definition_line_with(definition@, pos@).spans);
    Line::from_spans(line)
}

/// The line of a sense; see [`definition_line`].
fn render_definition_line(definition: &Definition) -> (line: Line)
    ensures
        line@ == definition_line(definition@),
{
    let lowered = to_lowercase(definition.pos.as_str());
    definition_line_from(definition, lowered.as_str())
}

/// The lines of a sense, put at the end of the lines; see
/// [`definition_lines`].
fn render_definition(res: &mut Vec<Line>, definition: &Definition)
    ensures
        final(res).deep_view() == old(res).deep_view() + definition_lines(definition@),
{
    let ghost before = res.deep_view();
    push_line(res, render_definition_line(definition));
    match &definition.examples {
        Some(examples) => {
            let ghost all = examples.deep_view();
            let ghost each = |example: Seq<char>| example_line(example);
            let mut i: usize = 0;
            assert(all.take(0).map_values(each) =~= Seq::empty());
            while i < examples.len()
                invariant
                    i <= examples.len(),
                    all == examples.deep_view(),
                    each == |example: Seq<char>| example_line(example),
                    res.deep_view() == before + (seq![definition_line(definition@)] + all.take(
                        i as int,
                    ).map_values(each)),
                decreases examples.len() - i,
            {
                push_line(res, Line::from_span(Span::raw(examples[i].clone()).italic().dim()));
                assert(all.take(i + 1).map_values(each) =~= all.take(i as int).map_values(
                    each,
                ).push(example_line(all[i as int])));
                i = i + 1;
            }
            assert(all.take(i as int) =~= all);
        },
        None => {
            assert(res.deep_view() =~= before + definition_lines(definition@));
        },
    }
}

/// A copy of a half of a pair, empty where the half is missing.
fn text_or_empty_of(text: &Option<String>) -> (copy: String)
    ensures
        copy@ == text_or_empty(text.deep_view()),
{
    match text {
        Some(text) => text.clone(),
        None => String::new(),
    }
}

/// The lines of the senses, put at the end of the lines; see
/// [`definitions_section`].
fn render_definitions(res: &mut Vec<Line>, definitions: &Option<Vec<Definition>>)
    ensures
        final(res).deep_view() == old(res).deep_view() + definitions_section(
            definitions.deep_view(),
        ),
{
    let ghost before = res.deep_view();
    match definitions {
        Some(definitions) => {
            let ghost all = definitions.deep_view();
            make_title(res, "Definitions");
            let ghost headed = res.deep_view();
            let mut i: usize = 0;
            proof {
                lemma_flat_map_none(all, |definition: DefinitionView| definition_lines(definition));
                assert(headed + Seq::<LineView>::empty() =~= headed);
            }
            while i < definitions.len()
                invariant
                    i <= definitions.len(),
                    all == definitions.deep_view(),
                    res.deep_view() == headed + flat_map(
                        all.take(i as int),
                        |definition: DefinitionView| definition_lines(definition),
                    ),
                decreases definitions.len() - i,
            {
                proof {
                    lemma_flat_map_next(
                        all,
                        |definition: DefinitionView| definition_lines(definition),
                        i as int,
                    );
                    let made = flat_map(
                        all.take(i as int),
                        |definition: DefinitionView| definition_lines(definition),
                    );
                    assert((headed + made) + definition_lines(all[i as int]) =~= headed + (made
                        + definition_lines(all[i as int])));
                }
                render_definition(res, &definitions[i]);
                i = i + 1;
            }
            proof {
                lemma_flat_map_none(all, |definition: DefinitionView| definition_lines(definition));
                let made = flat_map(all, |definition: DefinitionView| definition_lines(definition));
                assert((before + title_lines("Definitions"@)) + made =~= before + (title_lines(
                    "Definitions"@,
                ) + made));
            }
        },
        None => {
            assert(before + Seq::<LineView>::empty() =~= before);
        },
    }
}

/// The lines of the translations, put at the end of the lines; see
/// [`translations_section`].
fn render_translations(res: &mut Vec<Line>, translations: &Option<Vec<Translation>>)
    ensures
        final(res).deep_view() == old(res).deep_view() + translations_section(
            translations.deep_view(),
        ),
{
    let ghost before = res.deep_view();
    match translations {
        Some(translations) => {
            let ghost all = translations.deep_view();
            make_title(res, "Translations");
            let ghost headed = res.deep_view();
            let mut i: usize = 0;
            proof {
                lemma_flat_map_none(all, |translation: PairView| translation_lines(translation));
                assert(headed + Seq::<LineView>::empty() =~= headed);
            }
            while i < translations.len()
                invariant
                    i <= translations.len(),
                    all == translations.deep_view(),
                    res.deep_view() == headed + flat_map(
                        all.take(i as int),
                        |translation: PairView| translation_lines(translation),
                    ),
                decreases translations.len() - i,
            {
                let ghost done = res.deep_view();
                let translation = &translations[i];
                push_line(
                    res,
                    Line::from_span(Span::raw(text_or_empty_of(&translation.orig)).italic()),
                );
                push_line(
                    res,
                    Line::from_span(Span::raw(text_or_empty_of(&translation.translated)).bold()),
                );
                proof {
                    lemma_flat_map_next(
                        all,
                        |translation: PairView| translation_lines(translation),
                        i as int,
                    );
                    let made = flat_map(
                        all.take(i as int),
                        |translation: PairView| translation_lines(translation),
                    );
                    assert(res.deep_view() =~= done + translation_lines(all[i as int]));
                    assert((headed + made) + translation_lines(all[i as int]) =~= headed + (made
                        + translation_lines(all[i as int])));
                }
                i = i + 1;
            }
            proof {
                lemma_flat_map_none(all, |translation: PairView| translation_lines(translation));
                let made = flat_map(all, |translation: PairView| translation_lines(translation));
                assert((before + title_lines("Translations"@)) + made =~= before + (title_lines(
                    "Translations"@,
                ) + made));
            }
        },
        None => {
            assert(before + Seq::<LineView>::empty() =~= before);
        },
    }
}

/// The lines of the transliteration, put at the end of the lines; see
/// [`literation_section`].
fn render_literation(res: &mut Vec<Line>, literation: &Option<Literation>)
    ensures
        final(res).deep_view() == old(res).deep_view() + literation_section(
            literation.deep_view(),
        ),
{
    let ghost before = res.deep_view();
    match literation {
        Some(literation) => {
            make_title(res, "Literations");
            if let Some(original) = &literation.orig {
                let mut line: Vec<Span> = Vec::new();
                push_span(&mut line, Span::from_str("Original  : ").dim());
                push_span(&mut line, Span::raw(original.clone()).italic());
                assert(line.deep_view() =~= seq![
                    SpanView::raw("Original  : "@).dim(),
                    SpanView::raw(original@).italic(),
                ]);
                push_line(res, Line::from_spans(line));
            }
            if let Some(translated) = &literation.translated {
                let mut line: Vec<Span> = Vec::new();
                push_span(&mut line, Span::from_str("Translated: ").dim());
                push_span(&mut line, Span::raw(translated.clone()));
                assert(line.deep_view() =~= seq![
                    SpanView::raw("Translated: "@).dim(),
                    SpanView::raw(translated@),
                ]);
                push_line(res, Line::from_spans(line));
            }
            assert(res.deep_view() =~= before + literation_section(Some(literation@)));
        },
        None => {
            assert(before + Seq::<LineView>::empty() =~= before);
        },
    }
}

/// The language that a question was asked in; see [`source_of`].
pub fn source_language(
    named: &Option<LanguageId>,
    detected: Result<LanguageId, LanguageParseError>,
) -> (language: LanguageId)
    ensures
        language@ == source_of(named.deep_view(), outcome_view(detected)),
{
    match named {
        Some(language) => language.clone(),
        None => match detected {
            Ok(language) => language,
            Err(_) => LanguageId::undetermined(),
        },
    }
}

/// The language that a question asks for; see [`target_of`].
pub fn target_language(named: &Option<LanguageId>) -> (language: LanguageId)
    ensures
        language@ == target_of(named.deep_view()),
{
    match named {
        Some(language) => language.clone(),
        None => LanguageId::undetermined(),
    }
}

/// The line that names two languages; see [`language_line_with`].
pub fn language_line_from(source: String, target: String) -> (line: Line)
    ensures
        line@ == language_line_with(source@, target@),
{
    let mut spans: Vec<Span> = Vec::new();
    push_span(&mut spans, Span::raw(source).italic());
    push_span(&mut spans, Span::from_str(" -> ").dim());
    push_span(&mut spans, Span::raw(target).italic());
    assert(spans.deep_view() =~= language_line_with(source@, target@).spans);
    Line::from_spans(spans).cyan().right_aligned()
}

/// The line that names the two languages of an answer; see
/// [`language_line`].
fn render_languages(result: &SearchResult, config: &SearchConfig) -> (line: Line)
    ensures
        line@ == language_line(config@, result@),
{
    let detected = text_or_empty_of(&result.src_lang);
    let source = source_language(&config.source_language, parse_lang(detected.as_str()));
    let target = target_language(&config.target_language);
    language_line_from(source.to_string(), target.to_string())
}

/// Lay an answer to a question out; see [`panel_of`].
///
/// Every section of the answer may be missing; a section that is missing
/// takes no line, not even a heading.
pub fn render_result(result: &SearchResult, config: &SearchConfig) -> (panel: Panel)
    ensures
        panel@ == panel_of(result@, config@),
{
    let provider = Line::from_span(Span::raw(result.provider.to_string()).bold().cyan());
    let language = render_languages(result, config);
    let mut res: Vec<Line> = Vec::new();
    assert(res.deep_view() =~= Seq::empty());
    render_definitions(&mut res, &result.definitions);
    render_translations(&mut res, &result.translations);
    render_literation(&mut res, &result.literation);
    assert(res.deep_view() =~= result_lines(result@));
    Panel { provider, language, lines: res }
}

/// The phases of a run.
#[derive(Copy, Clone, Debug, PartialEq, Eq, Structural)]
pub enum RunningState {
    /// Nothing has happened yet.
    Start,
    /// The question is with the provider.
    Searching,
    /// The answer is here and shown.
    Result,
    /// The run is over.
    Finished,
}

impl Default for RunningState {
    fn default() -> (state: RunningState)
        ensures
            state == RunningState::Start,
    {
        RunningState::Start
    }
}

/// What a [`Message`] is, as a value of the specification.
pub enum MessageView {
    QueryReceived(SearchConfigView),
    Searching(SearchConfigView),
    ResultReceived(SearchResultView),
    Quit,
}

/// What the machine is told.
#[derive(Debug)]
pub enum Message {
    /// A question has come in.
    QueryReceived(SearchConfig),
    /// The question is to be put to the provider.
    Searching(SearchConfig),
    /// The provider has answered.
    ResultReceived(SearchResult),
    /// The user wants to leave.
    Quit,
}

impl DeepView for Message {
    type V = MessageView;

    open spec fn deep_view(&self) -> MessageView {
        match self {
            Message::QueryReceived(config) => MessageView::QueryReceived(config@),
            Message::Searching(config) => MessageView::Searching(config@),
            Message::ResultReceived(result) => MessageView::ResultReceived(result@),
            Message::Quit => MessageView::Quit,
        }
    }
}

impl View for Message {
    type V = MessageView;

    open spec fn view(&self) -> MessageView {
        self.deep_view()
    }
}

/// A key of the keyboard, as far as the machine tells keys apart.
#[derive(Copy, Clone, Debug, PartialEq, Eq, Structural)]
pub enum KeyCode {
    /// A key that stands for a character.
    Char(char),
    /// Any other key.
    Other,
}

/// What happened to a key.
#[derive(Copy, Clone, Debug, PartialEq, Eq, Structural)]
pub enum KeyEventKind {
    Press,
    Repeat,
    Release,
}

/// A key and what happened to it.
#[derive(Copy, Clone, Debug, PartialEq, Eq, Structural)]
pub struct KeyEvent {
    pub code: KeyCode,
    pub kind: KeyEventKind,
}

/// What the terminal reports.
#[derive(Clone, Debug, PartialEq, Eq)]
pub enum Event {
    Key(KeyEvent),
    Resize(u16, u16),
    FocusGained,
    FocusLost,
    Mouse,
    Paste(String),
}

/// The message that a key stands for: `q` asks to leave, no other key says
/// anything.
pub open spec fn key_message(key: KeyEvent) -> Option<MessageView> {
    if key.code == KeyCode::Char('q') {
        Some(MessageView::Quit)
    } else {
        None
    }
}

/// The message that an event stands for: that of the key where a key was
/// pressed, none for anything else.
pub open spec fn event_message(event: Event) -> Option<MessageView> {
    match event {
        Event::Key(key) => if key.kind == KeyEventKind::Press {
            key_message(key)
        } else {
            None
        },
        _ => None,
    }
}

/// The message that a key stands for; see [`key_message`].
pub fn handle_key(key: KeyEvent) -> (message: Option<Message>)
    ensures
        message.deep_view() == key_message(key),
{
    match key.code {
        KeyCode::Char(c) => if c == 'q' {
            Some(Message::Quit)
        } else {
            None
        },
        KeyCode::Other => None,
    }
}

/// The phase that a message leads to from a phase.
///
/// A question starts the search, the provider's answer ends it, and asking
/// to leave ends the run from anywhere. A message that a phase has no use
/// for changes nothing.
pub open spec fn transition(phase: RunningState, msg: MessageView) -> RunningState {
    match msg {
        MessageView::Quit => RunningState::Finished,
        MessageView::QueryReceived(_) => if phase == RunningState::Start {
            RunningState::Searching
        } else {
            phase
        },
        MessageView::Searching(_) => phase,
        MessageView::ResultReceived(_) => if phase == RunningState::Searching {
            RunningState::Result
        } else {
            phase
        },
    }
}

/// How far a run has come: a phase is never left for an earlier one.
pub open spec fn progress(phase: RunningState) -> nat {
    match phase {
        RunningState::Start => 0,
        RunningState::Searching => 1,
        RunningState::Result => 2,
        RunningState::Finished => 3,
    }
}

/// What an [`App`] is, as a value of the specification.
pub struct AppView {
    pub config: SearchConfigView,
    pub result: Option<SearchResultView>,
    pub phase: RunningState,
    /// The message that the machine has sent itself and not yet read.
    pub pending: Option<MessageView>,
    /// Whether the provider has been asked and has not replied yet.
    pub waiting: bool,
}

impl AppView {
    /// The machine at the start of a run: it has told itself of the
    /// question and holds no answer.
    pub open spec fn start(config: SearchConfigView) -> AppView {
        AppView {
            config,
            result: None,
            phase: RunningState::Start,
            pending: Some(MessageView::QueryReceived(config)),
            waiting: false,
        }
    }

    /// In the phase that shows an answer there is one, and the machine
    /// waits for the provider only during the search and with nothing
    /// pending.
    pub open spec fn well_formed(self) -> bool {
        &&& self.phase == RunningState::Result ==> self.result is Some
        &&& self.waiting ==> self.phase == RunningState::Searching && self.pending is None
    }

    /// The machine after a message: the phase is the one that the message
    /// leads to, an answer that ends the search is kept, the message that
    /// the machine sends itself takes the place of whatever was pending, and
    /// the machine waits for the provider where the message has it ask.
    pub open spec fn updated(self, msg: MessageView) -> AppView {
        AppView {
            config: self.config,
            result: match msg {
                MessageView::ResultReceived(result) => if self.phase == RunningState::Searching {
                    Some(result)
                } else {
                    self.result
                },
                _ => self.result,
            },
            phase: transition(self.phase, msg),
            pending: match msg {
                MessageView::QueryReceived(config) => if self.phase == RunningState::Start {
                    Some(MessageView::Searching(config))
                } else {
                    None
                },
                _ => None,
            },
            waiting: self.asked(msg) is Some,
        }
    }

    /// The machine after a row of messages, taken in one after the other.
    pub open spec fn after(self, msgs: Seq<MessageView>) -> AppView
        decreases msgs.len(),
    {
        if msgs.len() == 0 {
            self
        } else {
            self.after(msgs.drop_last()).updated(msgs.last())
        }
    }

    /// The question that a message has the machine put to the provider.
    pub open spec fn asked(self, msg: MessageView) -> Option<SearchConfigView> {
        match msg {
            MessageView::Searching(config) => if self.phase == RunningState::Searching {
                Some(config)
            } else {
                None
            },
            _ => None,
        }
    }

    /// Whether the machine waits for the user: it is not finished, has sent
    /// itself nothing and does not wait for the provider.
    pub open spec fn wants_input(self) -> bool {
        self.phase != RunningState::Finished && self.pending is None && !self.waiting
    }

    /// The message that a step reads: the pending one; where there is none
    /// and the machine does not wait for the provider, the one that the
    /// event stands for.
    pub open spec fn next_message(self, event: Option<Event>) -> Option<MessageView> {
        match self.pending {
            Some(msg) => Some(msg),
            None => match event {
                Some(event) => if self.waiting {
                    None
                } else {
                    event_message(event)
                },
                None => None,
            },
        }
    }

    /// The machine after a step: after the message that the step reads,
    /// unchanged where it reads none.
    pub open spec fn stepped(self, event: Option<Event>) -> AppView {
        match self.next_message(event) {
            Some(msg) => self.updated(msg),
            None => self,
        }
    }

    /// The question that a step has the machine put to the provider.
    pub open spec fn step_asked(self, event: Option<Event>) -> Option<SearchConfigView> {
        match self.next_message(event) {
            Some(msg) => self.asked(msg),
            None => None,
        }
    }

    /// The machine after the provider's reply: an answer is a message to
    /// itself, a failure ends the run. A reply that the machine does not
    /// wait for changes nothing.
    pub open spec fn replied(self, outcome: Result<SearchResultView, Seq<char>>) -> AppView {
        if !self.waiting {
            self
        } else {
            match outcome {
                Ok(result) => AppView {
                    pending: Some(MessageView::ResultReceived(result)),
                    waiting: false,
                    ..self
                },
                Err(_) => AppView {
                    phase: RunningState::Finished,
                    pending: None,
                    waiting: false,
                    ..self
                },
            }
        }
    }
}

/// What a [`Body`] is, as a value of the specification.
pub enum BodyView {
    Blank,
    Notice(LineView),
    Answer(PanelView),
}

/// What stands inside the frame of the screen.
#[derive(Debug)]
pub enum Body {
    /// Nothing.
    Blank,
    /// One line.
    Notice(Line),
    /// An answer.
    Answer(Panel),
}

impl DeepView for Body {
    type V = BodyView;

    open spec fn deep_view(&self) -> BodyView {
        match self {
            Body::Blank => BodyView::Blank,
            Body::Notice(line) => BodyView::Notice(line@),
            Body::Answer(panel) => BodyView::Answer(panel@),
        }
    }
}

impl View for Body {
    type V = BodyView;

    open spec fn view(&self) -> BodyView {
        self.deep_view()
    }
}

/// What a [`Screen`] is, as a value of the specification.
pub struct ScreenView {
    pub title: LineView,
    pub hint: LineView,
    pub body: BodyView,
}

/// The whole screen: a frame with a title above and a hint below, and what
/// stands in it.
#[derive(Debug)]
pub struct Screen {
    pub title: Line,
    pub hint: Line,
    pub body: Body,
}

impl DeepView for Screen {
    type V = ScreenView;

    open spec fn deep_view(&self) -> ScreenView {
        ScreenView { title: self.title@, hint: self.hint@, body: self.body@ }
    }
}

impl View for Screen {
    type V = ScreenView;

    open spec fn view(&self) -> ScreenView {
        self.deep_view()
    }
}

/// The title of the screen.
pub open spec fn title_line() -> LineView {
    LineView::of(seq![SpanView::raw("What Do You Mean?"@).bold()]).centered()
}

/// The hint at the bottom of the screen.
pub open spec fn hint_line() -> LineView {
    LineView::of(seq![SpanView::raw("Press <q> to quit"@)]).centered()
}

/// What stands in the frame in each phase: a word at the start, the query
/// during the search, the answer once it is here, nothing at the end.
pub open spec fn body_of(app: AppView) -> BodyView
    recommends
        app.well_formed(),
{
    match app.phase {
        RunningState::Start => BodyView::Notice(
            LineView::of(seq![SpanView::raw("Starting"@).italic()]),
        ),
        RunningState::Searching => BodyView::Notice(
            LineView::of(
                seq![
                    SpanView::raw("Searching for: "@).italic(),
                    SpanView::raw(app.config.query).italic().bold(),
                ],
            ),
        ),
        RunningState::Result => BodyView::Answer(panel_of(app.result->0, app.config)),
        RunningState::Finished => BodyView::Blank,
    }
}

/// What the machine shows.
pub open spec fn screen_of(app: AppView) -> ScreenView
    recommends
        app.well_formed(),
{
    ScreenView { title: title_line(), hint: hint_line(), body: body_of(app) }
}

/// Take a message out of its place and leave none there.
fn take_message(slot: &mut Option<Message>) -> (taken: Option<Message>)
    ensures
        taken == *old(slot),
        *final(slot) is None,
    no_unwind
{
    let mut taken: Option<Message> = None;
    core::mem::swap(slot, &mut taken);
    taken
}

/// The state machine of a run.
#[derive(Debug)]
pub struct App {
    search_config: SearchConfig,
    results: Option<SearchResult>,
    running_state: RunningState,
    pending: Option<Message>,
    waiting: bool,
}

impl DeepView for App {
    type V = AppView;

    closed spec fn deep_view(&self) -> AppView {
        AppView {
            config: self.search_config@,
            result: self.results.deep_view(),
            phase: self.running_state,
            pending: self.pending.deep_view(),
            waiting: self.waiting,
        }
    }
}

impl View for App {
    type V = AppView;

    open spec fn view(&self) -> AppView {
        self.deep_view()
    }
}

impl App {
    /// In the phase that shows an answer the machine holds one, and it
    /// waits for the provider only during the search and with nothing
    /// pending.
    #[verifier::type_invariant]
    spec fn holds_what_it_shows(self) -> bool {
        &&& self.running_state == RunningState::Result ==> self.results is Some
        &&& self.waiting ==> self.running_state == RunningState::Searching && self.pending
            is None
    }

    /// The machine at the start of a run; see [`AppView::start`].
    pub fn new(search_config: SearchConfig) -> (app: App)
        ensures
            app@ == AppView::start(search_config@),
            app@.well_formed(),
    {
        let first = Message::QueryReceived(search_config.clone());
        App {
            results: None,
            running_state: RunningState::Start,
            search_config,
            pending: Some(first),
            waiting: false,
        }
    }

    /// The phase of the run.
    pub fn running_state(&self) -> (phase: RunningState)
        ensures
            phase == self@.phase,
    {
        self.running_state
    }

    /// Whether the run is over.
    pub fn is_finished(&self) -> (finished: bool)
        ensures
            finished == (self@.phase == RunningState::Finished),
    {
        self.running_state == RunningState::Finished
    }

    /// The question of the run.
    pub fn search_config(&self) -> (config: &SearchConfig)
        ensures
            config@ == self@.config,
    {
        &self.search_config
    }

    /// The answer, once there is one.
    pub fn results(&self) -> (result: Option<&SearchResult>)
        ensures
            result.deep_view() == self@.result,
    {
        self.results.as_ref()
    }

    /// Whether the machine waits for the user; see
    /// [`AppView::wants_input`]. Only then is an event to be read.
    pub fn wants_input(&self) -> (wanted: bool)
        ensures
            wanted == self@.wants_input(),
    {
        self.running_state != RunningState::Finished && self.pending.is_none() && !self.waiting
    }

    /// The message that an event stands for; see [`event_message`].
    pub fn handle_event(&self, event: &Event) -> (message: Option<Message>)
        ensures
            message.deep_view() == event_message(*event),
    {
        match event {
            Event::Key(key_event) => {
                if key_event.kind == KeyEventKind::Press {
                    return handle_key(*key_event);
                }
            },
            Event::Resize(_, _) => {},
            Event::FocusGained => {},
            Event::FocusLost => {},
            Event::Mouse => {},
            Event::Paste(_) => {},
        }
        None
    }

    /// Take a message in; see [`AppView::updated`]. Returned is the question
    /// that the provider is to be asked now, if the message asks for that;
    /// the reply goes to [`App::lookup_done`].
    pub fn update(&mut self, msg: Message) -> (asked: Option<SearchConfig>)
        ensures
            final(self)@ == old(self)@.updated(msg@),
            final(self)@.well_formed(),
            asked.deep_view() == old(self)@.asked(msg@),
    {
        proof {
            use_type_invariant(&*self);
        }
        match msg {
            Message::ResultReceived(search_result) => {
                self.pending = None;
                self.waiting = false;
                if self.running_state == RunningState::Searching {
                    self.results = Some(search_result);
                    self.running_state = RunningState::Result;
                }
                None
            },
            Message::Quit => {
                self.pending = None;
                self.waiting = false;
                self.running_state = RunningState::Finished;
                None
            },
            Message::QueryReceived(search_config) => {
                self.waiting = false;
                if self.running_state == RunningState::Start {
                    self.running_state = RunningState::Searching;
                    self.pending = Some(Message::Searching(search_config));
                } else {
                    self.pending = None;
                }
                None
            },
            Message::Searching(search_config) => {
                self.pending = None;
                if self.running_state == RunningState::Searching {
                    self.waiting = true;
                    Some(search_config)
                } else {
                    self.waiting = false;
                    None
                }
            },
        }
    }

    /// One turn of the loop; see [`AppView::stepped`]. The machine reads
    /// the message it has sent itself; only where there is none does it
    /// look at the event. Returned is the question that the provider is to
    /// be asked now, if any.
    pub fn step(&mut self, event: Option<Event>) -> (asked: Option<SearchConfig>)
        ensures
            final(self)@ == old(self)@.stepped(event),
            final(self)@.well_formed(),
            asked.deep_view() == old(self)@.step_asked(event),
    {
        proof {
            use_type_invariant(&*self);
        }
        let pending = take_message(&mut self.pending);
        let message = match pending {
            Some(msg) => Some(msg),
            None => match &event {
                Some(event) => if self.waiting {
                    None
                } else {
                    self.handle_event(event)
                },
                None => None,
            },
        };
        match message {
            Some(msg) => self.update(msg),
            None => None,
        }
    }

    /// Take the provider's reply in; see [`AppView::replied`]. A failure is
    /// handed back as it came, whether the machine waited for a reply or
    /// not.
    pub fn lookup_done(&mut self, outcome: Result<SearchResult, TranslateError>) -> (handed: Result<
        (),
        TranslateError,
    >)
        ensures
            match outcome {
                Ok(result) => handed is Ok && final(self)@ == old(self)@.replied(
                    Ok(result@),
                ),
                Err(error) => handed == Err::<(), _>(error) && final(self)@ == old(
                    self,
                )@.replied(Err(error@)),
            },
            final(self)@.well_formed(),
    {
        proof {
            use_type_invariant(&*self);
        }
        match outcome {
            Ok(result) => {
                if self.waiting {
                    self.waiting = false;
                    self.pending = Some(Message::ResultReceived(result));
                }
                Ok(())
            },
            Err(error) => {
                if self.waiting {
                    self.pending = None;
                    self.waiting = false;
                    self.running_state = RunningState::Finished;
                }
                Err(error)
            },
        }
    }

    /// What the machine shows; see [`screen_of`].
    pub fn render(&self) -> (screen: Screen)
        ensures
            screen@ == screen_of(self@),
    {
        proof {
            use_type_invariant(self);
        }
        let title = Line::from_span(Span::from_str("What Do You Mean?").bold()).centered();
        let hint = Line::from_span(Span::from_str("Press <q> to quit")).centered();
        let body = match self.running_state {
            RunningState::Start => Body::Notice(
                Line::from_span(Span::from_str("Starting").italic()),
            ),
            RunningState::Searching => {
                let mut spans: Vec<Span> = Vec::new();
                push_span(&mut spans, Span::from_str("Searching for: ").italic());
                push_span(&mut spans, Span::raw(self.search_config.query.clone()).italic().bold());
                assert(spans.deep_view() =~= seq![
                    SpanView::raw("Searching for: "@).italic(),
                    SpanView::raw(self.search_config.query@).italic().bold(),
                ]);
                Body::Notice(Line::from_spans(spans))
            },
            RunningState::Result => match &self.results {
                Some(result) => Body::Answer(render_result(result, &self.search_config)),
                None => unreached(),
            },
            RunningState::Finished => Body::Blank,
        };
        Screen { title, hint, body }
    }
}

/// Every change of phase is one of three: a question takes the machine from
/// the start into the search, the provider's answer takes it from the search
/// to the answer, and asking to leave ends the run from anywhere. No message
/// takes the machine back to an earlier phase, and nothing leads out of the
/// end.
pub proof fn lemma_transitions(phase: RunningState, msg: MessageView)
    ensures
        transition(phase, msg) == phase || (phase == RunningState::Start && msg
            is QueryReceived && transition(phase, msg) == RunningState::Searching) || (phase
            == RunningState::Searching && msg is ResultReceived && transition(phase, msg)
            == RunningState::Result) || (msg is Quit && transition(phase, msg)
            == RunningState::Finished),
        progress(transition(phase, msg)) >= progress(phase),
        phase == RunningState::Finished ==> transition(phase, msg) == RunningState::Finished,
{
}

/// Whatever messages come in which order, the machine never goes back to an
/// earlier phase, never leaves the end, and holds what it shows if it did so
/// before.
pub proof fn lemma_phases_only_advance(app: AppView, msgs: Seq<MessageView>)
    ensures
        progress(app.after(msgs).phase) >= progress(app.phase),
        app.phase == RunningState::Finished ==> app.after(msgs).phase == RunningState::Finished,
        app.well_formed() ==> app.after(msgs).well_formed(),
        app.after(msgs).config == app.config,
    decreases msgs.len(),
{
    if msgs.len() > 0 {
        lemma_phases_only_advance(app, msgs.drop_last());
        lemma_transitions(app.after(msgs.drop_last()).phase, msgs.last());
    }
}

/// A machine that holds what it shows still does so after any message, any
/// step and any reply.
pub proof fn lemma_stays_well_formed(
    app: AppView,
    msg: MessageView,
    event: Option<Event>,
    outcome: Result<SearchResultView, Seq<char>>,
)
    requires
        app.well_formed(),
    ensures
        app.updated(msg).well_formed(),
        app.stepped(event).well_formed(),
        app.replied(outcome).well_formed(),
{
}

/// The first lookup needs no input. A machine made for a question does not
/// wait for the user before the answer is shown: its first step starts the
/// search, its second asks the provider the very question, and after an
/// answer its third shows that answer. Only then does it wait. Where the
/// provider fails, the run is over at once.
pub proof fn lemma_first_lookup(
    config: SearchConfigView,
    result: SearchResultView,
    reason: Seq<char>,
    event: Option<Event>,
)
    ensures
        ({
            let made = AppView::start(config);
            let started = made.stepped(event);
            let asking = started.stepped(event);
            let answered = asking.replied(Ok(result));
            let shown = answered.stepped(event);
            let failed = asking.replied(Err(reason));
            &&& !made.wants_input()
            &&& made.step_asked(event) is None
            &&& started.phase == RunningState::Searching
            &&& !started.wants_input()
            &&& started.step_asked(event) == Some(config)
            &&& asking.phase == RunningState::Searching
            &&& !asking.wants_input()
            &&& !answered.wants_input()
            &&& answered.step_asked(event) is None
            &&& shown.phase == RunningState::Result
            &&& shown.result == Some(result)
            &&& shown.config == config
            &&& shown.wants_input()
            &&& failed.phase == RunningState::Finished
            &&& !failed.wants_input()
        }),
{
}

/// Asking to leave ends the run from any phase, whatever the machine had
/// sent itself: nothing is pending afterwards and the provider is not
/// asked. A press of `q` does so as soon as the machine waits for the user.
pub proof fn lemma_quit_ends_the_run(app: AppView)
    ensures
        app.updated(MessageView::Quit).phase == RunningState::Finished,
        app.updated(MessageView::Quit).pending is None,
        !app.updated(MessageView::Quit).waiting,
        app.updated(MessageView::Quit).result == app.result,
        app.asked(MessageView::Quit) is None,
        app.wants_input() ==> app.stepped(
            Some(Event::Key(KeyEvent { code: KeyCode::Char('q'), kind: KeyEventKind::Press })),
        ).phase == RunningState::Finished,
{
}

/// An event that is no press of `q` changes nothing in a machine that waits
/// for the user.
pub proof fn lemma_other_events_change_nothing(app: AppView, event: Event)
    requires
        app.wants_input(),
        event_message(event) is None,
    ensures
        app.stepped(Some(event)) == app,
        app.step_asked(Some(event)) is None,
{
}

/// An answer of which every section is missing has no lines: only the head
/// of its frame is left.
pub proof fn lemma_no_sections_no_lines(result: SearchResultView, config: SearchConfigView)
    requires
        result.definitions is None,
        result.translations is None,
        result.literation is None,
    ensures
        panel_of(result, config).lines == Seq::<LineView>::empty(),
        panel_of(result, config).provider == provider_line(result),
        panel_of(result, config).language == language_line(config, result),
{
    assert(result_lines(result) =~= Seq::<LineView>::empty());
}

/// A section that is there begins with a blank line and its heading, and a
/// section that is missing takes no line at all.
pub proof fn lemma_sections_are_headed(result: SearchResultView)
    ensures
        result.definitions is Some ==> definitions_section(result.definitions).len() >= 2
            && definitions_section(result.definitions).take(2) == title_lines("Definitions"@),
        result.translations is Some ==> translations_section(result.translations).len() >= 2
            && translations_section(result.translations).take(2) == title_lines(
            "Translations"@,
        ),
        result.literation is Some ==> literation_section(result.literation).len() >= 2
            && literation_section(result.literation).take(2) == title_lines("Literations"@),
        result.definitions is None ==> definitions_section(result.definitions).len() == 0,
        result.translations is None ==> translations_section(result.translations).len() == 0,
        result.literation is None ==> literation_section(result.literation).len() == 0,
{
    if result.definitions is Some {
        assert(definitions_section(result.definitions).take(2) =~= title_lines("Definitions"@));
    }
    if result.translations is Some {
        assert(translations_section(result.translations).take(2) =~= title_lines(
            "Translations"@,
        ));
    }
    if result.literation is Some {
        assert(literation_section(result.literation).take(2) =~= title_lines("Literations"@));
    }
}

} // verus!
