use wdym::search::{
    insert_by_confidence, lookup, parse_lang, request_url, Definition, LanguageParseError,
    SearchConfig,
};
use wdym::score::Confidence;
use wdym::translators::google_translate::HttpResponse;
use wdym::translators::SearchProvider;

#[test]
fn test_parsing_lang() {
    // Unix-style locale
    let res = parse_lang("zh_CN.utf8").unwrap();
    assert_eq!(res.to_639_3(), isolang::Language::Zho.to_639_3());

    // Non-standard locale
    let res = parse_lang("zh_TW").unwrap();
    assert_eq!(res.to_639_3(), isolang::Language::Zho.to_639_3());

    // ISO 639-1
    let res = parse_lang("ja").unwrap();
    assert_eq!(res.to_639_3(), isolang::Language::Jpn.to_639_3());

    // ISO 639-3
    let res = parse_lang("jpn").unwrap();
    assert_eq!(res.to_639_3(), isolang::Language::Jpn.to_639_3());

    // Lowercase English name
    let res = parse_lang("german").unwrap();
    assert_eq!(res.to_639_3(), isolang::Language::Deu.to_639_3());

    // Mixed case English name
    let res = parse_lang("HinDi").unwrap();
    assert_eq!(res.to_639_3(), isolang::Language::Hin.to_639_3());

    // Autonym
    let res = parse_lang("עברית").unwrap();
    assert_eq!(res.to_639_3(), isolang::Language::Heb.to_639_3());
}

#[test]
#[should_panic]
fn invalid_cli_args_source() {
    let _search_conf: SearchConfig = SearchConfig::from_args(
        "book".to_owned(),
        Some("invalid language for test".to_string()),
        None,
        SearchProvider::GoogleTranslate,
    )
    .unwrap();
}

#[test]
#[should_panic]
fn invalid_cli_args_dest() {
    let _search_conf: SearchConfig = SearchConfig::from_args(
        "book".to_owned(),
        None,
        Some("invalid language for test".to_string()),
        SearchProvider::GoogleTranslate,
    )
    .unwrap();
}

#[test]
fn parsed_codes_are_three_letter_codes() {
    assert_eq!(parse_lang("en").unwrap().to_639_3(), "eng");
    assert_eq!(parse_lang("EN").unwrap().to_639_3(), "eng");
    assert_eq!(parse_lang("English").unwrap().to_639_3(), "eng");
    assert_eq!(parse_lang("de_DE.UTF-8").unwrap().to_639_3(), "deu");
    assert_eq!(parse_lang("und").unwrap().to_639_3(), "und");
}

#[test]
fn equal_languages_are_equal() {
    assert_eq!(parse_lang("ja").unwrap(), parse_lang("Japanese").unwrap());
    assert_ne!(parse_lang("ja").unwrap(), parse_lang("en").unwrap());
    let language = parse_lang("fr").unwrap();
    assert_eq!(language.clone(), language);
}

#[test]
fn unknown_token_is_an_error_with_the_lowered_token() {
    let error: LanguageParseError = parse_lang("Invalid Language For Test").unwrap_err();
    assert_eq!(error.token(), "invalid language for test");
    assert_eq!(
        error.to_string(),
        "failed to parse the language code: invalid language for test"
    );
    assert!(parse_lang("").is_err());
    assert!(parse_lang("deu_DEU.UTF-8").is_err());
    assert_eq!(parse_lang("___").unwrap_err().token(), "___");
}

#[test]
fn parse_error_can_be_made_of_a_token() {
    let error = LanguageParseError::new("xx".to_string());
    assert_eq!(error.token(), "xx");
    assert_eq!(error.to_string(), "failed to parse the language code: xx");
}

#[test]
fn short_codes_and_labels_come_from_the_language_table() {
    let english = parse_lang("eng").unwrap();
    assert_eq!(english.to_639_1(), Some("en".to_string()));
    assert_eq!(english.to_string(), "English (English)");
    let japanese = parse_lang("Japanese").unwrap();
    assert_eq!(japanese.to_639_1(), Some("ja".to_string()));
    assert_eq!(japanese.to_string(), "Japanese (日本語)");
    let ghotuo = parse_lang("aaa").unwrap();
    assert_eq!(ghotuo.to_639_1(), None);
    assert_eq!(ghotuo.to_string(), "Ghotuo (missing autonym)");
}

#[test]
fn undetermined_is_the_language_und() {
    let unknown = wdym::language::LanguageId::undetermined();
    assert_eq!(unknown.to_639_3(), "und");
    assert_eq!(unknown.to_639_3(), isolang::Language::Und.to_639_3());
    assert_eq!(unknown.to_639_1(), None);
    assert_eq!(unknown.to_string(), "Undetermined (und)");
    assert_eq!(unknown.to_string(), isolang::Language::Und.to_string());
    assert_eq!(unknown, parse_lang("und").unwrap());
}

#[test]
fn arguments_make_a_question() {
    let config = SearchConfig::from_args(
        "book".to_string(),
        Some("English".to_string()),
        Some("ja".to_string()),
        SearchProvider::GoogleTranslate,
    )
    .unwrap();
    assert_eq!(config.query, "book");
    assert_eq!(config.source_language.unwrap().to_639_3(), "eng");
    assert_eq!(config.target_language.unwrap().to_639_3(), "jpn");
    assert_eq!(config.provider, SearchProvider::GoogleTranslate);

    let config =
        SearchConfig::from_args("book".to_string(), None, None, SearchProvider::Jisho).unwrap();
    assert!(config.source_language.is_none());
    assert!(config.target_language.is_none());
    assert_eq!(config.provider, SearchProvider::Jisho);
}

#[test]
fn resolved_languages_make_a_question() {
    let bad = |token: &str| Some(Err(LanguageParseError::new(token.to_string())));
    let good = |token: &str| Some(Ok(parse_lang(token).unwrap()));
    let config = SearchConfig::with_languages(
        "book".to_string(),
        good("en"),
        good("ja"),
        SearchProvider::Jisho,
    )
    .unwrap();
    assert_eq!(config.query, "book");
    assert_eq!(config.source_language.unwrap().to_639_3(), "eng");
    assert_eq!(config.target_language.unwrap().to_639_3(), "jpn");
    assert_eq!(config.provider, SearchProvider::Jisho);

    let config =
        SearchConfig::with_languages("x".to_string(), None, None, SearchProvider::GoogleTranslate)
            .unwrap();
    assert!(config.source_language.is_none() && config.target_language.is_none());

    let provider = SearchProvider::GoogleTranslate;
    let error =
        SearchConfig::with_languages("x".to_string(), bad("s"), bad("t"), provider).unwrap_err();
    assert_eq!(error.token(), "s");
    let error =
        SearchConfig::with_languages("x".to_string(), good("en"), bad("t"), provider).unwrap_err();
    assert_eq!(error.token(), "t");
    let error =
        SearchConfig::with_languages("x".to_string(), bad("s"), good("en"), provider).unwrap_err();
    assert_eq!(error.token(), "s");
    let error = SearchConfig::with_languages("x".to_string(), None, bad("t"), provider).unwrap_err();
    assert_eq!(error.token(), "t");
}

#[test]
fn a_language_is_shown_by_its_label_or_its_code() {
    assert_eq!(wdym::language::shown_as(Some("English (English)".to_string()), "eng"), "English (English)");
    assert_eq!(wdym::language::shown_as(None, "eng"), "eng");
    assert_eq!(wdym::language::shown_as(Some(String::new()), "eng"), "");
}

#[test]
fn the_first_reading_of_a_token_is_taken() {
    let eng = || parse_lang("eng").unwrap();
    let deu = || parse_lang("deu").unwrap();
    let chosen = wdym::search::choose_language("x".to_string(), Some(eng()), Some(deu()));
    assert_eq!(chosen.unwrap().to_639_3(), "eng");
    let chosen = wdym::search::choose_language("x".to_string(), Some(eng()), None);
    assert_eq!(chosen.unwrap().to_639_3(), "eng");
    let chosen = wdym::search::choose_language("x".to_string(), None, Some(deu()));
    assert_eq!(chosen.unwrap().to_639_3(), "deu");
    let chosen = wdym::search::choose_language("x".to_string(), None, None);
    assert_eq!(chosen.unwrap_err().token(), "x");
}

#[test]
fn the_first_bad_token_is_the_error() {
    let error = SearchConfig::from_args(
        "book".to_string(),
        Some("No Such Source".to_string()),
        Some("No Such Target".to_string()),
        SearchProvider::GoogleTranslate,
    )
    .unwrap_err();
    assert_eq!(error.token(), "no such source");
    let error = SearchConfig::from_args(
        "book".to_string(),
        Some("en".to_string()),
        Some("No Such Target".to_string()),
        SearchProvider::GoogleTranslate,
    )
    .unwrap_err();
    assert_eq!(error.token(), "no such target");
}

#[test]
fn default_question_is_empty() {
    let config = SearchConfig::default();
    assert_eq!(config.query, "");
    assert!(config.source_language.is_none());
    assert!(config.target_language.is_none());
    assert_eq!(config.provider, SearchProvider::GoogleTranslate);
    assert_eq!(SearchProvider::default(), SearchProvider::GoogleTranslate);
}

#[test]
fn a_copy_of_a_question_is_the_same_question() {
    let config = SearchConfig::from_args(
        "book".to_string(),
        Some("en".to_string()),
        Some("ja".to_string()),
        SearchProvider::GoogleTranslate,
    )
    .unwrap();
    let copy = config.clone();
    assert_eq!(copy.query, config.query);
    assert_eq!(copy.source_language, config.source_language);
    assert_eq!(copy.target_language, config.target_language);
    assert_eq!(copy.provider, config.provider);
}

fn sense(meaning: &str, confidence: Option<f32>) -> Definition {
    Definition {
        meaning: meaning.to_string(),
        pos: "noun".to_string(),
        reverse_translation: None,
        confidence: confidence.map(|c| Confidence::from_bits(c.to_bits())),
        examples: None,
    }
}

fn meanings(senses: &Vec<Definition>) -> Vec<String> {
    senses.iter().map(|s| s.meaning.clone()).collect()
}

#[test]
fn senses_go_in_descending_order() {
    let mut senses: Vec<Definition> = Vec::new();
    insert_by_confidence(&mut senses, sense("a", Some(0.2)));
    insert_by_confidence(&mut senses, sense("b", Some(0.9)));
    insert_by_confidence(&mut senses, sense("c", None));
    insert_by_confidence(&mut senses, sense("d", Some(0.5)));
    assert_eq!(meanings(&senses), vec!["b", "d", "a", "c"]);
}

#[test]
fn senses_of_one_confidence_keep_their_order() {
    let mut senses: Vec<Definition> = Vec::new();
    insert_by_confidence(&mut senses, sense("first", Some(0.5)));
    insert_by_confidence(&mut senses, sense("zero", Some(0.0)));
    insert_by_confidence(&mut senses, sense("second", Some(0.5)));
    insert_by_confidence(&mut senses, sense("none", None));
    insert_by_confidence(&mut senses, sense("third", Some(0.5)));
    insert_by_confidence(&mut senses, sense("top", Some(1.0)));
    insert_by_confidence(&mut senses, sense("below", Some(-0.5)));
    assert_eq!(
        meanings(&senses),
        vec!["top", "first", "second", "third", "zero", "none", "below"]
    );
}

#[test]
fn insertion_agrees_with_a_stable_sort() {
    let scores: [Option<f32>; 9] = [
        Some(0.3),
        None,
        Some(0.7),
        Some(0.3),
        Some(0.0),
        Some(0.99),
        None,
        Some(0.7),
        Some(0.004559123),
    ];
    let mut senses: Vec<Definition> = Vec::new();
    let mut expected: Vec<(usize, f32)> = Vec::new();
    for (i, score) in scores.iter().enumerate() {
        insert_by_confidence(&mut senses, sense(&format!("{}", i), *score));
        expected.push((i, score.unwrap_or(0.0)));
    }
    expected.sort_by(|a, b| b.1.total_cmp(&a.1));
    let expected: Vec<String> = expected.iter().map(|e| format!("{}", e.0)).collect();
    assert_eq!(meanings(&senses), expected);
}

fn question(target: Option<&str>, provider: SearchProvider) -> SearchConfig {
    SearchConfig {
        query: "book".to_string(),
        source_language: None,
        target_language: target.map(|t| parse_lang(t).unwrap()),
        provider,
    }
}

fn empty_reply() -> HttpResponse {
    HttpResponse { dict: None, sentences: None, src: "en".to_string(), confidence: None }
}

#[test]
fn a_provider_that_is_not_built_in_cannot_be_asked() {
    let config = question(Some("ja"), SearchProvider::Jisho);
    let error = request_url(&config).unwrap_err();
    assert_eq!(error.reason(), "This provider is not implemented");
    assert_eq!(error.to_string(), "failed to translate: This provider is not implemented");
    let error = lookup(&config, empty_reply()).unwrap_err();
    assert_eq!(error.reason(), "This provider is not implemented");
}

#[test]
fn lookup_reads_the_reply_of_the_provider() {
    let config = question(Some("ja"), SearchProvider::GoogleTranslate);
    let result = lookup(&config, empty_reply()).unwrap();
    assert_eq!(result.provider, SearchProvider::GoogleTranslate);
    assert_eq!(result.src_lang, Some("en".to_string()));
    assert!(result.definitions.is_none());
    assert!(result.translations.is_none());
    assert!(result.literation.is_none());
}

#[test]
fn lookup_without_a_target_language_fails() {
    let config = question(None, SearchProvider::GoogleTranslate);
    let error = lookup(&config, empty_reply()).unwrap_err();
    assert_eq!(error.reason(), "google translate requires a destination language");
    assert_eq!(
        request_url(&config).unwrap_err().reason(),
        "google translate requires a destination language"
    );
}

#[test]
fn request_goes_to_the_provider_of_the_question() {
    let config = question(Some("ja"), SearchProvider::GoogleTranslate);
    let url = request_url(&config).unwrap();
    assert!(url.starts_with("https://clients5.google.com/translate_a/single?"));
    assert!(url.ends_with("&sl=auto&tl=ja&q=book"));
}
