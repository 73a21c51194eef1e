use wdym::score::Confidence;
use wdym::search::{parse_lang, SearchConfig};
use wdym::translators::google_translate::{
    finish_request, lookup_google_translate, params_from, pretty_format_section, query_params,
    read_reply, request_url, HttpResponse, HttpResponseDict, HttpResponseSentence, SearchResult,
    SearchResultDict, SearchResultEntry,
};
use wdym::translators::{SearchProvider, TranslateError};

fn empty_reply() -> HttpResponse {
    HttpResponse { dict: None, sentences: None, src: "en".to_string(), confidence: None }
}

fn score(value: f32) -> Option<Confidence> {
    Some(Confidence::from_bits(value.to_bits()))
}

fn entry(word: &str, reverse: &[&str], value: Option<f32>) -> SearchResultEntry {
    SearchResultEntry {
        word: word.to_string(),
        reverse_translation: reverse.iter().map(|w| w.to_string()).collect(),
        score: value.map(|v| Confidence::from_bits(v.to_bits())),
    }
}

fn sentence(
    orig: Option<&str>,
    trans: Option<&str>,
    src_translit: Option<&str>,
    translit: Option<&str>,
) -> Option<HttpResponseSentence> {
    Some(HttpResponseSentence {
        src_translit: src_translit.map(|s| s.to_string()),
        trans: trans.map(|s| s.to_string()),
        orig: orig.map(|s| s.to_string()),
        translit: translit.map(|s| s.to_string()),
    })
}

/// The reply to "Hello!" from English, as the provider sends it.
fn hello_reply() -> HttpResponse {
    HttpResponse {
        dict: Some(vec![Some(HttpResponseDict {
            pos: "interjection".to_string(),
            terms: vec!["もしもし！".to_string(), "今日は!".to_string()],
            entry: vec![
                entry("もしもし！", &["Hello!"], Some(0.004559123)),
                entry("今日は!", &["Hi!", "Hello!", "Good afternoon!", "Good day!"], None),
            ],
            base_form: "Hello!".to_string(),
            pos_enum: 9,
        })]),
        sentences: None,
        src: "en".to_string(),
        confidence: score(1.0),
    }
}

#[test]
#[should_panic]
fn test_url_construction() {
    let search_options = SearchConfig {
        query: "book".to_string(),
        source_language: None,
        target_language: None,
        provider: SearchProvider::GoogleTranslate,
    };

    lookup_google_translate(&search_options, empty_reply()).unwrap();
}

#[test]
#[should_panic]
fn test_special_country_code() {
    let search_options = SearchConfig {
        query: "book".to_string(),
        source_language: None,
        target_language: Some(parse_lang(isolang::Language::Und.to_639_3()).unwrap()),
        provider: SearchProvider::GoogleTranslate,
    };
    lookup_google_translate(&search_options, empty_reply()).unwrap();
}

fn options(query: &str, source: Option<&str>, target: Option<&str>) -> SearchConfig {
    SearchConfig {
        query: query.to_string(),
        source_language: source.map(|s| parse_lang(s).unwrap()),
        target_language: target.map(|t| parse_lang(t).unwrap()),
        provider: SearchProvider::GoogleTranslate,
    }
}

#[test]
fn request_url_is_exact() {
    let url = request_url(&options("book", Some("en"), Some("ja"))).unwrap();
    assert_eq!(
        url,
        "https://clients5.google.com/translate_a/single?dj=1&dt=at&dt=bd&dt=rm&dt=rw&dt=sp&dt=ss&dt=t&client=dict-chrome-ex&sl=en&tl=ja&q=book"
    );
}

#[test]
fn request_url_encodes_the_query() {
    let url = request_url(&options("Good Morning & more", None, Some("Japanese"))).unwrap();
    assert_eq!(
        url,
        "https://clients5.google.com/translate_a/single?dj=1&dt=at&dt=bd&dt=rm&dt=rw&dt=sp&dt=ss&dt=t&client=dict-chrome-ex&sl=auto&tl=ja&q=Good+Morning+%26+more"
    );
    let url = request_url(&options("計算", Some("jpn"), Some("eng"))).unwrap();
    assert!(url.ends_with("&sl=ja&tl=en&q=%E8%A8%88%E7%AE%97"));
}

#[test]
fn request_params_are_the_twelve_of_the_provider() {
    let params = query_params(&options("book", Some("en"), Some("ja"))).unwrap();
    let expected: Vec<(String, String)> = [
        ("dj", "1"),
        ("dt", "at"),
        ("dt", "bd"),
        ("dt", "rm"),
        ("dt", "rw"),
        ("dt", "sp"),
        ("dt", "ss"),
        ("dt", "t"),
        ("client", "dict-chrome-ex"),
        ("sl", "en"),
        ("tl", "ja"),
        ("q", "book"),
    ]
    .iter()
    .map(|(k, v)| (k.to_string(), v.to_string()))
    .collect();
    assert_eq!(params, expected);
}

#[test]
fn source_without_short_code_is_left_to_the_provider() {
    let params = query_params(&options("book", Some("aaa"), Some("ja"))).unwrap();
    assert_eq!(params[9], ("sl".to_string(), "auto".to_string()));
    let params = query_params(&options("book", None, Some("ja"))).unwrap();
    assert_eq!(params[9], ("sl".to_string(), "auto".to_string()));
}

#[test]
fn missing_target_is_an_error() {
    let error = query_params(&options("book", Some("en"), None)).unwrap_err();
    assert_eq!(error.reason(), "google translate requires a destination language");
    assert_eq!(
        error.to_string(),
        "failed to translate: google translate requires a destination language"
    );
    let error = request_url(&options("book", Some("en"), None)).unwrap_err();
    assert_eq!(error.reason(), "google translate requires a destination language");
}

#[test]
fn target_without_short_code_is_an_error() {
    let error = query_params(&options("book", None, Some("und"))).unwrap_err();
    assert_eq!(error.reason(), "The language specified doesn't have a iso639-1 language code");
    let error = request_url(&options("book", None, Some("aaa"))).unwrap_err();
    assert_eq!(error.reason(), "The language specified doesn't have a iso639-1 language code");
    let error = lookup_google_translate(&options("book", None, Some("aaa")), empty_reply())
        .unwrap_err();
    assert_eq!(error.reason(), "The language specified doesn't have a iso639-1 language code");
}

#[test]
fn params_follow_the_codes_of_the_languages() {
    let code = |c: &str| Some(Some(c.to_string()));
    let params = params_from(code("en"), code("ja"), "book".to_string()).unwrap();
    assert_eq!(params.len(), 12);
    assert_eq!(params[0], ("dj".to_string(), "1".to_string()));
    assert_eq!(params[8], ("client".to_string(), "dict-chrome-ex".to_string()));
    assert_eq!(params[9], ("sl".to_string(), "en".to_string()));
    assert_eq!(params[10], ("tl".to_string(), "ja".to_string()));
    assert_eq!(params[11], ("q".to_string(), "book".to_string()));
    let kinds: Vec<&str> = params[1..8].iter().map(|p| p.1.as_str()).collect();
    assert_eq!(kinds, vec!["at", "bd", "rm", "rw", "sp", "ss", "t"]);
    assert!(params[1..8].iter().all(|p| p.0 == "dt"));

    let params = params_from(None, code("ja"), String::new()).unwrap();
    assert_eq!(params[9].1, "auto");
    assert_eq!(params[11].1, "");
    let params = params_from(Some(None), code("ja"), "x".to_string()).unwrap();
    assert_eq!(params[9].1, "auto");

    let error = params_from(code("en"), None, "x".to_string()).unwrap_err();
    assert_eq!(error.reason(), "google translate requires a destination language");
    let error = params_from(code("en"), Some(None), "x".to_string()).unwrap_err();
    assert_eq!(error.reason(), "The language specified doesn't have a iso639-1 language code");
    let error = params_from(None, None, "x".to_string()).unwrap_err();
    assert_eq!(error.reason(), "google translate requires a destination language");
}

#[test]
fn a_reply_is_read_where_there_was_an_address() {
    let answer = read_reply(Ok("https://x/".to_string()), hello_reply()).unwrap();
    assert_eq!(answer.dicts.unwrap().len(), 1);
    let error = read_reply(Err(TranslateError::new("no address")), hello_reply()).unwrap_err();
    assert_eq!(error.reason(), "no address");
}

#[test]
fn finish_request_hands_on_the_first_failure() {
    let params = || -> Result<Vec<(String, String)>, TranslateError> { Ok(Vec::new()) };
    assert_eq!(finish_request(params(), Ok("https://x/".to_string())).unwrap(), "https://x/");
    let error = finish_request(params(), Err("empty host".to_string())).unwrap_err();
    assert_eq!(error.reason(), "empty host");
    let error =
        finish_request(Err(TranslateError::new("no target")), Ok("https://x/".to_string()))
            .unwrap_err();
    assert_eq!(error.reason(), "no target");
    let error = finish_request(Err(TranslateError::new("no target")), Err("bad".to_string()))
        .unwrap_err();
    assert_eq!(error.reason(), "no target");
}

#[test]
fn block_keeps_part_of_speech_and_senses() {
    let reply = hello_reply();
    let block = reply.dict.unwrap().remove(0).unwrap();
    let dict = SearchResultDict::from(block);
    assert_eq!(dict.pos, "interjection");
    assert_eq!(dict.entry.len(), 2);
    assert_eq!(dict.entry[0].word, "もしもし！");
    assert_eq!(dict.entry[1].reverse_translation.len(), 4);
    assert_eq!(dict.entry[1].score, None);
}

#[test]
fn a_copy_of_a_sense_is_the_same_sense() {
    let sense = entry("本", &["book", "volume"], Some(0.9));
    let copy = sense.clone();
    assert_eq!(copy.word, sense.word);
    assert_eq!(copy.reverse_translation, sense.reverse_translation);
    assert_eq!(copy.score, sense.score);
}

#[test]
fn reply_with_a_dictionary_is_read() {
    let answer = SearchResult::try_from(hello_reply()).unwrap();
    assert_eq!(answer.src_lang, "en");
    assert!(answer.sentence_translation.is_none());
    assert!(answer.src_translit.is_none());
    assert!(answer.translit.is_none());
    let dicts = answer.dicts.unwrap();
    assert_eq!(dicts.len(), 1);
    assert_eq!(dicts[0].pos, "interjection");
    assert_eq!(dicts[0].entry.len(), 2);
    assert_eq!(dicts[0].entry[0].score, score(0.004559123));
}

#[test]
fn missing_members_of_a_reply_are_skipped() {
    let mut reply = hello_reply();
    let block = reply.dict.as_ref().unwrap()[0].clone();
    reply.dict = Some(vec![None, block, None]);
    reply.sentences = Some(vec![
        None,
        sentence(Some("Good Morning"), Some("おはよう"), None, None),
        sentence(Some("only the sentence"), None, None, None),
        sentence(None, Some("only the translation"), None, None),
        None,
        sentence(None, None, Some("guddo moningu"), Some("Ohayō")),
        None,
    ]);
    let answer = SearchResult::try_from(reply).unwrap();
    assert_eq!(answer.dicts.unwrap().len(), 1);
    assert_eq!(
        answer.sentence_translation,
        Some(vec![("Good Morning".to_string(), "おはよう".to_string())])
    );
    assert_eq!(answer.src_translit, Some("guddo moningu".to_string()));
    assert_eq!(answer.translit, Some("Ohayō".to_string()));
}

#[test]
fn transliterations_are_those_of_the_last_sentence() {
    let mut reply = empty_reply();
    reply.sentences = Some(vec![
        sentence(None, None, Some("first"), Some("erste")),
        sentence(Some("a"), Some("b"), None, None),
    ]);
    let answer = SearchResult::try_from(reply).unwrap();
    assert_eq!(answer.src_translit, None);
    assert_eq!(answer.translit, None);
    assert_eq!(answer.sentence_translation.unwrap().len(), 1);

    let mut reply = empty_reply();
    reply.sentences = Some(vec![
        sentence(Some("a"), Some("b"), Some("x"), None),
        sentence(None, None, None, Some("y")),
        None,
    ]);
    let answer = SearchResult::try_from(reply).unwrap();
    assert_eq!(answer.src_translit, None);
    assert_eq!(answer.translit, Some("y".to_string()));
}

#[test]
fn reply_without_members_is_an_answer_without_sections() {
    let answer = SearchResult::try_from(empty_reply()).unwrap();
    assert!(answer.dicts.is_none());
    assert!(answer.sentence_translation.is_none());
    let mut reply = empty_reply();
    reply.sentences = Some(vec![]);
    reply.dict = Some(vec![]);
    let answer = SearchResult::try_from(reply).unwrap();
    assert_eq!(answer.dicts.map(|d| d.len()), Some(0));
    assert!(answer.sentence_translation.is_none());
}

#[test]
fn lookup_reads_the_reply() {
    let answer =
        lookup_google_translate(&options("Hello!", Some("en"), Some("ja")), hello_reply())
            .unwrap();
    assert!(answer.to_string().contains("今日は!"));
    assert_eq!(answer.src_lang, "en");
}

#[test]
fn general_answer_has_the_senses_in_descending_order() {
    let answer = SearchResult {
        dicts: Some(vec![
            SearchResultDict {
                pos: "Noun".to_string(),
                entry: vec![entry("a", &["x"], Some(0.2)), entry("b", &["y"], Some(0.9))],
            },
            SearchResultDict {
                pos: "Verb".to_string(),
                entry: vec![entry("c", &[], None), entry("d", &["z", "w"], Some(0.5))],
            },
        ]),
        sentence_translation: None,
        src_translit: None,
        translit: None,
        src_lang: "en".to_string(),
    };
    let result = wdym::search::SearchResult::from(answer);
    let definitions = result.definitions.unwrap();
    let order: Vec<&str> = definitions.iter().map(|d| d.meaning.as_str()).collect();
    assert_eq!(order, vec!["b", "d", "a", "c"]);
    assert_eq!(definitions[0].pos, "Noun");
    assert_eq!(definitions[1].pos, "Verb");
    assert_eq!(definitions[1].reverse_translation, Some(vec!["z".to_string(), "w".to_string()]));
    assert_eq!(definitions[3].reverse_translation, Some(vec![]));
    assert_eq!(definitions[3].confidence, None);
    assert_eq!(definitions[0].confidence, score(0.9));
    assert!(definitions.iter().all(|d| d.examples.is_none()));
    assert_eq!(result.provider, SearchProvider::GoogleTranslate);
    assert_eq!(result.src_lang, Some("en".to_string()));
    assert!(result.translations.is_none());
    assert!(result.literation.is_none());
}

#[test]
fn general_answer_keeps_the_translations() {
    let answer = SearchResult {
        dicts: None,
        sentence_translation: Some(vec![
            ("Good Morning".to_string(), "おはよう".to_string()),
            ("Good Night".to_string(), "おやすみ".to_string()),
        ]),
        src_translit: Some("guddo".to_string()),
        translit: Some("Ohayō".to_string()),
        src_lang: "en".to_string(),
    };
    let result = wdym::search::SearchResult::from(answer);
    let translations = result.translations.unwrap();
    assert_eq!(translations.len(), 2);
    assert_eq!(translations[0].orig, Some("Good Morning".to_string()));
    assert_eq!(translations[0].translated, Some("おはよう".to_string()));
    assert_eq!(translations[1].orig, Some("Good Night".to_string()));
    let literation = result.literation.unwrap();
    assert_eq!(literation.orig, Some("guddo".to_string()));
    assert_eq!(literation.translated, Some("Ohayō".to_string()));
    assert!(result.definitions.is_none());
}

#[test]
fn translation_of_a_pair_has_both_halves() {
    let pair = ("a".to_string(), "b".to_string());
    let translation = wdym::search::Translation::from(&pair);
    assert_eq!(translation.orig, Some("a".to_string()));
    assert_eq!(translation.translated, Some("b".to_string()));
}

#[test]
fn half_a_transliteration_is_none() {
    let mut answer = SearchResult {
        dicts: None,
        sentence_translation: None,
        src_translit: Some("guddo".to_string()),
        translit: None,
        src_lang: "en".to_string(),
    };
    assert!(wdym::search::SearchResult::from(answer.clone()).literation.is_none());
    answer.src_translit = None;
    answer.translit = Some("Ohayō".to_string());
    assert!(wdym::search::SearchResult::from(answer.clone()).literation.is_none());
    answer.translit = None;
    assert!(wdym::search::SearchResult::from(answer).literation.is_none());
}

#[test]
fn sections_that_would_be_empty_are_left_out() {
    let answer = SearchResult {
        dicts: Some(vec![SearchResultDict { pos: "noun".to_string(), entry: vec![] }]),
        sentence_translation: Some(vec![]),
        src_translit: None,
        translit: None,
        src_lang: "en".to_string(),
    };
    let result = wdym::search::SearchResult::from(answer);
    assert!(result.definitions.is_none());
    assert!(result.translations.is_none());
    let answer = SearchResult {
        dicts: Some(vec![]),
        sentence_translation: None,
        src_translit: None,
        translit: None,
        src_lang: "en".to_string(),
    };
    assert!(wdym::search::SearchResult::from(answer).definitions.is_none());
}

#[test]
fn answer_as_plain_text() {
    let answer = SearchResult::try_from(hello_reply()).unwrap();
    assert_eq!(
        answer.to_string(),
        "src lang: en\npos: interjection\n\tもしもし！ (0.005):\n\t\tHello! \n\t今日は!:\n\t\tHi! Hello! Good afternoon! Good day! \n"
    );
}

#[test]
fn answer_with_every_part_as_plain_text() {
    let answer = SearchResult {
        dicts: Some(vec![
            SearchResultDict { pos: "noun".to_string(), entry: vec![entry("本", &["book"], Some(0.9))] },
            SearchResultDict { pos: "verb".to_string(), entry: vec![] },
        ]),
        sentence_translation: Some(vec![("Good Morning".to_string(), "おはよう".to_string())]),
        src_translit: Some("Guddo. Moningu".to_string()),
        translit: Some("Ohayō!".to_string()),
        src_lang: "en".to_string(),
    };
    assert_eq!(
        answer.to_string(),
        "src lang: en\ntranslations:\n\tGood Morning\n\tおはよう\npos: noun\n\t本 (0.900):\n\t\tbook \npos: verb\nsrc_translit:\n\tGuddo.\n\tMoningu\ntranslit:\n\tOhayō!\n"
    );
}

#[test]
fn answer_without_parts_as_plain_text() {
    let answer = SearchResult::try_from(empty_reply()).unwrap();
    assert_eq!(answer.to_string(), "src lang: en\n");
}

fn std_section(translit: &str) -> String {
    let mut out = String::new();
    for line in translit.split_inclusive(|c: char| ".?!".contains(c)) {
        out.push('\t');
        out.push_str(line.strip_prefix(" ").unwrap_or(line));
        out.push('\n');
    }
    out
}

#[test]
fn section_has_a_line_for_each_sentence() {
    assert_eq!(pretty_format_section("Typer wa. Kore wa? Hai! owari"), "\tTyper wa.\n\tKore wa?\n\tHai!\n\towari\n");
    assert_eq!(pretty_format_section(""), "");
    assert_eq!(pretty_format_section("Keisan"), "\tKeisan\n");
    assert_eq!(pretty_format_section("Keisan."), "\tKeisan.\n");
    assert_eq!(pretty_format_section("..."), "\t.\n\t.\n\t.\n");
    assert_eq!(pretty_format_section("a.  b"), "\ta.\n\t b\n");
    assert_eq!(pretty_format_section(" "), "\t\n");
    assert_eq!(pretty_format_section("日本語。 はい! そう"), "\t日本語。 はい!\n\tそう\n");
}

#[test]
fn section_agrees_with_splitting_by_the_standard_library() {
    let samples = [
        "",
        " ",
        ".",
        " .",
        ". ",
        "a",
        "a.b?c!d",
        "One. Two?  Three!   ",
        "!?.!?.",
        "no end",
        " leading space. and more",
        "Typer wa, yūzā ga tsukau no o kononde. Kaihatsusha ga sakusei suru no o kononde!",
    ];
    for sample in samples {
        assert_eq!(pretty_format_section(sample), std_section(sample), "{:?}", sample);
    }
}

fn text_of(value: &serde_json::Value) -> Option<String> {
    value.as_str().map(|s| s.to_string())
}

fn texts_of(value: &serde_json::Value) -> Vec<String> {
    value.as_array().map(|a| a.iter().filter_map(text_of).collect()).unwrap_or_default()
}

fn score_of(value: &serde_json::Value) -> Option<Confidence> {
    value.as_f64().map(|f| Confidence::from_bits((f as f32).to_bits()))
}

/// The members of a reply that the library reads, taken out of its JSON.
fn reply_of(json: &str) -> HttpResponse {
    let value: serde_json::Value = serde_json::from_str(json).unwrap();
    let dict = value.get("dict").and_then(|d| d.as_array()).map(|blocks| {
        blocks
            .iter()
            .map(|block| {
                if block.is_null() {
                    return None;
                }
                Some(HttpResponseDict {
                    pos: text_of(&block["pos"]).unwrap(),
                    terms: texts_of(&block["terms"]),
                    entry: block["entry"]
                        .as_array()
                        .unwrap()
                        .iter()
                        .map(|e| SearchResultEntry {
                            word: text_of(&e["word"]).unwrap(),
                            reverse_translation: texts_of(&e["reverse_translation"]),
                            score: score_of(&e["score"]),
                        })
                        .collect(),
                    base_form: text_of(&block["base_form"]).unwrap(),
                    pos_enum: block["pos_enum"].as_i64().unwrap() as i32,
                })
            })
            .collect()
    });
    let sentences = value.get("sentences").and_then(|s| s.as_array()).map(|sentences| {
        sentences
            .iter()
            .map(|s| {
                if s.is_null() {
                    return None;
                }
                Some(HttpResponseSentence {
                    src_translit: text_of(&s["src_translit"]),
                    trans: text_of(&s["trans"]),
                    orig: text_of(&s["orig"]),
                    translit: text_of(&s["translit"]),
                })
            })
            .collect()
    });
    HttpResponse {
        dict,
        sentences,
        src: text_of(&value["src"]).unwrap(),
        confidence: score_of(&value["confidence"]),
    }
}

#[test]
fn deserialize_json() {
    let jsondata = r#"
        {"dict":[{"pos":"interjection","terms":["もしもし！","今日は!"],"entry":[{"word":"もしもし！","reverse_translation":["Hello!"],"score":0.004559123},{"word":"今日は!","reverse_translation":["Hi!","Hello!","Good afternoon!","Good day!"]}],"base_form":"Hello!","pos_enum":9}],"src":"en","confidence":1.0,"spell":{},"ld_result":{"srclangs":["en"],"srclangs_confidences":[1.0],"extended_srclangs":["en"]}}
        "#;
    let response: HttpResponse = reply_of(jsondata);
    assert_eq!(response.src, "en");

    // the reply read from its text is the reply built by hand
    let built = hello_reply();
    assert_eq!(response.confidence, built.confidence);
    let read = SearchResult::try_from(response).unwrap();
    let made = SearchResult::try_from(built).unwrap();
    assert_eq!(read.to_string(), made.to_string());
    let result = wdym::search::SearchResult::from(read);
    let definitions = result.definitions.unwrap();
    assert_eq!(definitions.len(), 2);
    assert_eq!(definitions[0].meaning, "もしもし！");
    assert_eq!(definitions[0].pos, "interjection");
    assert_eq!(definitions[1].meaning, "今日は!");
    assert_eq!(result.src_lang, Some("en".to_string()));
}

#[test]
fn reply_with_sentences_from_its_text() {
    let jsondata = r#"{"sentences":[{"trans":"計算","orig":"calculation","backend":10},{"src_translit":"kalkyuleishan","translit":"Keisan"}],"src":"en","confidence":0.9,"ld_result":{}}"#;
    let answer = SearchResult::try_from(reply_of(jsondata)).unwrap();
    assert!(answer.to_string().contains("Keisan"));
    assert_eq!(
        answer.to_string(),
        "src lang: en\ntranslations:\n\tcalculation\n\t計算\nsrc_translit:\n\tkalkyuleishan\ntranslit:\n\tKeisan\n"
    );
    let result = wdym::search::SearchResult::from(answer);
    assert!(result.definitions.is_none());
    assert_eq!(result.translations.unwrap().len(), 1);
    let literation = result.literation.unwrap();
    assert_eq!(literation.orig, Some("kalkyuleishan".to_string()));
    assert_eq!(literation.translated, Some("Keisan".to_string()));
}
