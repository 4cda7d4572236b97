use tantivy_node::analyzer::count_chars_until_offset;
use tantivy_node::analyzer::new_text_analyzer;
use tantivy_node::analyzer::raw_token;
use tantivy_node::analyzer::simple_tokenize;
use tantivy_node::analyzer::text_analyzer_tokenize;
use tantivy_node::analyzer::whitespace_tokenize;
use tantivy_node::analyzer::with_char_offsets;
use tantivy_node::analyzer::AnalyzerError;
use tantivy_node::analyzer::TextAnalyzerFilters;
use tantivy_node::analyzer::Token;
use tantivy_node::descriptor::LanguageName;

fn no_filters() -> TextAnalyzerFilters {
    TextAnalyzerFilters {
        remove_long: None,
        alpha_num_only: false,
        ascii_folding: false,
        lower_case: false,
        stemmer: None,
        filter_stop_words: None,
    }
}

fn summary(token: &Token) -> (u32, u32, u32, u32, u32, String, u32) {
    (
        token.byte_offset_from,
        token.byte_offset_to,
        token.char_offset_from,
        token.char_offset_to,
        token.position,
        token.text.clone(),
        token.position_length,
    )
}

#[test]
fn tokenize_keeps_codepoint_offsets_behind_a_multibyte_letter() {
    let mut filters = no_filters();
    filters.alpha_num_only = true;
    filters.lower_case = true;
    let mut analyzer = new_text_analyzer(filters).unwrap();
    let tokens = text_analyzer_tokenize(&mut analyzer, "Café 123!");
    assert_eq!(tokens.len(), 1);
    assert_eq!(summary(&tokens[0]), (6, 9, 5, 8, 1, "123".to_string(), 1));
}

#[test]
fn tokenize_lower_case_keeps_codepoint_offsets_of_a_multibyte_letter() {
    let mut filters = no_filters();
    filters.lower_case = true;
    let mut analyzer = new_text_analyzer(filters).unwrap();
    let tokens = text_analyzer_tokenize(&mut analyzer, "Café 123!");
    assert_eq!(tokens.len(), 2);
    assert_eq!(summary(&tokens[0]), (0, 5, 0, 4, 0, "café".to_string(), 1));
    assert_eq!(summary(&tokens[1]), (6, 9, 5, 8, 1, "123".to_string(), 1));
}

#[test]
fn tokenize_without_filters_keeps_case() {
    let mut analyzer = new_text_analyzer(no_filters()).unwrap();
    let tokens = text_analyzer_tokenize(&mut analyzer, "Hello, World");
    assert_eq!(tokens.len(), 2);
    assert_eq!(summary(&tokens[0]), (0, 5, 0, 5, 0, "Hello".to_string(), 1));
    assert_eq!(summary(&tokens[1]), (7, 12, 7, 12, 1, "World".to_string(), 1));
}

#[test]
fn tokenize_empty_text_gives_no_token() {
    let mut analyzer = new_text_analyzer(no_filters()).unwrap();
    assert!(text_analyzer_tokenize(&mut analyzer, "").is_empty());
}

#[test]
fn tokenize_twice_gives_the_same_tokens() {
    let mut analyzer = new_text_analyzer(no_filters()).unwrap();
    let first = text_analyzer_tokenize(&mut analyzer, "déjà vu, déjà vu");
    let second = text_analyzer_tokenize(&mut analyzer, "déjà vu, déjà vu");
    assert_eq!(first.len(), 4);
    for (a, b) in first.iter().zip(second.iter()) {
        assert_eq!(summary(a), summary(b));
    }
    assert_eq!(summary(&first[2]), (11, 17, 9, 13, 2, "déjà".to_string(), 1));
}

#[test]
fn remove_long_drops_tokens_at_the_limit() {
    let mut filters = no_filters();
    filters.remove_long = Some(5);
    let mut analyzer = new_text_analyzer(filters).unwrap();
    let tokens = text_analyzer_tokenize(&mut analyzer, "tiny short longer");
    let texts: Vec<String> = tokens.iter().map(|t| t.text.clone()).collect();
    assert_eq!(texts, vec!["tiny".to_string()]);
}

#[test]
fn alpha_num_only_drops_tokens_with_other_letters() {
    let mut filters = no_filters();
    filters.alpha_num_only = true;
    let mut analyzer = new_text_analyzer(filters).unwrap();
    let tokens = text_analyzer_tokenize(&mut analyzer, "Café abc");
    let texts: Vec<String> = tokens.iter().map(|t| t.text.clone()).collect();
    assert_eq!(texts, vec!["abc".to_string()]);
    assert_eq!(summary(&tokens[0]), (6, 9, 5, 8, 1, "abc".to_string(), 1));
}

#[test]
fn folding_runs_behind_the_alphanumeric_filter() {
    let mut filters = no_filters();
    filters.alpha_num_only = true;
    filters.ascii_folding = true;
    let mut analyzer = new_text_analyzer(filters).unwrap();
    let tokens = text_analyzer_tokenize(&mut analyzer, "Café abc");
    let texts: Vec<String> = tokens.iter().map(|t| t.text.clone()).collect();
    assert_eq!(texts, vec!["abc".to_string()]);
}

#[test]
fn ascii_folding_alone_folds() {
    let mut filters = no_filters();
    filters.ascii_folding = true;
    let mut analyzer = new_text_analyzer(filters).unwrap();
    let tokens = text_analyzer_tokenize(&mut analyzer, "Café");
    assert_eq!(summary(&tokens[0]), (0, 5, 0, 4, 0, "Cafe".to_string(), 1));
}

#[test]
fn lower_case_runs_before_the_stemmer() {
    let mut filters = no_filters();
    filters.lower_case = true;
    filters.stemmer = Some(LanguageName::English);
    let mut analyzer = new_text_analyzer(filters).unwrap();
    let tokens = text_analyzer_tokenize(&mut analyzer, "Running Dogs");
    let texts: Vec<String> = tokens.iter().map(|t| t.text.clone()).collect();
    assert_eq!(texts, vec!["run".to_string(), "dog".to_string()]);
}

#[test]
fn stop_words_are_dropped_and_positions_kept() {
    let mut filters = no_filters();
    filters.lower_case = true;
    filters.filter_stop_words = Some(LanguageName::English);
    let mut analyzer = new_text_analyzer(filters).unwrap();
    let tokens = text_analyzer_tokenize(&mut analyzer, "The cat and the hat");
    let texts: Vec<(String, u32)> = tokens.iter().map(|t| (t.text.clone(), t.position)).collect();
    assert_eq!(texts, vec![("cat".to_string(), 1), ("hat".to_string(), 4)]);
}

#[test]
fn stop_words_of_a_language_without_a_list_are_refused() {
    for language in [
        LanguageName::Arabic,
        LanguageName::Greek,
        LanguageName::Romanian,
        LanguageName::Tamil,
        LanguageName::Turkish,
    ] {
        let mut filters = no_filters();
        filters.filter_stop_words = Some(language);
        match new_text_analyzer(filters) {
            Err(error) => assert_eq!(error, AnalyzerError::NoStopWords(language)),
            Ok(_) => panic!("a pipeline was built"),
        }
    }
}

#[test]
fn stop_words_of_the_other_languages_are_accepted() {
    for language in [
        LanguageName::Danish,
        LanguageName::Dutch,
        LanguageName::English,
        LanguageName::Finnish,
        LanguageName::French,
        LanguageName::German,
        LanguageName::Hungarian,
        LanguageName::Italian,
        LanguageName::Norwegian,
        LanguageName::Portuguese,
        LanguageName::Russian,
        LanguageName::Spanish,
        LanguageName::Swedish,
    ] {
        let mut filters = no_filters();
        filters.filter_stop_words = Some(language);
        assert!(new_text_analyzer(filters).is_ok());
    }
}

#[test]
fn stemmer_follows_the_language() {
    let mut filters = no_filters();
    filters.lower_case = true;
    filters.stemmer = Some(LanguageName::French);
    let mut analyzer = new_text_analyzer(filters).unwrap();
    let french = text_analyzer_tokenize(&mut analyzer, "running");
    filters.stemmer = Some(LanguageName::English);
    let mut analyzer = new_text_analyzer(filters).unwrap();
    let english = text_analyzer_tokenize(&mut analyzer, "running");
    assert_eq!(english[0].text, "run");
    assert_ne!(french[0].text, "run");
}

#[test]
fn count_chars_walks_whole_characters() {
    let text = "aé€😀z";
    let mut cursor = 0usize;
    assert_eq!(count_chars_until_offset(text, &mut cursor, 0), 0);
    assert_eq!(cursor, 0);
    assert_eq!(count_chars_until_offset(text, &mut cursor, 1), 1);
    assert_eq!(cursor, 1);
    assert_eq!(count_chars_until_offset(text, &mut cursor, 2), 1);
    assert_eq!(cursor, 3);
    assert_eq!(count_chars_until_offset(text, &mut cursor, 2), 0);
    assert_eq!(cursor, 3);
    assert_eq!(count_chars_until_offset(text, &mut cursor, 10), 2);
    assert_eq!(cursor, 10);
    assert_eq!(count_chars_until_offset(text, &mut cursor, 1000), 1);
    assert_eq!(cursor, 11);
    assert_eq!(count_chars_until_offset(text, &mut cursor, 1000), 0);
    assert_eq!(cursor, 11);
}

#[test]
fn token_new_keeps_the_low_32_bits() {
    let raw = raw_token(3, 8, 2, "hello".to_string(), 1);
    let token = Token::new(&raw, 3, 7);
    assert_eq!(summary(&token), (3, 8, 3, 7, 2, "hello".to_string(), 1));
    let wide = raw_token(usize::MAX, 0x1_0000_0005, usize::MAX, "x".to_string(), 0x2_0000_0000);
    let token = Token::new(&wide, 0x1_0000_0000, 0x1_0000_0001);
    assert_eq!(summary(&token), (u32::MAX, 5, 0, 1, u32::MAX, "x".to_string(), 0));
}

#[test]
fn simple_tokenize_splits_on_punctuation() {
    assert_eq!(simple_tokenize("Hello, happy tax-payer!"), vec!["Hello", "happy", "tax", "payer"]);
    assert!(simple_tokenize("").is_empty());
}

#[test]
fn whitespace_tokenize_splits_on_whitespace_only() {
    assert_eq!(whitespace_tokenize("Hello, happy tax-payer!"), vec!["Hello,", "happy", "tax-payer!"]);
    assert!(whitespace_tokenize("  ").is_empty());
}

#[test]
fn char_offsets_are_code_point_counts() {
    let texts = ["Café 123!", "aé€😀z été; naïve—coöperate 😀😀 end", "", "日本語 のテキスト", "plain ascii"];
    for lower_case in [false, true] {
        let mut filters = no_filters();
        filters.lower_case = lower_case;
        filters.remove_long = Some(12);
        let mut analyzer = new_text_analyzer(filters).unwrap();
        for text in texts {
            for token in text_analyzer_tokenize(&mut analyzer, text) {
                let from = token.byte_offset_from as usize;
                let to = token.byte_offset_to as usize;
                assert_eq!(token.char_offset_from as usize, text[..from].chars().count());
                assert_eq!(token.char_offset_to as usize, text[..to].chars().count());
                assert!(token.char_offset_to as usize <= text.chars().count());
            }
        }
    }
}

#[test]
fn a_token_behind_a_two_byte_letter_is_one_character_ahead_of_its_bytes() {
    let mut filters = no_filters();
    filters.alpha_num_only = true;
    filters.lower_case = true;
    let mut analyzer = new_text_analyzer(filters).unwrap();
    let tokens = text_analyzer_tokenize(&mut analyzer, "Café 123!");
    for token in &tokens {
        assert!(token.char_offset_to <= 9);
        assert_eq!(token.char_offset_from + 1, token.byte_offset_from);
        assert_eq!(token.char_offset_to + 1, token.byte_offset_to);
    }
    assert_eq!(tokens.len(), 1);
}

#[test]
fn with_char_offsets_follows_tokens_in_text_order() {
    let text = "é€ 😀z";
    let tokens = vec![
        raw_token(0, 5, 0, "é€".to_string(), 1),
        raw_token(6, 11, 1, "😀z".to_string(), 1),
    ];
    let result = with_char_offsets(text, &tokens);
    assert_eq!(summary(&result[0]), (0, 5, 0, 2, 0, "é€".to_string(), 1));
    assert_eq!(summary(&result[1]), (6, 11, 3, 5, 1, "😀z".to_string(), 1));
}

#[test]
fn with_char_offsets_never_walks_back() {
    let text = "abc déf";
    let tokens = vec![
        raw_token(4, 8, 0, "déf".to_string(), 1),
        raw_token(0, 3, 1, "abc".to_string(), 1),
        raw_token(5, 100, 2, "x".to_string(), 1),
    ];
    let result = with_char_offsets(text, &tokens);
    assert_eq!(summary(&result[0]), (4, 8, 4, 7, 0, "déf".to_string(), 1));
    assert_eq!(summary(&result[1]), (0, 3, 7, 7, 1, "abc".to_string(), 1));
    assert_eq!(summary(&result[2]), (5, 100, 7, 7, 2, "x".to_string(), 1));
    assert!(with_char_offsets(text, &Vec::new()).is_empty());
}

#[test]
fn with_char_offsets_rounds_up_to_the_next_character() {
    let text = "a😀b";
    let tokens = vec![raw_token(2, 3, 0, "?".to_string(), 1)];
    let result = with_char_offsets(text, &tokens);
    assert_eq!(summary(&result[0]), (2, 3, 2, 2, 0, "?".to_string(), 1));
}

#[test]
fn pipeline_lends_its_analyzer() {
    let mut filters = no_filters();
    filters.lower_case = true;
    let pipeline = new_text_analyzer(filters).unwrap();
    let mut analyzer = pipeline.as_analyzer().clone();
    let mut stream = analyzer.token_stream("Hello World");
    let mut texts = Vec::new();
    while let Some(token) = stream.next() {
        texts.push(token.text.clone());
    }
    assert_eq!(texts, vec!["hello".to_string(), "world".to_string()]);
}
