use dncl_trans::fingerprint::hash_content;
use dncl_trans::request::Directive;
use dncl_trans::request::InputError;
use dncl_trans::request::MacroInput;
use dncl_trans::request::TranslationRequest;
use dncl_trans::request::DEFAULT_MODEL;
use dncl_trans::request::LINE_BREAK_CODE;

fn input_of(code: &str) -> MacroInput {
    MacroInput {
        model: None,
        seed: None,
        max_completion_tokens: None,
        editing: false,
        dncl_code: code.to_string(),
    }
}

#[test]
fn the_default_model_and_the_line_break_code() {
    assert_eq!(DEFAULT_MODEL, "gpt-4o");
    assert_eq!(LINE_BREAK_CODE, ';');
}

#[test]
fn the_prompt_is_the_source_in_a_fenced_block() {
    let request = TranslationRequest::normalize(&input_of("a;b"), "GUIDE").unwrap();
    assert_eq!(request.prompt(), "```dncl\na\nb\n```");
    assert_eq!(request.guide(), "GUIDE");
    assert_eq!(request.prompt_text(), "GUIDE```dncl\na\nb\n```");
}

#[test]
fn every_line_break_code_becomes_a_line_break() {
    let request = TranslationRequest::normalize(&input_of(";x;;y;"), "").unwrap();
    assert_eq!(request.prompt(), "```dncl\n\nx\n\ny\n\n```");
}

#[test]
fn a_source_that_is_not_ascii_is_kept() {
    let request =
        TranslationRequest::normalize(&input_of("表示する(\"Hello, world!\");"), "仕様").unwrap();
    assert_eq!(request.prompt(), "```dncl\n表示する(\"Hello, world!\")\n\n```");
    assert_eq!(request.prompt_text(), "仕様```dncl\n表示する(\"Hello, world!\")\n\n```");
}

#[test]
fn the_model_is_the_named_one_or_the_default() {
    let plain = TranslationRequest::normalize(&input_of("x"), "").unwrap();
    assert_eq!(plain.model(), "gpt-4o");
    let mut input = input_of("x");
    input.model = Some("o1-preview".to_string());
    let named = TranslationRequest::normalize(&input, "").unwrap();
    assert_eq!(named.model(), "o1-preview");
}

#[test]
fn the_seed_is_the_named_one() {
    let mut input = input_of("x");
    input.seed = Some(-123456);
    let request = TranslationRequest::normalize(&input, "").unwrap();
    assert_eq!(request.seed(), -123456);
}

#[test]
fn the_default_seed_is_the_fingerprint_of_the_prompt() {
    let request = TranslationRequest::normalize(&input_of("x;y"), "GUIDE").unwrap();
    assert_eq!(request.seed(), hash_content("```dncl\nx\ny\n```".as_bytes()));
}

#[test]
fn the_default_seed_depends_on_the_source_alone() {
    let mut first = input_of("x;y");
    first.model = Some("o1-preview".to_string());
    first.max_completion_tokens = Some(10);
    let second = input_of("x;y");
    let a = TranslationRequest::normalize(&first, "one").unwrap();
    let b = TranslationRequest::normalize(&second, "two").unwrap();
    assert_eq!(a.seed(), b.seed());
    let c = TranslationRequest::normalize(&input_of("x;z"), "two").unwrap();
    assert_ne!(b.seed(), c.seed());
}

#[test]
fn the_token_limit_is_carried_over() {
    let mut input = input_of("x");
    input.max_completion_tokens = Some(4096);
    let request = TranslationRequest::normalize(&input, "").unwrap();
    assert_eq!(request.max_output_tokens(), Some(4096));
    assert_eq!(TranslationRequest::normalize(&input_of("x"), "").unwrap().max_output_tokens(), None);
}

#[test]
fn an_empty_source_is_refused() {
    assert_eq!(
        TranslationRequest::normalize(&input_of(""), "GUIDE"),
        Err(InputError::CodeIsEmpty)
    );
}

#[test]
fn the_setting_of_a_request_has_its_fields_and_the_credential() {
    let mut input = input_of("x");
    input.seed = Some(5);
    input.max_completion_tokens = Some(9);
    let request = TranslationRequest::normalize(&input, "").unwrap();
    let setting = request.setting("secret");
    assert_eq!(setting.api_key, "secret");
    assert_eq!(setting.model, "gpt-4o");
    assert_eq!(setting.seed, 5);
    assert_eq!(setting.max_completion_tokens, Some(9));
}

#[test]
fn the_cache_key_of_a_request_is_that_of_its_setting_and_prompt_text() {
    let mut input = input_of("x");
    input.seed = Some(5);
    let request = TranslationRequest::normalize(&input, "GUIDE").unwrap();
    let expected = request.setting("any").cache_key("GUIDE```dncl\nx\n```");
    assert_eq!(request.cache_key(), expected);
    assert!(request.cache_key() >= 0);
}

#[test]
fn equal_requests_have_equal_cache_keys() {
    let first = TranslationRequest::normalize(&input_of("x;y"), "GUIDE").unwrap();
    let second = TranslationRequest::normalize(&input_of("x;y"), "GUIDE").unwrap();
    assert_eq!(first.cache_key(), second.cache_key());
    assert_eq!(first.clone(), second);
}

#[test]
fn the_guide_is_part_of_the_cache_key() {
    let first = TranslationRequest::normalize(&input_of("x"), "one").unwrap();
    let second = TranslationRequest::normalize(&input_of("x"), "two").unwrap();
    assert_ne!(first.cache_key(), second.cache_key());
}

#[test]
fn a_literal_has_its_line_breaks_written_as_the_code() {
    let input = MacroInput::from_literal(
        Some("o1-preview".to_string()),
        Some(1),
        Some(2),
        true,
        "a\nb\n",
    )
    .unwrap();
    assert_eq!(input.dncl_code, "a;b;");
    assert_eq!(input.model, Some("o1-preview".to_string()));
    assert_eq!(input.seed, Some(1));
    assert_eq!(input.max_completion_tokens, Some(2));
    assert!(input.editing);
}

#[test]
fn a_literal_comes_back_with_its_line_breaks() {
    let input = MacroInput::from_literal(None, None, None, false, "x = 1\ny = 2").unwrap();
    let request = TranslationRequest::normalize(&input, "").unwrap();
    assert_eq!(request.prompt(), "```dncl\nx = 1\ny = 2\n```");
}

#[test]
fn an_empty_literal_is_refused() {
    assert_eq!(
        MacroInput::from_literal(None, None, None, false, ""),
        Err(InputError::CodeIsEmpty)
    );
}

#[test]
fn the_content_of_a_file_is_taken_as_it_is() {
    let input =
        MacroInput::from_file_content(None, Some(3), None, false, "a\nb;c".to_string()).unwrap();
    assert_eq!(input.dncl_code, "a\nb;c");
    assert_eq!(input.seed, Some(3));
}

#[test]
fn an_empty_file_is_refused() {
    assert_eq!(
        MacroInput::from_file_content(None, None, None, false, String::new()),
        Err(InputError::FileIsEmpty)
    );
}

#[test]
fn tokens_are_taken_as_they_are() {
    let input = MacroInput::from_tokens(None, None, Some(8), false, "x = 1 ;".to_string()).unwrap();
    assert_eq!(input.dncl_code, "x = 1 ;");
    assert_eq!(input.max_completion_tokens, Some(8));
    assert_eq!(
        MacroInput::from_tokens(None, None, None, false, String::new()),
        Err(InputError::CodeIsEmpty)
    );
}

#[test]
fn the_messages_of_input_errors() {
    assert_eq!(InputError::CodeIsEmpty.message(), "code is empty");
    assert_eq!(InputError::FileIsEmpty.message(), "file is empty");
}

#[test]
fn directives_are_found_by_their_names() {
    assert_eq!(Directive::named("model"), Some(Directive::Model));
    assert_eq!(Directive::named("max_completion_tokens"), Some(Directive::MaxCompletionTokens));
    assert_eq!(Directive::named("seed"), Some(Directive::Seed));
    assert_eq!(Directive::named("file"), Some(Directive::File));
    assert_eq!(Directive::named("editing"), Some(Directive::Editing));
}

#[test]
fn other_names_are_no_directives() {
    assert_eq!(Directive::named("Model"), None);
    assert_eq!(Directive::named(""), None);
    assert_eq!(Directive::named("temperature"), None);
    assert_eq!(Directive::named("seed "), None);
}
