use dncl_trans::client::answer_from_document;
use dncl_trans::client::answer_from_reply;
use dncl_trans::client::user_messages;
use dncl_trans::client::Header;
use dncl_trans::client::Message;
use dncl_trans::client::Role;
use dncl_trans::client::TransportError;
use dncl_trans::client::COMPLETIONS_URL;
use dncl_trans::request::QuerySetting;

fn setting<'a>() -> QuerySetting<'a> {
    QuerySetting { api_key: "sk-test", model: "o1-preview", seed: -7, max_completion_tokens: Some(4096) }
}

fn header(name: &str, value: &str) -> Header {
    Header { name: name.to_string(), value: value.to_string() }
}

#[test]
fn roles_have_the_names_of_the_protocol() {
    assert_eq!(Role::User.name(), "user");
    assert_eq!(Role::Assistant.name(), "assistant");
}

#[test]
fn the_address_of_completions() {
    assert_eq!(COMPLETIONS_URL, "https://api.openai.com/v1/chat/completions");
}

#[test]
fn every_message_is_said_by_the_user() {
    let messages = user_messages(&["guide", "prompt"]);
    assert_eq!(
        messages,
        vec![
            Message { role: Role::User, content: "guide".to_string() },
            Message { role: Role::User, content: "prompt".to_string() },
        ]
    );
    assert!(user_messages(&[]).is_empty());
}

#[test]
fn the_common_header_carries_the_credential() {
    let (url, headers) = setting().common_header();
    assert_eq!(url, "https://api.openai.com/v1/chat/completions");
    assert_eq!(
        headers,
        vec![
            header("Content-Type", "application/json"),
            header("Authorization", "Bearer sk-test"),
        ]
    );
}

#[test]
fn the_request_body_has_the_settings_and_the_messages() {
    let messages = user_messages(&["a"]);
    let body = setting().make_request_body(messages.clone());
    assert_eq!(body.model, "o1-preview");
    assert_eq!(body.messages, messages);
    assert_eq!(body.seed, -7);
    assert_eq!(body.max_completion_tokens, Some(4096));
}

#[test]
fn a_query_is_one_call_with_all_of_it() {
    let call = setting().query(&["guide", "prompt"]);
    assert_eq!(call.url, COMPLETIONS_URL);
    assert_eq!(
        call.headers,
        vec![
            header("Content-Type", "application/json"),
            header("Authorization", "Bearer sk-test"),
        ]
    );
    assert_eq!(call.body, setting().make_request_body(user_messages(&["guide", "prompt"])));
}

#[test]
fn the_answer_is_the_content_of_the_first_choice() {
    let reply = r#"{"id":"x","choices":[{"index":0,"message":{"role":"assistant","content":"fn main() {}"}},{"message":{"content":"second"}}]}"#;
    assert_eq!(answer_from_reply(reply), Ok("fn main() {}".to_string()));
}

#[test]
fn an_answer_keeps_what_json_escapes() {
    let reply = r#"{"choices":[{"message":{"content":"line 1\nline \"2\"\t表"}}]}"#;
    assert_eq!(answer_from_reply(reply), Ok("line 1\nline \"2\"\t表".to_string()));
}

#[test]
fn a_reply_without_choices_is_handed_back_in_print() {
    let reply = r#"{ "error" : { "message" : "bad key", "code" : 401 } }"#;
    assert_eq!(
        answer_from_reply(reply),
        Ok("[Unexpected response]\n{\"error\":{\"code\":401,\"message\":\"bad key\"}}".to_string())
    );
}

#[test]
fn a_reply_whose_content_is_no_text_is_handed_back_in_print() {
    let reply = r#"{"choices":[{"message":{"content":null}}]}"#;
    assert_eq!(
        answer_from_reply(reply),
        Ok("[Unexpected response]\n{\"choices\":[{\"message\":{\"content\":null}}]}".to_string())
    );
    let number = r#"{"choices":[{"message":{"content":12}}]}"#;
    assert_eq!(
        answer_from_reply(number),
        Ok("[Unexpected response]\n{\"choices\":[{\"message\":{\"content\":12}}]}".to_string())
    );
}

#[test]
fn a_reply_with_no_choice_is_handed_back_in_print() {
    assert_eq!(
        answer_from_reply(r#"{"choices":[]}"#),
        Ok("[Unexpected response]\n{\"choices\":[]}".to_string())
    );
    assert_eq!(
        answer_from_reply(r#"{"choices":{"0":{"message":{"content":"x"}}}}"#),
        Ok("[Unexpected response]\n{\"choices\":{\"0\":{\"message\":{\"content\":\"x\"}}}}"
            .to_string())
    );
}

#[test]
fn a_reply_that_is_no_object_is_handed_back_in_print() {
    assert_eq!(answer_from_reply("[1, 2]"), Ok("[Unexpected response]\n[1,2]".to_string()));
    assert_eq!(answer_from_reply("\"text\""), Ok("[Unexpected response]\n\"text\"".to_string()));
    assert_eq!(answer_from_reply("null"), Ok("[Unexpected response]\nnull".to_string()));
}

#[test]
fn an_empty_answer_is_an_answer() {
    assert_eq!(
        answer_from_reply(r#"{"choices":[{"message":{"content":""}}]}"#),
        Ok(String::new())
    );
}

#[test]
fn a_reply_that_is_no_json_is_an_error() {
    for reply in ["", "<html>502</html>", "{\"choices\":", "{} trailing"] {
        match answer_from_reply(reply) {
            Err(TransportError::Envelope(reason)) => assert!(!reason.is_empty()),
            other => panic!("{:?}", other),
        }
    }
}

#[test]
fn the_answer_of_a_parsed_reply() {
    let reply: serde_json::Value =
        serde_json::from_str(r#"{"choices":[{"message":{"content":"ok"}}]}"#).unwrap();
    assert_eq!(answer_from_document(&reply), "ok");
    let other: serde_json::Value = serde_json::from_str(r#"{"b":1,"a":[true,1.5]}"#).unwrap();
    assert_eq!(answer_from_document(&other), "[Unexpected response]\n{\"a\":[true,1.5],\"b\":1}");
}

#[test]
fn the_reason_of_a_transport_error() {
    assert_eq!(TransportError::Network("timed out".to_string()).reason(), "timed out");
    assert_eq!(TransportError::Envelope("EOF".to_string()).reason(), "EOF");
}
