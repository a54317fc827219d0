use dncl_trans::cache::cache_file_name;
use dncl_trans::cache::CacheFile;
use dncl_trans::cache::CacheRecord;
use dncl_trans::cache::FileState;
use dncl_trans::cache::StorageError;
use dncl_trans::client::TransportError;
use dncl_trans::request::InputError;
use dncl_trans::request::MacroInput;
use dncl_trans::request::TranslationRequest;
use dncl_trans::transpile::transpile;
use dncl_trans::transpile::Action;
use dncl_trans::transpile::Event;
use dncl_trans::transpile::TranspileError;
use dncl_trans::transpile::TranspileState;

const GUIDE: &str = "The guide to the language.\n";

/// A cache directory, a credential and a service that always gives one reply.
struct World {
    files: Vec<CacheFile>,
    credential: Option<String>,
    reply: Result<String, String>,
    write_error: Option<String>,
    calls: usize,
    warning: Option<StorageError>,
}

fn world(reply: Result<&str, &str>) -> World {
    World {
        files: Vec::new(),
        credential: Some("sk-test".to_string()),
        reply: match reply {
            Ok(text) => Ok(text.to_string()),
            Err(reason) => Err(reason.to_string()),
        },
        write_error: None,
        calls: 0,
        warning: None,
    }
}

fn reply_with(content: &str) -> String {
    let mut text = String::from("{\"choices\":[{\"message\":{\"role\":\"assistant\",\"content\":");
    text.push_str(&serde_json::Value::String(content.to_string()).to_string());
    text.push_str("}}]}");
    text
}

fn input_of(code: &str) -> MacroInput {
    MacroInput {
        model: None,
        seed: None,
        max_completion_tokens: None,
        editing: false,
        dncl_code: code.to_string(),
    }
}

fn same_input(input: &MacroInput) -> MacroInput {
    MacroInput {
        model: input.model.clone(),
        seed: input.seed,
        max_completion_tokens: input.max_completion_tokens,
        editing: input.editing,
        dncl_code: input.dncl_code.clone(),
    }
}

/// Drives one translation to its end, doing in `world` what the machine asks.
fn run(world: &mut World, input: MacroInput) -> Result<String, TranspileError> {
    let mut state = TranspileState::Start;
    let mut event = Event::Begin { input, guide: GUIDE.to_string() };
    for _ in 0..10 {
        let (next, action) = transpile(state, event);
        state = next;
        event = match action {
            Action::ReadCache(name) => Event::Directory(
                world.files.iter().filter(|file| file.name == name).cloned().collect(),
            ),
            Action::ResolveCredential => Event::Credential(world.credential.clone()),
            Action::Send(call) => {
                world.calls += 1;
                assert_eq!(call.body.messages.len(), 2);
                assert_eq!(call.body.messages[0].content, GUIDE);
                Event::Reply(world.reply.clone())
            }
            Action::WriteCache(file) => match &world.write_error {
                None => {
                    world.files.retain(|old| old.name != file.name);
                    world.files.push(file);
                    Event::Stored(Ok(()))
                }
                Some(reason) => Event::Stored(Err(reason.clone())),
            },
            Action::Finish { result, warning } => {
                assert_eq!(state, TranspileState::Done);
                world.warning = warning;
                return result;
            }
        };
    }
    panic!("the translation did not end");
}

#[test]
fn test_1() {
    let code = r#"
表示する("Hello, world!");
"#;

    let macro_input = MacroInput { model: Some("o1-preview".to_string()), ..input_of(code) };

    let mut world = world(Ok(&reply_with(
        "```rust\nfn main() {\n    println!(\"Hello, world!\");\n}\n```",
    )));
    let res = run(&mut world, macro_input).unwrap();

    assert_eq!(res, "fn main() {\n    println!(\"Hello, world!\");\n}");
    assert_eq!(world.calls, 1);
}

#[test]
fn test_2() {
    let code = r#"
Data=[3,18,29,33,48,52,62,77,89,97];
kazu=要素数(Data);
表示する("0~99の数字を入力してください");
atai={外部からの入力};
hidari=0, migi=kazu-1;
owari=0;
hidari <= migi and owari == 0 の間繰り返す: ;
|  aida=(hidari+migi) div 2 # 演算子 div は商の整数値を返す;
|  もし Data[aida] == atai ならば: ;
|  |  表示する(atai,"は",aida,"番目にありました");
|  |  owari=1;
|  そうでなくもし Data[aida]<atai ならば: ;
|  |  hidari=aida+1;
|  そうでなければ: ;
|= |= migi=aida-1;
もし owari==0 ならば: ;
|= 表示する(atai,"は見つかりませんでした");
表示する("添字"," ","要素");
iを0からkazu-1まで1ずつ増やしながら繰り返す: ;
|= 表示する(i," ",Data[i]);
"#;

    let macro_input = MacroInput { model: Some("o1-preview".to_string()), ..input_of(code) };

    let answer = "Here is the program.\n\n```rust\nuse std::io;\n\nfn main() {\n    let data = [3, 18, 29, 33, 48, 52, 62, 77, 89, 97];\n}\n```\n";
    let mut world = world(Ok(&reply_with(answer)));
    let res = run(&mut world, macro_input).unwrap();

    assert_eq!(
        res,
        "use std::io;\n\nfn main() {\n    let data = [3, 18, 29, 33, 48, 52, 62, 77, 89, 97];\n}"
    );
    assert_eq!(world.calls, 1);
}

#[test]
fn the_first_step_asks_for_the_cache_file_of_the_request() {
    let input = input_of("x;y");
    let request = TranslationRequest::normalize(&input, GUIDE).unwrap();
    let (state, action) = transpile(
        TranspileState::Start,
        Event::Begin { input, guide: GUIDE.to_string() },
    );
    assert_eq!(action, Action::ReadCache(cache_file_name(request.cache_key())));
    assert_eq!(state, TranspileState::Lookup(request));
}

#[test]
fn an_empty_source_ends_the_translation_at_once() {
    let mut world = world(Ok(&reply_with("x")));
    assert_eq!(
        run(&mut world, input_of("")),
        Err(TranspileError::Input(InputError::CodeIsEmpty))
    );
    assert_eq!(world.calls, 0);
    assert!(world.files.is_empty());
}

#[test]
fn a_miss_asks_for_the_credential_and_a_hit_does_not() {
    let request = TranslationRequest::normalize(&input_of("x"), GUIDE).unwrap();
    let (state, action) =
        transpile(TranspileState::Lookup(request.clone()), Event::Directory(Vec::new()));
    assert_eq!(action, Action::ResolveCredential);
    assert_eq!(state, TranspileState::Configure(request.clone()));

    let file = request.setting("").save_cache(&request.prompt_text(), "```\ncode\n```");
    let (state, action) =
        transpile(TranspileState::Lookup(request), Event::Directory(vec![file]));
    assert_eq!(action, Action::Finish { result: Ok("code".to_string()), warning: None });
    assert_eq!(state, TranspileState::Done);
}

#[test]
fn the_call_that_is_sent_is_the_query_for_the_guide_and_the_prompt() {
    let mut input = input_of("x");
    input.model = Some("o1-preview".to_string());
    input.seed = Some(123456);
    input.max_completion_tokens = Some(4096);
    let request = TranslationRequest::normalize(&input, GUIDE).unwrap();
    let (state, action) = transpile(
        TranspileState::Configure(request.clone()),
        Event::Credential(Some("sk-test".to_string())),
    );
    let expected = request.setting("sk-test").query(&[GUIDE, "```dncl\nx\n```"]);
    assert_eq!(expected.body.model, "o1-preview");
    assert_eq!(expected.body.seed, 123456);
    assert_eq!(expected.body.max_completion_tokens, Some(4096));
    assert_eq!(action, Action::Send(expected));
    assert_eq!(state, TranspileState::Call(request));
}

#[test]
fn a_reply_is_kept_under_the_key_of_the_request() {
    let request = TranslationRequest::normalize(&input_of("x"), GUIDE).unwrap();
    let (state, action) = transpile(
        TranspileState::Call(request.clone()),
        Event::Reply(Ok(reply_with("the answer"))),
    );
    assert_eq!(state, TranspileState::Store("the answer".to_string()));
    assert_eq!(
        action,
        Action::WriteCache(CacheFile {
            name: cache_file_name(request.cache_key()),
            state: FileState::Record(CacheRecord {
                model: "gpt-4o".to_string(),
                seed: request.seed(),
                max_completion_tokens: None,
                response: "the answer".to_string(),
            }),
        })
    );
}

#[test]
fn translating_twice_calls_the_service_once() {
    let input = input_of("表示する(1);");
    let mut world = world(Ok(&reply_with("intro\n```rust\nfn main() {}\n```")));
    let first = run(&mut world, same_input(&input)).unwrap();
    assert_eq!(world.calls, 1);
    assert_eq!(world.files.len(), 1);

    world.reply = Ok(reply_with("```rust\nfn other() {}\n```"));
    world.credential = None;
    let second = run(&mut world, same_input(&input)).unwrap();
    assert_eq!(world.calls, 1);
    assert_eq!(world.files.len(), 1);
    assert_eq!(first, "fn main() {}");
    assert_eq!(second, first);
}

#[test]
fn another_request_is_another_call() {
    let mut world = world(Ok(&reply_with("```\na\n```")));
    run(&mut world, input_of("x")).unwrap();
    run(&mut world, input_of("y")).unwrap();
    let mut seeded = input_of("x");
    seeded.seed = Some(1);
    run(&mut world, seeded).unwrap();
    assert_eq!(world.calls, 3);
    assert_eq!(world.files.len(), 3);
}

#[test]
fn what_was_kept_is_found_again_unchanged() {
    let input = input_of("x");
    let answer = "no fence here, only text \"quoted\" and\nlines\n";
    let mut world = world(Ok(&reply_with(answer)));
    assert_eq!(run(&mut world, same_input(&input)), Ok(answer.to_string()));
    let request = TranslationRequest::normalize(&input, GUIDE).unwrap();
    assert_eq!(
        request.setting("").load_cache(&request.prompt_text(), &world.files),
        Ok(Some(answer.to_string()))
    );
}

#[test]
fn without_a_credential_the_translation_fails_and_keeps_nothing() {
    let mut world = world(Ok(&reply_with("x")));
    world.credential = None;
    assert_eq!(run(&mut world, input_of("x")), Err(TranspileError::Configuration));
    assert_eq!(world.calls, 0);
    assert!(world.files.is_empty());
}

#[test]
fn a_failed_exchange_fails_the_translation_and_keeps_nothing() {
    let mut world = world(Err("connection refused"));
    assert_eq!(
        run(&mut world, input_of("x")),
        Err(TranspileError::Transport(TransportError::Network("connection refused".to_string())))
    );
    assert_eq!(world.calls, 1);
    assert!(world.files.is_empty());
}

#[test]
fn a_reply_that_is_no_json_fails_the_translation_and_keeps_nothing() {
    let mut world = world(Ok("<html>bad gateway</html>"));
    match run(&mut world, input_of("x")) {
        Err(TranspileError::Transport(TransportError::Envelope(_))) => {}
        other => panic!("{:?}", other),
    }
    assert!(world.files.is_empty());
}

#[test]
fn a_reply_of_another_shape_is_an_answer_and_is_kept() {
    let mut world = world(Ok("{\"error\":{\"message\":\"quota\"}}"));
    let expected = "[Unexpected response]\n{\"error\":{\"message\":\"quota\"}}";
    assert_eq!(run(&mut world, input_of("x")), Ok(expected.to_string()));
    assert_eq!(world.files.len(), 1);
    assert_eq!(run(&mut world, input_of("x")), Ok(expected.to_string()));
    assert_eq!(world.calls, 1);
}

#[test]
fn a_cache_file_that_holds_no_record_fails_the_translation() {
    let input = input_of("x");
    let request = TranslationRequest::normalize(&input, GUIDE).unwrap();
    let mut world = world(Ok(&reply_with("x")));
    world.files.push(CacheFile {
        name: cache_file_name(request.cache_key()),
        state: FileState::Malformed("missing field `response`".to_string()),
    });
    assert_eq!(
        run(&mut world, input),
        Err(TranspileError::Storage(StorageError::Malformed(
            "missing field `response`".to_string()
        )))
    );
    assert_eq!(world.calls, 0);
}

#[test]
fn a_cache_file_that_cannot_be_read_fails_the_translation() {
    let input = input_of("x");
    let request = TranslationRequest::normalize(&input, GUIDE).unwrap();
    let mut world = world(Ok(&reply_with("x")));
    world.files.push(CacheFile {
        name: cache_file_name(request.cache_key()),
        state: FileState::Unreadable("permission denied".to_string()),
    });
    assert_eq!(
        run(&mut world, input),
        Err(TranspileError::Storage(StorageError::Io("permission denied".to_string())))
    );
}

#[test]
fn an_answer_that_cannot_be_kept_is_still_the_answer() {
    let mut world = world(Ok(&reply_with("```rust\nfn main() {}\n```")));
    world.write_error = Some("disk full".to_string());
    assert_eq!(run(&mut world, input_of("x")), Ok("fn main() {}".to_string()));
    assert_eq!(world.warning, Some(StorageError::Io("disk full".to_string())));
    assert!(world.files.is_empty());
    assert_eq!(run(&mut world, input_of("x")), Ok("fn main() {}".to_string()));
    assert_eq!(world.calls, 2);
}

#[test]
fn an_event_out_of_turn_ends_the_translation() {
    let request = TranslationRequest::normalize(&input_of("x"), GUIDE).unwrap();
    let out_of_turn = Action::Finish { result: Err(TranspileError::OutOfTurn), warning: None };
    let pairs = vec![
        (TranspileState::Start, Event::Credential(None)),
        (TranspileState::Lookup(request.clone()), Event::Stored(Ok(()))),
        (TranspileState::Configure(request.clone()), Event::Directory(Vec::new())),
        (TranspileState::Call(request), Event::Credential(Some("k".to_string()))),
        (TranspileState::Store("a".to_string()), Event::Reply(Ok("{}".to_string()))),
        (TranspileState::Done, Event::Stored(Ok(()))),
    ];
    for (state, event) in pairs {
        let (next, action) = transpile(state, event);
        assert_eq!(next, TranspileState::Done);
        assert_eq!(action, out_of_turn);
    }
}

#[test]
fn the_messages_of_translation_errors() {
    assert_eq!(
        TranspileError::Input(InputError::CodeIsEmpty).message(),
        "input: code is empty"
    );
    assert_eq!(
        TranspileError::Input(InputError::FileIsEmpty).message(),
        "input: file is empty"
    );
    assert_eq!(
        TranspileError::Configuration.message(),
        "configuration: the credential is not set"
    );
    assert_eq!(
        TranspileError::Storage(StorageError::Io("denied".to_string())).message(),
        "cache: denied"
    );
    assert_eq!(
        TranspileError::Storage(StorageError::Malformed("no record".to_string())).message(),
        "cache: no record"
    );
    assert_eq!(
        TranspileError::Transport(TransportError::Network("timeout".to_string())).message(),
        "completion service: timeout"
    );
    assert_eq!(
        TranspileError::Transport(TransportError::Envelope("EOF".to_string())).message(),
        "completion service: EOF"
    );
    assert_eq!(TranspileError::OutOfTurn.message(), "translation: an event came out of turn");
}
