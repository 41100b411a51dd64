use action_bridge::bridge::{fast_path, is_ping, report, short_circuits, Bridge, Step};
use action_bridge::child::{Completion, Outcome};
use action_bridge::codec::CodecError;
use action_bridge::envelope::Output;
use serde_json::{Number, Value};

fn request(text: &str) -> Value {
    serde_json::from_str(text).unwrap()
}

fn mobilenet() -> Bridge {
    Bridge::new(String::from("./mobilenet-oc-l"))
}

fn reply_body(step: Step) -> String {
    match step {
        Step::Reply(out) => out.body,
        Step::Spawn { program, input } => panic!("asked to spawn {} with {}", program, input),
    }
}

fn spawn_parts(step: Step) -> (String, String) {
    match step {
        Step::Spawn { program, input } => (program, input),
        Step::Reply(out) => panic!("replied {:?}", out),
    }
}

#[test]
fn bridge_remembers_its_binary() {
    assert_eq!(mobilenet().binary(), "./mobilenet-oc-l");
    assert_eq!(Bridge::new(String::from("./add-l")).binary(), "./add-l");
}

#[test]
fn fast_path_reads_the_ping_member() {
    assert_eq!(fast_path(&request("{\"ping\":true}")), Some(true));
    assert_eq!(fast_path(&request("{\"ping\":false}")), Some(false));
    assert_eq!(fast_path(&request("{\"pong\":true}")), None);
    assert_eq!(fast_path(&request("{}")), None);
}

#[test]
fn fast_path_ignores_a_ping_that_is_no_boolean() {
    assert_eq!(fast_path(&request("{\"ping\":\"true\"}")), None);
    assert_eq!(fast_path(&request("{\"ping\":1}")), None);
    assert_eq!(fast_path(&request("{\"ping\":null}")), None);
    assert_eq!(fast_path(&request("{\"ping\":[true]}")), None);
    assert_eq!(fast_path(&request("{\"ping\":{\"ping\":true}}")), None);
}

#[test]
fn fast_path_ignores_requests_that_are_no_object() {
    assert_eq!(fast_path(&Value::Bool(true)), None);
    assert_eq!(fast_path(&Value::Null), None);
    assert_eq!(fast_path(&request("[{\"ping\":true}]")), None);
    assert_eq!(fast_path(&Value::String(String::from("ping"))), None);
}

#[test]
fn only_a_present_and_true_signal_short_circuits() {
    assert!(short_circuits(Some(true)));
    assert!(!short_circuits(Some(false)));
    assert!(!short_circuits(None));
}

#[test]
fn is_ping_needs_a_true_flag() {
    assert!(is_ping(&request("{\"ping\":true}")));
    assert!(!is_ping(&request("{\"ping\":false}")));
    assert!(!is_ping(&request("{\"ping\":\"true\"}")));
    assert!(!is_ping(&request("{\"nested\":{\"ping\":true}}")));
    assert!(!is_ping(&request("{}")));
    assert!(!is_ping(&Value::Bool(true)));
}

#[test]
fn begin_answers_a_ping_without_spawning() {
    let step = mobilenet().begin(&request("{\"ping\":true}"));
    assert_eq!(reply_body(step), "pong");
}

#[test]
fn begin_answers_a_ping_whatever_else_is_present() {
    let text = "{\"image\":\"aGVsbG8=\",\"ping\":true,\"param1\":1,\"extra\":[1,{\"ping\":false}]}";
    let step = mobilenet().begin(&request(text));
    assert_eq!(reply_body(step), "pong");
}

#[test]
fn begin_answers_a_ping_for_any_binary() {
    let step = Bridge::new(String::from("/no/such/binary")).begin(&request("{\"ping\":true}"));
    assert_eq!(reply_body(step), "pong");
}

#[test]
fn begin_spawns_for_a_false_ping() {
    let (program, input) = spawn_parts(mobilenet().begin(&request("{\"ping\":false}")));
    assert_eq!(program, "./mobilenet-oc-l");
    assert_eq!(input, "{\"ping\":false}");
}

#[test]
fn begin_spawns_with_the_serialised_request() {
    let mut members = serde_json::Map::new();
    members.insert(String::from("param1"), Value::Number(Number::from(1)));
    members.insert(String::from("param2"), Value::Number(Number::from(2)));
    let bridge = Bridge::new(String::from("./add-l"));
    let (program, input) = spawn_parts(bridge.begin(&Value::Object(members)));
    assert_eq!(program, "./add-l");
    assert_eq!(input, "{\"param1\":1,\"param2\":2}");
}

#[test]
fn begin_spawns_for_a_request_that_is_no_object() {
    let (_, input) = spawn_parts(mobilenet().begin(&Value::Null));
    assert_eq!(input, "null");
    let (_, input) = spawn_parts(mobilenet().begin(&request("[1,2,3]")));
    assert_eq!(input, "[1,2,3]");
}

#[test]
fn launch_does_not_look_for_the_ping() {
    let bridge = Bridge::new(String::from("./add-l"));
    let (program, input) = spawn_parts(bridge.launch(&request("{\"ping\":true}")));
    assert_eq!(program, "./add-l");
    assert_eq!(input, "{\"ping\":true}");
}

#[test]
fn launch_and_begin_agree_when_there_is_no_ping() {
    let bridge = mobilenet();
    let value = request("{\"image\":\"aGVsbG8=\"}");
    assert_eq!(spawn_parts(bridge.launch(&value)), spawn_parts(bridge.begin(&value)));
}

#[test]
fn dispatch_spawns_on_serialised_text() {
    let step = mobilenet().dispatch(Ok(String::from("{\"a\":1}")));
    assert_eq!(
        spawn_parts(step),
        (String::from("./mobilenet-oc-l"), String::from("{\"a\":1}"))
    );
}

#[test]
fn dispatch_replies_when_serialising_failed() {
    let failure = CodecError { message: String::from("key must be a string") };
    let step = mobilenet().dispatch(Err(failure));
    assert_eq!(reply_body(step), "Failed to serialize input JSON: key must be a string");
}

#[test]
fn report_prefixes_every_outcome() {
    let success = Outcome::Success { output: String::from("{\"label\":\"cat\"}") };
    assert_eq!(report(&success).body, "Mobilenet output:\n{\"label\":\"cat\"}");
    let failure = Outcome::ChildFailure { diagnostics: String::from("bad image") };
    assert_eq!(
        report(&failure).body,
        "Mobilenet output:\nBinary exited with error: bad image"
    );
    let broken = Outcome::BridgeFailure { reason: String::from("Broken pipe (os error 32)") };
    assert_eq!(
        report(&broken).body,
        "Mobilenet output:\nFailed to execute binary: Broken pipe (os error 32)"
    );
}

#[test]
fn finish_of_an_empty_success_is_the_bare_prefix() {
    let completion = Completion::Exited { code: Some(0), stdout: Vec::new(), stderr: Vec::new() };
    assert_eq!(mobilenet().finish(&completion), Output::new(String::from("Mobilenet output:\n")));
}

#[test]
fn finish_ignores_stderr_of_a_successful_child() {
    let completion = Completion::Exited {
        code: Some(0),
        stdout: b"{\"result\":3}".to_vec(),
        stderr: b"loading model".to_vec(),
    };
    assert_eq!(mobilenet().finish(&completion).body, "Mobilenet output:\n{\"result\":3}");
}

#[test]
fn finish_ignores_stdout_of_a_failed_child() {
    let completion = Completion::Exited {
        code: Some(101),
        stdout: b"{\"result\":3}".to_vec(),
        stderr: b"thread 'main' panicked".to_vec(),
    };
    assert_eq!(
        mobilenet().finish(&completion).body,
        "Mobilenet output:\nBinary exited with error: thread 'main' panicked"
    );
}

#[test]
fn finish_reports_a_pipe_failure() {
    let completion = Completion::PipeFailed { reason: String::from("Broken pipe (os error 32)") };
    assert_eq!(
        mobilenet().finish(&completion).body,
        "Mobilenet output:\nFailed to execute binary: Broken pipe (os error 32)"
    );
}

#[test]
fn finish_does_not_depend_on_the_binary() {
    let completion = Completion::Exited {
        code: Some(0),
        stdout: b"{\"result\":3}".to_vec(),
        stderr: Vec::new(),
    };
    let a = mobilenet().finish(&completion);
    let b = Bridge::new(String::from("./add-l")).finish(&completion);
    assert_eq!(a, b);
}
