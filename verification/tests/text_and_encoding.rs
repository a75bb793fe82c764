use turbolift::distributed_platform::{
    begin_call, call_step, classify_response, encode_params, first_step, read_response,
    read_teardown, request_url,
    CallAction, CallStage, CallStep, DistributionError, DistributionPlatform, ErrorKind,
    StepOutcome,
};
use turbolift::local_queue::LocalQueue;
use turbolift::readiness::{backoff, next_delay, ProbeSchedule};
use turbolift::json::json_string;
use turbolift::kubernetes::K8s;
use turbolift::percent::{percent_decode, percent_encode};
use turbolift::text::{
    chars_eq, decimal, from_chars, join, split_lines, str_eq, to_chars,
};

fn lines_of(text: &str) -> Vec<String> {
    split_lines(&to_chars(text))
        .iter()
        .map(|l| from_chars(l))
        .collect()
}

#[test]
fn lines_are_those_of_the_standard_library() {
    for text in [
        "",
        "\n",
        "a",
        "a\n",
        "a\nb",
        "a\r\nb\r\n",
        "a\rb\n",
        "\n\n",
        "x\r",
        "one\n\ntwo\n",
        "\r\n",
    ] {
        let expected: Vec<String> = text.lines().map(|l| l.to_string()).collect();
        assert_eq!(lines_of(text), expected, "text {:?}", text);
    }
}

#[test]
fn join_puts_the_separator_between_parts() {
    let parts = vec!["a".to_string(), "".to_string(), "c".to_string()];
    assert_eq!(join(&parts, ", "), "a, , c");
    assert_eq!(join(&Vec::new(), "/"), "");
    assert_eq!(join(&vec!["only".to_string()], "/"), "only");
}

#[test]
fn decimal_has_no_leading_zeros() {
    assert_eq!(decimal(0), "0");
    assert_eq!(decimal(7), "7");
    assert_eq!(decimal(5678), "5678");
    assert_eq!(decimal(u128::MAX), u128::MAX.to_string());
}

#[test]
fn equality_of_texts() {
    assert!(str_eq("abc", "abc"));
    assert!(!str_eq("abc", "abd"));
    assert!(!str_eq("abc", "ab"));
    assert!(chars_eq(&to_chars("é"), &to_chars("é")));
}

#[test]
fn percent_encoding_keeps_unreserved_bytes() {
    assert_eq!(percent_encode(b"aZ09-._~"), "aZ09-._~");
    assert_eq!(percent_encode(b""), "");
}

#[test]
fn percent_encoding_of_json_literals() {
    assert_eq!(percent_encode(b"\"a b\""), "%22a%20b%22");
    assert_eq!(percent_encode(b"[1,2]"), "%5B1%2C2%5D");
    assert_eq!(percent_encode(b"a/b?c#d%"), "a%2Fb%3Fc%23d%25");
    assert_eq!(percent_encode("é".as_bytes()), "%C3%A9");
    assert_eq!(percent_encode(&[0u8, 255u8]), "%00%FF");
}

#[test]
fn percent_decoding_undoes_encoding() {
    let all: Vec<u8> = (0u8..=255u8).collect();
    let encoded = percent_encode(&all);
    assert!(encoded.is_ascii());
    assert_eq!(percent_decode(&encoded), Some(all));
    assert_eq!(percent_decode("%zz%4"), Some(b"%zz%4".to_vec()));
    assert_eq!(percent_decode("%2f%2F"), Some(b"//".to_vec()));
    assert_eq!(percent_decode("é"), None);
}

#[test]
fn url_of_a_call_has_the_agreed_shape() {
    let args = vec!["3".to_string(), "\"a/b\"".to_string()];
    let params = encode_params(&args);
    assert_eq!(params, "3/%22a%2Fb%22");
    let url = request_url("http://127.0.0.1:8101", "f", "r", &params);
    assert_eq!(url, "http://127.0.0.1:8101/f/r/3/%22a%2Fb%22");
    assert_eq!(
        percent_decode(&url).unwrap(),
        b"http://127.0.0.1:8101/f/r/3/\"a/b\"".to_vec()
    );
}

#[test]
fn a_call_without_arguments_has_empty_params() {
    assert_eq!(encode_params(&Vec::new()), "");
    assert_eq!(request_url("http://h", "f", "r", ""), "http://h/f/r/");
}

#[test]
fn response_outside_2xx_is_a_dispatch_error() {
    assert_eq!(read_response(200, "9".to_string()).unwrap(), "9");
    assert_eq!(read_response(299, "\"x\"".to_string()).unwrap(), "\"x\"");
    assert_eq!(read_response(204, " [1, {\"a\": null}] ".to_string()).unwrap(), " [1, {\"a\": null}] ");
    for status in [199u16, 300, 404, 500] {
        match read_response(status, "boom".to_string()) {
            Err(e) => {
                assert!(matches!(e, DistributionError::Status(s) if s == status));
                assert_eq!(e.kind(), ErrorKind::Dispatch);
            }
            Ok(_) => panic!("status {} must not be taken", status),
        }
    }
}

#[test]
fn a_body_that_is_no_json_value_is_a_dispatch_error() {
    for body in ["", "x", "{", "[1,]", "1 2", "thread 'main' panicked"] {
        match read_response(200, body.to_string()) {
            Err(e) => {
                assert!(matches!(&e, DistributionError::Decode(text) if text == body));
                assert_eq!(e.kind(), ErrorKind::Dispatch);
            }
            Ok(_) => panic!("{:?} was taken", body),
        }
    }
    assert!(matches!(
        read_response(500, "9".to_string()),
        Err(DistributionError::Status(500))
    ));
    assert_eq!(classify_response(200, "9".to_string(), true).unwrap(), "9");
    assert!(matches!(
        classify_response(200, "9".to_string(), false),
        Err(DistributionError::Decode(_))
    ));
    assert!(matches!(
        classify_response(404, "9".to_string(), true),
        Err(DistributionError::Status(404))
    ));
}

#[test]
fn error_kinds() {
    assert_eq!(DistributionError::Receiver.kind(), ErrorKind::Build);
    assert_eq!(DistributionError::SpanOutOfRange.kind(), ErrorKind::Build);
    assert_eq!(DistributionError::EntryName("x".into()).kind(), ErrorKind::Build);
    assert_eq!(DistributionError::BuildStep("x".into()).kind(), ErrorKind::Build);
    assert_eq!(DistributionError::DeclareStep("x".into()).kind(), ErrorKind::Declare);
    assert_eq!(DistributionError::NotReady("x".into()).kind(), ErrorKind::Dispatch);
    assert_eq!(DistributionError::Transport("x".into()).kind(), ErrorKind::Dispatch);
    assert_eq!(DistributionError::EntryPoint.kind(), ErrorKind::Build);
    assert_eq!(
        DistributionError::NameCollision("x".into()).kind(),
        ErrorKind::Configuration
    );
    assert_eq!(
        DistributionError::DependencyName("x".into()).kind(),
        ErrorKind::Configuration
    );
    assert_eq!(DistributionError::Status(500).kind(), ErrorKind::Dispatch);
    assert_eq!(DistributionError::Decode("x".into()).kind(), ErrorKind::Dispatch);
    assert_eq!(DistributionError::Teardown("x".into()).kind(), ErrorKind::Teardown);
}

#[test]
fn a_call_declares_only_an_undeclared_function() {
    let k8s = K8s::with_deploy_function_and_max_replicas(1, true);
    assert_eq!(first_step(&k8s, "square"), CallStep::Declare);
}

#[test]
fn json_strings_are_what_serde_json_writes() {
    let all_controls: String = (0u8..0x21).map(|b| b as char).collect();
    for s in [
        "",
        "plain",
        "a\"b",
        "back\\slash",
        "line\nbreak\r\n",
        "tab\t",
        "\u{1}\u{1f}\u{7f}",
        "\u{8}\u{c}",
        "é/ü",
        all_controls.as_str(),
    ] {
        let text = json_string(s);
        let parsed: serde_json::Value = serde_json::from_str(&text).unwrap();
        assert_eq!(parsed, serde_json::Value::String(s.to_string()), "string {:?}", s);
        assert_eq!(text, serde_json::to_string(s).unwrap(), "string {:?}", s);
    }
    assert_eq!(json_string("a\nb"), "\"a\\nb\"");
    assert_eq!(json_string("a\"b"), "\"a\\\"b\"");
    assert_eq!(json_string("\u{1}"), "\"\\u0001\"");
}

fn outcome(ok: bool, detail: &str) -> StepOutcome {
    StepOutcome { ok, detail: detail.to_string() }
}

#[test]
fn a_call_of_an_undeclared_function_declares_then_dispatches() {
    let queue = LocalQueue::new();
    let args = vec!["3".to_string(), "\"x y\"".to_string()];
    let (mut call, first) = begin_call(&queue, "square", &args);
    assert!(matches!(first, CallAction::Declare(ref n) if n == "square"));
    assert_eq!(call.stage, CallStage::Declaring);
    match call_step(&mut call, outcome(true, "")) {
        CallAction::Dispatch(name, params) => {
            assert_eq!(name, "square");
            assert_eq!(params, "3/%22x%20y%22");
        }
        other => panic!("unexpected: {:?}", other),
    }
    match call_step(&mut call, outcome(true, "9")) {
        CallAction::Return(Ok(body)) => assert_eq!(body, "9"),
        other => panic!("unexpected: {:?}", other),
    }
    assert_eq!(call.stage, CallStage::Done);
    assert!(matches!(
        call_step(&mut call, outcome(true, "9")),
        CallAction::Return(Err(DistributionError::NotReady(_)))
    ));
}

#[test]
fn a_call_of_a_declared_function_dispatches_at_once() {
    let mut queue = LocalQueue::new();
    let plan = queue.declare("square");
    queue.finish_declare(&plan, outcome(true, "")).unwrap();
    let (call, first) = begin_call(&queue, "square", &vec!["4".to_string()]);
    assert_eq!(call.stage, CallStage::Dispatching);
    assert!(matches!(first, CallAction::Dispatch(ref n, ref p) if n == "square" && p == "4"));
}

#[test]
fn a_failed_declare_or_dispatch_ends_the_call_with_its_error() {
    let queue = LocalQueue::new();
    let (mut call, _) = begin_call(&queue, "f", &Vec::new());
    match call_step(&mut call, outcome(false, "image build failure")) {
        CallAction::Return(Err(e)) => {
            assert!(matches!(&e, DistributionError::DeclareStep(w) if w == "image build failure"));
            assert_eq!(e.kind(), ErrorKind::Declare);
        }
        other => panic!("unexpected: {:?}", other),
    }
    let (mut call, _) = begin_call(&queue, "f", &Vec::new());
    call_step(&mut call, outcome(true, ""));
    match call_step(&mut call, outcome(false, "status 500")) {
        CallAction::Return(Err(e)) => {
            assert!(matches!(&e, DistributionError::Transport(w) if w == "status 500"));
            assert_eq!(e.kind(), ErrorKind::Dispatch);
        }
        other => panic!("unexpected: {:?}", other),
    }
}

#[test]
fn pauses_double_up_to_the_longest_and_stop_at_the_deadline() {
    let schedule = ProbeSchedule { first_delay_ms: 100, max_delay_ms: 5_000, deadline_ms: 60_000 };
    let pauses: Vec<u64> = (0..8).map(|a| backoff(&schedule, a)).collect();
    assert_eq!(pauses, vec![100, 200, 400, 800, 1_600, 3_200, 5_000, 5_000]);
    assert_eq!(backoff(&schedule, u32::MAX / 1_000_000), 5_000);
    let mut waited = 0;
    let mut probes = 0;
    while let Some(delay) = next_delay(&schedule, probes, waited) {
        waited += delay;
        probes += 1;
        assert!(waited <= 60_000);
    }
    assert_eq!(waited, 60_000);
    assert_eq!(probes, 17);
    assert_eq!(next_delay(&schedule, 0, 59_950), Some(50));
    assert_eq!(next_delay(&schedule, 0, 60_000), None);
    let long_first = ProbeSchedule { first_delay_ms: 9, max_delay_ms: 4, deadline_ms: 10 };
    assert_eq!(backoff(&long_first, 0), 4);
    assert_eq!(next_delay(&long_first, 3, 8), Some(2));
}

#[test]
fn a_failed_teardown_is_reported_and_nothing_more() {
    assert!(read_teardown(outcome(true, "")).is_none());
    match read_teardown(outcome(false, "kubectl is missing")) {
        Some(e) => {
            assert!(matches!(&e, DistributionError::Teardown(w) if w == "kubectl is missing"));
            assert_eq!(e.kind(), ErrorKind::Teardown);
        }
        None => panic!("the failure was lost"),
    }
}
