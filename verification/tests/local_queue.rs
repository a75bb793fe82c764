use turbolift::distributed_platform::{
    begin_call, call_step, encode_params, first_step, read_response, CallAction, CallStep,
    DispatchAction, DistributionError, DistributionPlatform, StepOutcome,
};
use turbolift::percent::percent_decode;
use turbolift::local_queue::LocalQueue;

fn ok() -> StepOutcome {
    StepOutcome { ok: true, detail: String::new() }
}

fn declare(queue: &mut LocalQueue, name: &str) {
    let plan = queue.declare(name);
    queue.finish_declare(&plan, ok()).unwrap();
}

fn call(queue: &mut LocalQueue, name: &str, args: &[&str], spawned: &mut Vec<u32>) -> String {
    if first_step(queue, name) == CallStep::Declare {
        declare(queue, name);
    }
    let json: Vec<String> = args.iter().map(|a| a.to_string()).collect();
    let params = encode_params(&json);
    loop {
        match queue.dispatch(name, &params).unwrap() {
            DispatchAction::Spawn(start) => {
                let process = 1000 + spawned.len() as u32;
                spawned.push(process);
                assert!(queue.server_started(&start, process));
            }
            DispatchAction::Request(url) => return url,
        }
    }
}

#[test]
fn declare_unpacks_builds_and_moves_the_binary() {
    let queue = LocalQueue::new();
    let plan = queue.declare("square");
    let id = queue.run_id.as_u128();
    assert_eq!(plan.unpack_into, ".turbolift/.worker_build_cache");
    assert_eq!(plan.executable, format!(".turbolift/square_{}_server", id));
    assert_eq!(plan.build.build.command.program, "cargo");
    assert_eq!(
        plan.build.build.command.args,
        vec!["build".to_string(), "--release".to_string()]
    );
    assert_eq!(
        plan.build.build.command.current_dir,
        ".turbolift/.worker_build_cache/square"
    );
    assert_eq!(
        plan.build.rename,
        Some((
            ".turbolift/.worker_build_cache/square/target/release/square_turbolift".to_string(),
            format!(".turbolift/square_{}_server", id)
        ))
    );
}

#[test]
fn failed_declare_leaves_the_function_undeclared() {
    let mut queue = LocalQueue::new();
    let plan = queue.declare("square");
    let outcome = StepOutcome { ok: false, detail: "cargo build failed".to_string() };
    match queue.finish_declare(&plan, outcome) {
        Err(DistributionError::DeclareStep(why)) => assert_eq!(why, "cargo build failed"),
        other => panic!("unexpected: {:?}", other),
    }
    assert!(!queue.has_declared("square"));
    assert!(matches!(
        queue.dispatch("square", "3"),
        Err(DistributionError::NotReady(ref n)) if n == "square"
    ));
    queue.finish_declare(&plan, ok()).unwrap();
    assert!(queue.has_declared("square"));
}

#[test]
fn square_is_declared_once_and_its_server_spawned_once() {
    let mut queue = LocalQueue::new();
    let id = queue.run_id.to_hyphenated();
    let mut spawned = Vec::new();
    let mut declares = 0;
    let mut urls = Vec::new();
    for input in ["3", "4", "5"] {
        if first_step(&queue, "square") == CallStep::Declare {
            declares += 1;
        }
        urls.push(call(&mut queue, "square", &[input], &mut spawned));
    }
    assert_eq!(declares, 1);
    assert_eq!(spawned.len(), 1);
    assert_eq!(
        urls,
        vec![
            format!("http://127.0.0.1:8101/square/{}/3", id),
            format!("http://127.0.0.1:8101/square/{}/4", id),
            format!("http://127.0.0.1:8101/square/{}/5", id),
        ]
    );
}

#[test]
fn identity_of_booleans_is_called_with_their_json_literals() {
    let mut queue = LocalQueue::new();
    let id = queue.run_id.to_hyphenated();
    let mut spawned = Vec::new();
    let urls: Vec<String> = ["true", "false", "true"]
        .iter()
        .map(|b| call(&mut queue, "identity", &[b], &mut spawned))
        .collect();
    assert_eq!(urls[0], format!("http://127.0.0.1:8101/identity/{}/true", id));
    assert_eq!(urls[1], format!("http://127.0.0.1:8101/identity/{}/false", id));
    assert_eq!(urls[2], urls[0]);
    assert_eq!(spawned.len(), 1);
}

#[test]
fn each_service_gets_a_port_of_its_own() {
    let mut queue = LocalQueue::new();
    declare(&mut queue, "a");
    declare(&mut queue, "b");
    let first = match queue.dispatch("a", "").unwrap() {
        DispatchAction::Spawn(start) => start,
        other => panic!("unexpected: {:?}", other),
    };
    assert_eq!(first.listen_address, "127.0.0.1:8101");
    assert_eq!(first.base_url, "http://127.0.0.1:8101");
    assert_eq!(first.executable, format!(".turbolift/a_{}_server", queue.run_id.as_u128()));
    assert_eq!(first.readiness.probe_path, "/health-probe");
    assert_eq!(first.readiness.schedule.deadline_ms, 60_000);
    assert!(queue.server_started(&first, 11));
    let second = match queue.dispatch("b", "").unwrap() {
        DispatchAction::Spawn(start) => start,
        other => panic!("unexpected: {:?}", other),
    };
    assert_eq!(second.listen_address, "127.0.0.1:8102");
    assert!(queue.server_started(&second, 22));
    assert_eq!(queue.teardown(), vec![11, 22]);
    assert!(queue.teardown().is_empty());
    assert!(matches!(
        queue.dispatch("a", "").unwrap(),
        DispatchAction::Spawn(_)
    ));
}

#[test]
fn no_port_is_left_after_the_last() {
    let mut queue = LocalQueue::new();
    declare(&mut queue, "a");
    queue.next_port = u16::MAX;
    assert!(matches!(
        queue.dispatch("a", ""),
        Err(DistributionError::Transport(_))
    ));
}

#[test]
fn a_server_of_an_undeclared_function_is_not_recorded() {
    let mut queue = LocalQueue::new();
    declare(&mut queue, "a");
    let mut start = match queue.dispatch("a", "").unwrap() {
        DispatchAction::Spawn(start) => start,
        other => panic!("unexpected: {:?}", other),
    };
    start.function_name = "b".to_string();
    assert!(!queue.server_started(&start, 5));
    assert_eq!(queue.next_port, 8101);
    assert!(queue.teardown().is_empty());
}

#[test]
fn local_queue_it_works() {
    let inputs = vec![true, false, false, true, true, false, true, false, false, true];
    let mut queue = LocalQueue::new();
    let id = queue.run_id.to_hyphenated();
    let mut declares = 0;
    let mut spawns = 0;
    let mut results = Vec::new();
    for b in &inputs {
        let args = vec![serde_json::to_string(b).unwrap()];
        let (mut call, mut action) = begin_call(&queue, "ident", &args);
        let answer = loop {
            action = match action {
                CallAction::Declare(name) => {
                    declares += 1;
                    let plan = queue.declare(&name);
                    let done = queue.finish_declare(&plan, ok()).map(|_| String::new());
                    call_step(&mut call, StepOutcome { ok: done.is_ok(), detail: String::new() })
                }
                CallAction::Dispatch(name, params) => {
                    let url = loop {
                        match queue.dispatch(&name, &params).unwrap() {
                            DispatchAction::Spawn(start) => {
                                spawns += 1;
                                assert!(queue.server_started(&start, 7));
                            }
                            DispatchAction::Request(url) => break url,
                        }
                    };
                    let prefix = format!("http://127.0.0.1:8101/ident/{}/", id);
                    let segment = url.strip_prefix(prefix.as_str()).unwrap();
                    let sent: bool =
                        serde_json::from_slice(&percent_decode(segment).unwrap()).unwrap();
                    let body = serde_json::to_string(&sent).unwrap();
                    let response = read_response(200, body);
                    call_step(
                        &mut call,
                        StepOutcome { ok: response.is_ok(), detail: response.unwrap() },
                    )
                }
                CallAction::Return(answer) => break answer.unwrap(),
            };
        };
        let result: bool = serde_json::from_str(&answer).unwrap();
        results.push(result);
    }
    assert_eq!(inputs, results);
    assert_eq!(declares, 1);
    assert_eq!(spawns, 1);
}
