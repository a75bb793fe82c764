use turbolift::distributed_platform::{
    begin_call, call_step, read_response, CallAction, DispatchAction, DistributionError,
    DistributionPlatform,
};
use turbolift::distributed_platform::StepOutcome;
use turbolift::kubernetes::{sanitize_function_name, DeclareAction, DeclareStage, K8s};
use turbolift::run_id::RunId;

#[test]
fn lib_it_works() {
    assert_eq!(2 + 2, 4);
}

#[test]
fn sanitize_replaces_underscores() {
    assert_eq!(sanitize_function_name("my_fn_name"), "my-fn-name");
    assert_eq!(sanitize_function_name("square"), "square");
    assert_eq!(sanitize_function_name(""), "");
}

#[test]
fn run_id_is_hyphenated_like_a_uuid() {
    let v = 0xa1a2a3a4b1b2c1c2d1d2d3d4d5d6d7d8u128;
    assert_eq!(
        RunId::from_u128(v).to_hyphenated(),
        "a1a2a3a4-b1b2-c1c2-d1d2-d3d4d5d6d7d8"
    );
    assert_eq!(
        RunId::from_u128(5).to_hyphenated(),
        uuid::Uuid::from_u128(5).to_string()
    );
    let id = RunId::generate();
    assert_eq!(
        id.to_hyphenated(),
        uuid::Uuid::from_u128(id.as_u128()).to_string()
    );
}

#[test]
fn generated_run_ids_are_of_version_4() {
    let mut seen = Vec::new();
    for _ in 0..32 {
        let id = RunId::generate();
        let value = id.as_u128();
        assert_eq!((value >> 76) & 0xf, 4);
        assert_eq!((value >> 62) & 0x3, 2);
        let parsed = uuid::Uuid::from_u128(value);
        assert_eq!(parsed.get_version_num(), 4);
        let text = id.to_hyphenated();
        assert_eq!(text.len(), 36);
        assert_eq!(&text[14..15], "4");
        assert!(["8", "9", "a", "b"].contains(&&text[19..20]));
        assert!(!seen.contains(&value));
        seen.push(value);
    }
}

#[test]
fn a_new_backend_has_its_limit_and_no_function() {
    let k8s = K8s::with_deploy_function_and_max_replicas(1, false);
    assert_eq!(k8s.max_scale_n, 1);
    assert!(!k8s.release);
    assert!(!k8s.has_declared("square"));
    assert_eq!(k8s.fn_names_to_ips.len(), 0);
    assert_eq!(uuid::Uuid::from_u128(k8s.run_id.as_u128()).get_version_num(), 4);
}

fn ok(detail: &str) -> StepOutcome {
    StepOutcome { ok: true, detail: detail.to_string() }
}

#[test]
fn declare_with_two_replicas_walks_every_step() {
    let mut k8s = K8s::with_deploy_function_and_max_replicas(2, true);
    let id = k8s.run_id.to_hyphenated();
    let app = format!("square-{}", id);
    let (mut decl, first) = k8s.declare("square");
    match first {
        DeclareAction::BuildImage(b) => {
            assert_eq!(b.tag, format!("{}:turbolift", app));
            assert_eq!(b.build_dir, format!(".turbolift/{}_k8s_temp_dir", app));
            assert_eq!(b.tar_file_name, "source.tar");
            assert!(b.dockerfile.starts_with("FROM ubuntu:latest as builder\n"));
            assert!(b.dockerfile.contains("\nCOPY source.tar source.tar\n"));
            assert!(b.dockerfile.contains("\nWORKDIR square\n"));
            assert!(b.dockerfile.ends_with(
                "RUN cargo build --release\nCMD cargo run --release -- 0.0.0.0:5678"
            ));
            assert_eq!(
                b.docker_args,
                vec![
                    "build".to_string(),
                    "-t".to_string(),
                    b.tag.clone(),
                    b.build_dir.clone()
                ]
            );
        }
        other => panic!("unexpected: {:?}", other),
    }
    match k8s.declare_step(&mut decl, ok("")) {
        DeclareAction::DeployContainer(tag) => assert_eq!(tag, format!("{}:turbolift", app)),
        other => panic!("unexpected: {:?}", other),
    }
    match k8s.declare_step(&mut decl, ok("registry.local/square:1")) {
        DeclareAction::CreateDeployment(m) => {
            assert_eq!(m.name, format!("{}-deployment", app));
            assert_eq!(m.run_id_label, id);
            assert_eq!(m.app_label, app);
            assert_eq!(m.replicas, 1);
            assert_eq!(m.container_name, format!("{}-app", app));
            assert_eq!(m.image, "registry.local/square:1");
        }
        other => panic!("unexpected: {:?}", other),
    }
    match k8s.declare_step(&mut decl, ok("")) {
        DeclareAction::CreateService(m) => {
            assert_eq!(m.name, format!("{}-service", app));
            assert_eq!(m.selector_app, app);
            assert_eq!(m.port, 5678);
            assert_eq!(m.target_port, 5678);
        }
        other => panic!("unexpected: {:?}", other),
    }
    match k8s.declare_step(&mut decl, ok("")) {
        DeclareAction::ApplyIngress(m) => {
            assert_eq!(m.name, format!("{}-ingress", app));
            assert_eq!(m.path, format!("/square/{}/", id));
            assert_eq!(m.path_type, "Prefix");
            assert_eq!(m.service_name, format!("{}-service", app));
        }
        other => panic!("unexpected: {:?}", other),
    }
    match k8s.declare_step(&mut decl, ok("")) {
        DeclareAction::Autoscale(args) => assert_eq!(
            args,
            vec![
                "autoscale".to_string(),
                "deployment".to_string(),
                format!("{}-deployment", app),
                "--max=2".to_string()
            ]
        ),
        other => panic!("unexpected: {:?}", other),
    }
    assert!(!k8s.has_declared("square"));
    match k8s.declare_step(&mut decl, ok("")) {
        DeclareAction::AwaitReady(readiness) => {
            assert_eq!(readiness.probe_path, "/health-probe");
            assert_eq!(readiness.schedule.deadline_ms, 90_000);
        }
        other => panic!("unexpected: {:?}", other),
    }
    match k8s.declare_step(&mut decl, ok("")) {
        DeclareAction::RemoveBuildDir(dir) => {
            assert_eq!(dir, format!(".turbolift/{}_k8s_temp_dir", app))
        }
        other => panic!("unexpected: {:?}", other),
    }
    assert!(!k8s.has_declared("square"));
    assert!(matches!(
        k8s.declare_step(&mut decl, ok("")),
        DeclareAction::Done(Ok(()))
    ));
    assert_eq!(decl.stage, DeclareStage::Ready);
    assert!(k8s.has_declared("square"));
    match k8s.dispatch("square", "7").unwrap() {
        DispatchAction::Request(url) => {
            assert_eq!(url, format!("http://localhost:80/square/{}/7", id))
        }
        other => panic!("unexpected: {:?}", other),
    }
}

fn failed(detail: &str) -> StepOutcome {
    StepOutcome { ok: false, detail: detail.to_string() }
}

#[test]
fn declare_with_one_replica_sets_no_ceiling() {
    let mut k8s = K8s::with_deploy_function_and_max_replicas(1, false);
    let (mut decl, first) = k8s.declare("f");
    match first {
        DeclareAction::BuildImage(b) => assert!(b
            .dockerfile
            .ends_with("RUN cargo build\nCMD cargo run -- 0.0.0.0:5678")),
        other => panic!("unexpected: {:?}", other),
    }
    let mut seen = Vec::new();
    loop {
        let action = k8s.declare_step(&mut decl, ok("img"));
        if let DeclareAction::Done(r) = action {
            assert!(r.is_ok());
            break;
        }
        assert!(!matches!(action, DeclareAction::Autoscale(_)));
        seen.push(decl.stage);
    }
    assert_eq!(
        seen,
        vec![
            DeclareStage::DeployContainer,
            DeclareStage::CreateDeployment,
            DeclareStage::CreateService,
            DeclareStage::ApplyIngress,
            DeclareStage::AwaitReady,
            DeclareStage::RemoveBuildDir,
        ]
    );
    assert!(k8s.has_declared("f"));
}

#[test]
fn build_directory_is_removed_after_a_failed_build() {
    let mut k8s = K8s::with_deploy_function_and_max_replicas(1, true);
    let (mut decl, _) = k8s.declare("f");
    match k8s.declare_step(&mut decl, failed("docker image build failure")) {
        DeclareAction::RemoveBuildDir(dir) => {
            assert_eq!(dir, format!(".turbolift/f-{}_k8s_temp_dir", k8s.run_id.to_hyphenated()))
        }
        other => panic!("unexpected: {:?}", other),
    }
    match k8s.declare_step(&mut decl, ok("")) {
        DeclareAction::Done(Err(e)) => {
            assert!(
                matches!(&e, DistributionError::DeclareStep(why) if why == "docker image build failure")
            );
        }
        other => panic!("unexpected: {:?}", other),
    }
    assert_eq!(decl.stage, DeclareStage::Failed);
    assert!(!k8s.has_declared("f"));
    assert!(matches!(
        k8s.declare_step(&mut decl, ok("")),
        DeclareAction::Done(Err(_))
    ));
}

#[test]
fn a_failed_step_leaves_the_function_undeclared_and_a_retry_can_succeed() {
    let mut k8s = K8s::with_deploy_function_and_max_replicas(3, true);
    for fail_at in 0..8 {
        let (mut decl, _) = k8s.declare("f");
        let mut step = 0;
        let mut removed = false;
        let result = loop {
            let outcome = if step == fail_at { failed("no") } else { ok("tag") };
            step += 1;
            match k8s.declare_step(&mut decl, outcome) {
                DeclareAction::Done(r) => break r,
                DeclareAction::RemoveBuildDir(_) => {
                    assert_eq!(step, std::cmp::min(fail_at + 1, 7));
                    removed = true;
                }
                _ => {}
            }
        };
        assert!(removed);
        assert!(matches!(result, Err(DistributionError::DeclareStep(ref why)) if why == "no"));
        assert!(!k8s.has_declared("f"));
        assert!(matches!(
            k8s.dispatch("f", "1"),
            Err(DistributionError::NotReady(ref n)) if n == "f"
        ));
    }
    let (mut decl, _) = k8s.declare("f");
    loop {
        if let DeclareAction::Done(r) = k8s.declare_step(&mut decl, ok("tag")) {
            assert!(r.is_ok());
            break;
        }
    }
    assert!(k8s.has_declared("f"));
}

#[test]
fn teardown_is_one_call_for_every_object_of_the_run() {
    let mut k8s = K8s::with_deploy_function_and_max_replicas(2, true);
    for name in ["a", "b", "c"] {
        let (mut decl, _) = k8s.declare(name);
        loop {
            if let DeclareAction::Done(r) = k8s.declare_step(&mut decl, ok("tag")) {
                assert!(r.is_ok());
                break;
            }
        }
    }
    assert!(k8s.has_declared("a") && k8s.has_declared("b") && k8s.has_declared("c"));
    let id = k8s.run_id.to_hyphenated();
    let args = k8s.teardown();
    assert_eq!(
        args,
        vec![
            "delete".to_string(),
            "pods,deployments,services,ingress".to_string(),
            "-l".to_string(),
            format!("turbolift_run_id={}", id)
        ]
    );
    assert!(!k8s.has_declared("a") && !k8s.has_declared("b") && !k8s.has_declared("c"));
    assert!(k8s.dispatch("a", "").is_err());
}

fn parse(text: &str) -> serde_json::Value {
    serde_json::from_str(text).unwrap()
}

fn string(s: &str) -> serde_json::Value {
    serde_json::Value::String(s.to_string())
}

#[test]
fn manifests_are_json_documents_with_the_run_id_label() {
    let mut k8s = K8s::with_deploy_function_and_max_replicas(1, true);
    let id = k8s.run_id.to_hyphenated();
    let (mut decl, _) = k8s.declare("my_fn");
    let app = format!("my-fn-{}", id);
    let mut documents = 0;
    loop {
        match k8s.declare_step(&mut decl, ok("reg/my \"image\"")) {
            DeclareAction::CreateDeployment(m) => {
                let doc = parse(&m.to_json());
                assert_eq!(doc["apiVersion"], string("apps/v1"));
                assert_eq!(doc["kind"], string("Deployment"));
                assert_eq!(doc["metadata"]["name"], string(&format!("{}-deployment", app)));
                assert_eq!(doc["metadata"]["labels"]["turbolift_run_id"], string(&id));
                assert_eq!(doc["spec"]["selector"]["matchLabels"]["app"], string(&app));
                assert_eq!(doc["spec"]["replicas"], serde_json::Value::from(1));
                let template = &doc["spec"]["template"];
                assert_eq!(template["metadata"]["name"], string(&format!("{}-app", app)));
                assert_eq!(template["metadata"]["labels"]["app"], string(&app));
                assert_eq!(template["metadata"]["labels"]["turbolift_run_id"], string(&id));
                let containers = template["spec"]["containers"].as_array().unwrap();
                assert_eq!(containers.len(), 1);
                assert_eq!(containers[0]["name"], string(&format!("{}-app", app)));
                assert_eq!(containers[0]["image"], string("reg/my \"image\""));
                documents += 1;
            }
            DeclareAction::CreateService(m) => {
                let doc = parse(&m.to_json());
                assert_eq!(doc["apiVersion"], string("v1"));
                assert_eq!(doc["kind"], string("Service"));
                assert_eq!(doc["metadata"]["name"], string(&format!("{}-service", app)));
                assert_eq!(doc["metadata"]["labels"]["turbolift_run_id"], string(&id));
                assert_eq!(doc["spec"]["selector"]["app"], string(&app));
                let ports = doc["spec"]["ports"].as_array().unwrap();
                assert_eq!(ports.len(), 1);
                assert_eq!(ports[0]["port"], serde_json::Value::from(5678));
                assert_eq!(ports[0]["targetPort"], serde_json::Value::from(5678));
                documents += 1;
            }
            DeclareAction::ApplyIngress(m) => {
                let doc = parse(&m.to_json());
                assert_eq!(doc["apiVersion"], string("networking.k8s.io/v1"));
                assert_eq!(doc["kind"], string("Ingress"));
                assert_eq!(doc["metadata"]["name"], string(&format!("{}-ingress", app)));
                assert_eq!(doc["metadata"]["labels"]["turbolift_run_id"], string(&id));
                let rules = doc["spec"]["rules"].as_array().unwrap();
                assert_eq!(rules.len(), 1);
                let paths = rules[0]["http"]["paths"].as_array().unwrap();
                assert_eq!(paths.len(), 1);
                assert_eq!(paths[0]["path"], string(&format!("/my_fn/{}/", id)));
                assert_eq!(paths[0]["pathType"], string("Prefix"));
                let service = &paths[0]["backend"]["service"];
                assert_eq!(service["name"], string(&format!("{}-service", app)));
                assert_eq!(service["port"]["number"], serde_json::Value::from(5678));
                documents += 1;
            }
            DeclareAction::Done(r) => {
                assert!(r.is_ok());
                break;
            }
            _ => {}
        }
    }
    assert_eq!(documents, 3);
}

#[test]
fn dockerfile_for_a_target_architecture_installs_the_binary() {
    let text = turbolift::kubernetes::dockerfile(
        "square",
        "source.tar",
        Some("x86_64-unknown-linux-musl"),
        false,
    );
    assert!(text.contains("\nRUN rustup target add x86_64-unknown-linux-musl\n"));
    assert!(text
        .contains("\nRUN cargo install --debug --target x86_64-unknown-linux-musl --path .\n"));
    assert!(text.contains("\nFROM scratch\nCOPY --from=builder /usr/local/cargo/bin/square .\n"));
    assert!(text.ends_with("CMD [\"./square\", \"0.0.0.0:5678\"]"));
    let release = turbolift::kubernetes::dockerfile("square", "source.tar", Some("arch"), true);
    assert!(release.contains("\nRUN cargo install --target arch --path .\n"));
}

fn declare_fully(k8s: &mut K8s, name: &str) -> (usize, usize, usize) {
    let (mut decl, _) = k8s.declare(name);
    let (mut deployments, mut services, mut ingresses) = (0, 0, 0);
    loop {
        match k8s.declare_step(&mut decl, ok("tag")) {
            DeclareAction::CreateDeployment(_) => deployments += 1,
            DeclareAction::CreateService(_) => services += 1,
            DeclareAction::ApplyIngress(_) => ingresses += 1,
            DeclareAction::Done(r) => {
                assert!(r.is_ok());
                return (deployments, services, ingresses);
            }
            _ => {}
        }
    }
}

#[test]
fn ten_calls_declare_once_and_request_ten_urls() {
    let mut k8s = K8s::with_deploy_function_and_max_replicas(2, true);
    let id = k8s.run_id.to_hyphenated();
    let mut objects = (0, 0, 0);
    let mut urls = Vec::new();
    for input in 1..=10u64 {
        let (mut call, mut action) = begin_call(&k8s, "square", &vec![input.to_string()]);
        loop {
            action = match action {
                CallAction::Declare(name) => {
                    let made = declare_fully(&mut k8s, &name);
                    objects = (objects.0 + made.0, objects.1 + made.1, objects.2 + made.2);
                    call_step(&mut call, ok(""))
                }
                CallAction::Dispatch(name, params) => {
                    match k8s.dispatch(&name, &params).unwrap() {
                        DispatchAction::Request(url) => urls.push(url),
                        other => panic!("unexpected: {:?}", other),
                    }
                    call_step(&mut call, ok(&(input * input).to_string()))
                }
                CallAction::Return(answer) => {
                    assert_eq!(answer.unwrap(), (input * input).to_string());
                    break;
                }
            };
        }
    }
    assert_eq!(objects, (1, 1, 1));
    let expected: Vec<String> = (1..=10)
        .map(|i| format!("http://localhost:80/square/{}/{}", id, i))
        .collect();
    assert_eq!(urls, expected);
}

#[test]
fn a_failed_call_leaves_the_service_in_place() {
    let mut k8s = K8s::with_deploy_function_and_max_replicas(1, true);
    declare_fully(&mut k8s, "boom");
    let first = k8s.dispatch("boom", "1").unwrap();
    assert!(matches!(
        read_response(500, "panicked".to_string()),
        Err(DistributionError::Status(500))
    ));
    assert!(k8s.has_declared("boom"));
    let second = k8s.dispatch("boom", "1").unwrap();
    match (first, second) {
        (DispatchAction::Request(a), DispatchAction::Request(b)) => assert_eq!(a, b),
        other => panic!("unexpected: {:?}", other),
    }
}

#[test]
fn a_declare_leaves_the_urls_of_other_functions() {
    let mut k8s = K8s::with_deploy_function_and_max_replicas(1, true);
    declare_fully(&mut k8s, "first");
    let before = match k8s.dispatch("first", "1").unwrap() {
        DispatchAction::Request(url) => url,
        other => panic!("unexpected: {:?}", other),
    };
    declare_fully(&mut k8s, "second");
    declare_fully(&mut k8s, "first");
    match k8s.dispatch("first", "1").unwrap() {
        DispatchAction::Request(url) => assert_eq!(url, before),
        other => panic!("unexpected: {:?}", other),
    }
    assert_eq!(k8s.fn_names_to_ips.len(), 2);
}
