use zed_scala::config::{
    AttachRequest, DebugConfig, DebugRequest, EntryPoint, LaunchRequest,
    ScalaDebugAttachDefinition, ScalaDebugLauchDefinition, ScalaDebugTaskDefinition,
};
use zed_scala::debugger::Debugger;
use zed_scala::error::DapError;
use zed_scala::extension::{
    check_adapter, classify_request_kind, dap_request_kind, metals_arguments, proxy_command_args,
    RequestField, RequestKind,
};
use zed_scala::hex::string_to_hex;
use zed_scala::path::full_path;
use zed_scala::port::{get_port_from_uri, parse_port_file};
use zed_scala::registry::SessionRegistry;
use zed_scala::session::{
    unwrap_envelope, DapStartResult, PortFileRead, RemoteEnvelope, StartAction, TcpEndpoint,
};

fn s(x: &str) -> String {
    x.to_string()
}

fn launch(path: &str, run_type: Option<&str>) -> ScalaDebugTaskDefinition {
    ScalaDebugTaskDefinition::Launch(ScalaDebugLauchDefinition {
        request: s("launch"),
        entry: EntryPoint::Auto { path: s(path), run_type: run_type.map(s) },
        build_taget: None,
        args: None,
        jvm_options: None,
        env: None,
        env_file: None,
    })
}

fn launch_entry(entry: EntryPoint) -> ScalaDebugTaskDefinition {
    ScalaDebugTaskDefinition::Launch(ScalaDebugLauchDefinition {
        request: s("launch"),
        entry,
        build_taget: Some(s("root")),
        args: Some(vec![s("a")]),
        jvm_options: Some(vec![s("-Xmx1g")]),
        env: Some(vec![(s("K"), s("V"))]),
        env_file: Some(s(".env")),
    })
}

fn attach(request: &str, host: Option<&str>, port: Option<u16>) -> ScalaDebugTaskDefinition {
    ScalaDebugTaskDefinition::Attach(ScalaDebugAttachDefinition {
        request: s(request),
        build_taget: None,
        host_name: host.map(s),
        port,
    })
}

fn auto_path(t: &ScalaDebugTaskDefinition) -> (String, Option<String>) {
    match t {
        ScalaDebugTaskDefinition::Launch(l) => match &l.entry {
            EntryPoint::Auto { path, run_type } => (path.clone(), run_type.clone()),
            _ => panic!("not an autodiscovered launch"),
        },
        _ => panic!("not a launch"),
    }
}

#[test]
fn port_from_uri_scenarios() {
    assert_eq!(get_port_from_uri("localhost:5005"), Ok(5005));
    assert_eq!(get_port_from_uri("no-colon-here"), Err(DapError::MalformedUri));
    assert_eq!(get_port_from_uri("host:notanumber"), Err(DapError::PortParseError));
    assert_eq!(get_port_from_uri("host:70000"), Err(DapError::PortParseError));
}

#[test]
fn port_from_uri_edges() {
    assert_eq!(get_port_from_uri("tcp://127.0.0.1:40123"), Ok(40123));
    assert_eq!(get_port_from_uri("host: 42 \n"), Ok(42));
    assert_eq!(get_port_from_uri("a:b:+80"), Ok(80));
    assert_eq!(get_port_from_uri("host:65535"), Ok(65535));
    assert_eq!(get_port_from_uri("host:65536"), Err(DapError::PortParseError));
    assert_eq!(get_port_from_uri("host:"), Err(DapError::PortParseError));
    assert_eq!(get_port_from_uri("host:-1"), Err(DapError::PortParseError));
    assert_eq!(get_port_from_uri("host:+"), Err(DapError::PortParseError));
    assert_eq!(get_port_from_uri("host:0005005"), Ok(5005));
    assert_eq!(get_port_from_uri(""), Err(DapError::MalformedUri));
}

#[test]
fn port_file_contents() {
    assert_eq!(parse_port_file("8080"), Ok(8080));
    assert_eq!(parse_port_file("8080\n"), Err(DapError::PortFileCorrupt));
    assert_eq!(parse_port_file(""), Err(DapError::PortFileCorrupt));
    assert_eq!(parse_port_file("99999"), Err(DapError::PortFileCorrupt));
}

#[test]
fn hex_encoding() {
    assert_eq!(string_to_hex(""), "");
    assert_eq!(string_to_hex("/ws"), "2f7773");
    assert_eq!(string_to_hex("\u{e9}"), "c3a9");
    let h = string_to_hex("/home/user/project");
    assert_eq!(h.len(), 2 * "/home/user/project".len());
    assert!(h.chars().all(|c| c.is_ascii_digit() || ('a'..='f').contains(&c)));
    assert_ne!(string_to_hex("/ws/a"), string_to_hex("/ws/b"));
}

#[test]
fn full_path_joins() {
    assert_eq!(full_path("a.scala", "/b"), "/b/a.scala");
    assert_eq!(full_path("a.scala", "/b/"), "/b/a.scala");
    assert_eq!(full_path("/x/a.scala", "/b"), "/x/a.scala");
    assert_eq!(full_path("a", ""), "a");
    assert_eq!(full_path("", "/b"), "/b/");
}

#[test]
fn request_kind_scenarios() {
    assert_eq!(classify_request_kind(&RequestField::Text(s("launch"))), Ok(RequestKind::Launch));
    assert_eq!(classify_request_kind(&RequestField::Text(s("attach"))), Ok(RequestKind::Attach));
    assert_eq!(classify_request_kind(&RequestField::Absent), Err(DapError::MalformedConfig));
    assert_eq!(
        classify_request_kind(&RequestField::Text(s("run"))),
        Err(DapError::UnsupportedRequestKind)
    );
    assert_eq!(classify_request_kind(&RequestField::Other), Err(DapError::UnsupportedRequestKind));
}

#[test]
fn adapter_name_checked() {
    assert_eq!(check_adapter("Metals"), Ok(()));
    assert_eq!(check_adapter("CodeLLDB"), Err(DapError::UnknownAdapter));
    assert_eq!(
        dap_request_kind("CodeLLDB", &RequestField::Text(s("launch"))),
        Err(DapError::UnknownAdapter)
    );
    assert_eq!(dap_request_kind("Metals", &RequestField::Text(s("attach"))), Ok(RequestKind::Attach));
}

#[test]
fn registry_marks_workspaces() {
    let mut r = SessionRegistry::new();
    assert!(!r.is_ready("/ws/a"));
    r.mark_ready("/ws/a");
    assert!(r.is_ready("/ws/a"));
    assert!(!r.is_ready("/ws/b"));
    r.mark_ready("/ws/a");
    assert!(r.is_ready("/ws/a"));
    r.mark_ready("/ws/b");
    assert!(r.is_ready("/ws/b"));
}

#[test]
fn enrich_relative_path() {
    let d = Debugger::new();
    let out = d.enrich_config("/proj", launch("src/App.scala", None)).unwrap();
    assert_eq!(auto_path(&out), (s("file:///proj/src/App.scala"), Some(s("run"))));
}

#[test]
fn enrich_absolute_and_prefixed_paths() {
    let d = Debugger::new();
    let out = d.enrich_config("/proj", launch("/other/App.scala", Some("test"))).unwrap();
    assert_eq!(auto_path(&out), (s("file:///other/App.scala"), Some(s("test"))));
    let out = d.enrich_config("/proj", launch("file:///x/App.scala", None)).unwrap();
    assert_eq!(auto_path(&out), (s("file:///x/App.scala"), Some(s("run"))));
}

#[test]
fn enrich_is_idempotent() {
    let d = Debugger::new();
    for t in [
        launch("App.scala", None),
        attach("attach", None, None),
        launch_entry(EntryPoint::Main { main_class: s("a.Main") }),
    ] {
        let once = d.enrich_config("/proj", t).unwrap();
        let twice = d.enrich_config("/proj", once.clone()).unwrap();
        assert_eq!(once, twice);
    }
}

#[test]
fn enrich_keeps_main_and_test() {
    let d = Debugger::new();
    let main = launch_entry(EntryPoint::Main { main_class: s("a.Main") });
    assert_eq!(d.enrich_config("/proj", main.clone()), Ok(main));
    let test = launch_entry(EntryPoint::Test { test_class: s("a.Spec") });
    assert_eq!(d.enrich_config("/proj", test.clone()), Ok(test));
}

#[test]
fn enrich_attach_defaults() {
    let d = Debugger::new();
    assert_eq!(
        d.enrich_config("/proj", attach("attach", None, None)),
        Ok(attach("attach", Some("localhost"), Some(5005)))
    );
    assert_eq!(
        d.enrich_config("/proj", attach("attach", Some("box"), Some(9000))),
        Ok(attach("attach", Some("box"), Some(9000)))
    );
}

#[test]
fn enrich_refuses_inconsistent_request() {
    let d = Debugger::new();
    assert_eq!(
        d.enrich_config("/proj", attach("launch", None, None)),
        Err(DapError::InvalidTaskDefinition)
    );
    let mut l = launch("App.scala", None);
    if let ScalaDebugTaskDefinition::Launch(x) = &mut l {
        x.request = s("attach");
    }
    assert_eq!(d.enrich_config("/proj", l), Err(DapError::InvalidTaskDefinition));
}

fn generic_launch(program: &str, cwd: Option<&str>, args: Vec<String>) -> DebugConfig {
    DebugConfig {
        label: s("run"),
        adapter: s("Metals"),
        request: DebugRequest::Launch(LaunchRequest {
            program: s(program),
            cwd: cwd.map(s),
            args,
            envs: vec![],
        }),
        stop_on_entry: None,
    }
}

#[test]
fn convert_launch_and_attach() {
    let d = Debugger::new();
    let out = d.convert_generic_config(generic_launch("App.scala", None, vec![]));
    assert_eq!(out, ScalaDebugTaskDefinition::Launch(ScalaDebugLauchDefinition {
        request: s("launch"),
        entry: EntryPoint::Auto { path: s("App.scala"), run_type: None },
        build_taget: None,
        args: None,
        jvm_options: None,
        env: None,
        env_file: None,
    }));
    let g = DebugConfig {
        label: s("attach"),
        adapter: s("Metals"),
        request: DebugRequest::Attach(AttachRequest { process_id: Some(42) }),
        stop_on_entry: None,
    };
    assert_eq!(d.convert_generic_config(g), attach("attach", None, None));
}

#[test]
fn convert_then_enrich_end_to_end() {
    let d = Debugger::new();
    let g = generic_launch("App.scala", Some("/proj"), vec![s("--flag")]);
    let out = d.enrich_config("/proj", d.convert_generic_config(g)).unwrap();
    assert_eq!(out, ScalaDebugTaskDefinition::Launch(ScalaDebugLauchDefinition {
        request: s("launch"),
        entry: EntryPoint::Auto { path: s("file:///proj/App.scala"), run_type: Some(s("run")) },
        build_taget: None,
        args: Some(vec![s("--flag")]),
        jvm_options: None,
        env: None,
        env_file: None,
    }));
}

#[test]
fn start_requires_ready_workspace() {
    let d = Debugger::new();
    let mut r = SessionRegistry::new();
    assert!(matches!(d.start(&r, "/ws"), StartAction::Fail(DapError::BackendNotInitialized)));
    r.mark_ready("/ws");
    match d.start(&r, "/ws") {
        StartAction::ReadPortFile { file_name } => assert_eq!(file_name, "2f7773"),
        _ => panic!("expected a port file read"),
    }
}

#[test]
fn start_port_file_step() {
    let d = Debugger::new();
    assert!(matches!(
        d.port_file_read(PortFileRead::Missing),
        StartAction::Fail(DapError::PortFileMissing)
    ));
    assert!(matches!(
        d.port_file_read(PortFileRead::Unreadable),
        StartAction::Fail(DapError::PortFileCorrupt)
    ));
    assert!(matches!(
        d.port_file_read(PortFileRead::Contents(s("abc"))),
        StartAction::Fail(DapError::PortFileCorrupt)
    ));
    match d.port_file_read(PortFileRead::Contents(s("41000"))) {
        StartAction::Post { port, method, command } => {
            assert_eq!(port, 41000);
            assert_eq!(method, "workspace/executeCommand");
            assert_eq!(command, "debug-adapter-start");
        }
        _ => panic!("expected a request"),
    }
}

#[test]
fn start_reply_step() {
    let d = Debugger::new();
    assert!(matches!(d.reply_received(None), StartAction::Fail(DapError::TransportError)));
    let err = RemoteEnvelope::Error { code: -32601, message: s("no"), data: None };
    match d.reply_received(Some(err)) {
        StartAction::Fail(DapError::RemoteError { code, message, data }) => {
            assert_eq!((code, message, data), (-32601, s("no"), None));
        }
        _ => panic!("expected the remote error"),
    }
    let ok = |uri: &str| {
        Some(RemoteEnvelope::Success { result: DapStartResult { name: s("dap"), uri: s(uri) } })
    };
    match d.reply_received(ok("tcp://localhost:5005")) {
        StartAction::Connect(e) => {
            assert_eq!(e, TcpEndpoint { host: None, port: Some(5005), timeout: None })
        }
        _ => panic!("expected an endpoint"),
    }
    assert!(matches!(d.reply_received(ok("tcp://nowhere")), StartAction::Fail(DapError::PortParseError)));
    assert!(matches!(d.reply_received(ok("nowhere")), StartAction::Fail(DapError::MalformedUri)));
}

#[test]
fn envelope_unwrapped() {
    assert_eq!(unwrap_envelope(RemoteEnvelope::Success { result: 7u8 }), Ok(7));
    assert_eq!(
        unwrap_envelope::<u8>(RemoteEnvelope::Error { code: 1, message: s("m"), data: Some(s("d")) }),
        Err(DapError::RemoteError { code: 1, message: s("m"), data: Some(s("d")) })
    );
}

#[test]
fn language_server_arguments() {
    assert!(metals_arguments(None).is_empty());
    assert_eq!(metals_arguments(Some(None)), vec![s("-Dmetals.http=on")]);
    assert_eq!(metals_arguments(Some(Some(vec![s("-x")]))), vec![s("-x")]);
    assert_eq!(
        proxy_command_args("code", s("/ext"), s("/bin/metals"), vec![s("-a"), s("-b")]),
        vec![s("--input-type=module"), s("-e"), s("code"), s("/ext"), s("/bin/metals"), s("-a"), s("-b")]
    );
}
