use packr::error::LaunchError;
use packr::invocation::RuntimeConfig;
use packr::launch::{is_pending, next, Action, BridgeStep, Cause, Event, Launch, Phase};
use packr::platform::Platform;

/// A stand-in for the embedded runtime: it answers each call the way a
/// runtime holding `classes` would, and records what it was asked.
struct Simulated {
    classes: Vec<String>,
    entry_methods: Vec<String>,
    fail_at: Option<String>,
    null_at: Option<String>,
    status: i32,
    options: Vec<String>,
    calls: Vec<String>,
    strings: Vec<String>,
    array: Vec<Option<String>>,
    invoked_with: Vec<Vec<String>>,
    pending: bool,
}

impl Simulated {
    fn new(classes: &[&str]) -> Simulated {
        Simulated {
            classes: classes.iter().map(|s| s.to_string()).collect(),
            entry_methods: classes.iter().map(|s| s.to_string()).collect(),
            fail_at: None,
            null_at: None,
            status: 0,
            options: Vec::new(),
            calls: Vec::new(),
            strings: Vec::new(),
            array: Vec::new(),
            invoked_with: Vec::new(),
            pending: false,
        }
    }

    fn name(a: &Action) -> String {
        let n = format!("{:?}", a);
        n.split(|c: char| c == ' ' || c == '{').next().unwrap().to_string()
    }

    fn perform(&mut self, a: &Action) -> Event {
        assert!(!self.pending || matches!(a, Action::ClearException), "runtime used with an exception pending");
        let name = Simulated::name(a);
        self.calls.push(name.clone());
        let throws = self.fail_at.as_deref() == Some(name.as_str());
        let null = self.null_at.as_deref() == Some(name.as_str());
        let reference = |s: &mut Simulated, ok: bool| {
            if throws {
                s.pending = true;
            }
            Event::Reference { null: !ok || null, pending: throws }
        };
        match a {
            Action::LoadLibrary { .. } => Event::Loaded,
            Action::CreateRuntime { options } => {
                self.options = options.clone();
                Event::Status { code: self.status }
            }
            Action::AttachThread => Event::Status { code: 0 },
            Action::LoadClass { name } => {
                let found = self.classes.contains(name);
                if !found {
                    self.pending = true;
                    return Event::Reference { null: true, pending: true };
                }
                reference(self, true)
            }
            Action::ResolveEntry { name, signature } => {
                let ok = name == "main" && signature == "([Ljava/lang/String;)V" && !self.entry_methods.is_empty();
                reference(self, ok)
            }
            Action::NewStringArray { length } => {
                self.array = vec![None; *length];
                reference(self, true)
            }
            Action::NewString { value } => {
                self.strings.push(value.clone());
                reference(self, true)
            }
            Action::StoreArgument { index } => {
                self.array[*index] = self.strings.last().cloned();
                Event::Completed { pending: throws }
            }
            Action::InstallLoader | Action::InvokeEntry | Action::DestroyRuntime => {
                if throws {
                    self.pending = true;
                }
                if let Action::InvokeEntry = a {
                    self.invoked_with.push(self.array.iter().map(|s| s.clone().unwrap()).collect());
                }
                Event::Completed { pending: throws }
            }
            Action::ClearException => {
                self.pending = false;
                Event::Cleared { description: "java.lang.RuntimeException: boom".to_string() }
            }
            Action::Exit | Action::Abort { .. } => panic!("no call after the end"),
            _ => reference(self, true),
        }
    }
}

fn config(main_class: &str, vm_args: &[&str]) -> RuntimeConfig {
    RuntimeConfig {
        jar: "app.jar".to_string(),
        main_class: main_class.to_string(),
        vm_args: vm_args.iter().map(|s| s.to_string()).collect(),
    }
}

fn start(main_class: &str, vm_args: &[&str], args: &[&str]) -> Launch {
    let args: Vec<String> = args.iter().map(|s| s.to_string()).collect();
    Launch::new(Platform::LinuxAmd64, "/srv/app/jre", "/srv/app", &config(main_class, vm_args), &args).unwrap()
}

/// Runs the launch against the simulated runtime until it exits or aborts.
fn drive(launch: &mut Launch, rt: &mut Simulated) -> Action {
    let mut action = launch.request();
    for _ in 0..1000 {
        match action {
            Action::Exit | Action::Abort { .. } => return action,
            _ => {}
        }
        let event = rt.perform(&action);
        action = launch.step(event);
    }
    panic!("launch did not end");
}

#[test]
fn end_to_end_launch() {
    let mut launch = start("com.example.Main", &["-Xmx256m"], &["--verbose"]);
    let mut rt = Simulated::new(&["com.example.Main"]);
    let end = drive(&mut launch, &mut rt);
    assert!(matches!(end, Action::Exit));
    assert_eq!(launch.phase(), Phase::Finished);
    assert_eq!(rt.options, vec!["-Xmx256m", "-Djava.class.path=/srv/app/app.jar"]);
    assert_eq!(rt.invoked_with, vec![vec!["--verbose".to_string()]]);
    assert_eq!(rt.calls.iter().filter(|c| c.as_str() == "InvokeEntry").count(), 1);
    assert_eq!(rt.calls.last().unwrap(), "DestroyRuntime");
    assert!(!rt.pending);
}

#[test]
fn launch_asks_for_calls_in_order() {
    let mut launch = start("com.example.Main", &[], &["x"]);
    let mut rt = Simulated::new(&["com.example.Main"]);
    drive(&mut launch, &mut rt);
    let expected = [
        "LoadLibrary", "CreateRuntime", "AttachThread", "MakeUrl", "WrapUrl", "CurrentThread",
        "ContextLoader", "NewLoader", "InstallLoader", "LoadClass", "ResolveEntry", "FindClass",
        "NewStringArray", "NewString", "StoreArgument", "InvokeEntry", "DestroyRuntime",
    ];
    assert_eq!(rt.calls, expected);
}

#[test]
fn first_requests_carry_paths() {
    let mut launch = start("com.example.Main", &["-Xmx256m"], &[]);
    match launch.request() {
        Action::LoadLibrary { path } => assert_eq!(path, "/srv/app/jre/lib/amd64/server/libjvm.so"),
        other => panic!("unexpected {:?}", other),
    }
    launch.step(Event::Loaded);
    launch.step(Event::Status { code: 0 });
    match launch.step(Event::Status { code: 0 }) {
        Action::MakeUrl { url } => assert_eq!(url, "file:///srv/app/app.jar"),
        other => panic!("unexpected {:?}", other),
    }
}

#[test]
fn class_loading_returns_class_and_entry_method() {
    let mut launch = start("Foo", &[], &[]);
    let mut rt = Simulated::new(&["Foo"]);
    let end = drive(&mut launch, &mut rt);
    assert!(matches!(end, Action::Exit));
    assert_eq!(rt.invoked_with, vec![Vec::<String>::new()]);
}

#[test]
fn missing_class_fails_at_load_class_step() {
    let mut launch = start("com.example.Missing", &[], &["a"]);
    let mut rt = Simulated::new(&["Foo"]);
    let end = drive(&mut launch, &mut rt);
    match end {
        Action::Abort { error } => assert_eq!(
            error,
            LaunchError::ClassLoadError { step: BridgeStep::LoadClass, class_name: "com.example.Missing".to_string() }
        ),
        other => panic!("unexpected {:?}", other),
    }
    assert!(!rt.calls.iter().any(|c| c == "NewStringArray" || c == "NewString" || c == "InvokeEntry"));
    assert_eq!(rt.calls.last().unwrap(), "ClearException");
    assert!(!rt.pending);
}

#[test]
fn failed_launch_stays_failed() {
    let mut launch = start("com.example.Missing", &[], &[]);
    let mut rt = Simulated::new(&[]);
    drive(&mut launch, &mut rt);
    let fail = Phase::Failed { cause: Cause::ClassLoad { step: BridgeStep::LoadClass } };
    assert_eq!(launch.phase(), fail);
    for e in [Event::Loaded, Event::Completed { pending: false }, Event::Reference { null: false, pending: false }] {
        assert!(matches!(launch.step(e), Action::Abort { .. }));
        assert_eq!(launch.phase(), fail);
    }
}

#[test]
fn marshal_round_trip() {
    let mut launch = start("Foo", &[], &["a", "b", "c"]);
    let mut rt = Simulated::new(&["Foo"]);
    drive(&mut launch, &mut rt);
    assert_eq!(rt.array.len(), 3);
    let back: Vec<String> = rt.array.iter().map(|s| s.clone().unwrap()).collect();
    assert_eq!(back, vec!["a", "b", "c"]);
}

#[test]
fn pending_exception_is_cleared_before_anything_else() {
    let steps = [
        "MakeUrl", "WrapUrl", "CurrentThread", "ContextLoader", "NewLoader", "InstallLoader", "LoadClass",
        "ResolveEntry", "FindClass", "NewStringArray", "NewString", "StoreArgument", "InvokeEntry",
    ];
    for s in steps {
        let mut launch = start("Foo", &[], &["a"]);
        let mut rt = Simulated::new(&["Foo"]);
        rt.fail_at = Some(s.to_string());
        let end = drive(&mut launch, &mut rt);
        let n = rt.calls.len();
        assert_eq!(rt.calls[n - 2], s);
        assert_eq!(rt.calls[n - 1], "ClearException");
        assert!(!rt.pending);
        match end {
            Action::Abort { error: LaunchError::ClassLoadError { step, class_name } } => {
                assert!(n <= 12);
                assert_eq!(format!("{:?}", step), s);
                assert_eq!(class_name, "Foo");
            }
            Action::Abort { error: LaunchError::EmbeddedRuntimeException { description } } => {
                assert!(n > 12);
                assert_eq!(description, "java.lang.RuntimeException: boom");
            }
            other => panic!("unexpected {:?}", other),
        }
    }
}

#[test]
fn exception_from_entry_method_is_reported() {
    let mut launch = start("Foo", &[], &[]);
    let mut rt = Simulated::new(&["Foo"]);
    rt.fail_at = Some("InvokeEntry".to_string());
    let end = drive(&mut launch, &mut rt);
    match end {
        Action::Abort { error } => assert_eq!(
            error,
            LaunchError::EmbeddedRuntimeException { description: "java.lang.RuntimeException: boom".to_string() }
        ),
        other => panic!("unexpected {:?}", other),
    }
    assert!(!rt.calls.iter().any(|c| c == "DestroyRuntime"));
}

#[test]
fn null_reference_names_the_bridge_step() {
    let mut launch = start("Foo", &[], &[]);
    let mut rt = Simulated::new(&["Foo"]);
    rt.null_at = Some("NewLoader".to_string());
    match drive(&mut launch, &mut rt) {
        Action::Abort { error } => assert_eq!(
            error,
            LaunchError::ClassLoadError { step: BridgeStep::NewLoader, class_name: "Foo".to_string() }
        ),
        other => panic!("unexpected {:?}", other),
    }
}

#[test]
fn missing_entry_method_fails_at_resolve_step() {
    let mut launch = start("Foo", &[], &[]);
    let mut rt = Simulated::new(&["Foo"]);
    rt.entry_methods.clear();
    match drive(&mut launch, &mut rt) {
        Action::Abort { error } => assert_eq!(
            error,
            LaunchError::ClassLoadError { step: BridgeStep::ResolveEntry, class_name: "Foo".to_string() }
        ),
        other => panic!("unexpected {:?}", other),
    }
}

#[test]
fn null_argument_array_is_a_marshal_error() {
    let mut launch = start("Foo", &[], &["a"]);
    let mut rt = Simulated::new(&["Foo"]);
    rt.null_at = Some("NewStringArray".to_string());
    match drive(&mut launch, &mut rt) {
        Action::Abort { error } => assert_eq!(error, LaunchError::MarshalError),
        other => panic!("unexpected {:?}", other),
    }
}

#[test]
fn creation_status_is_reported() {
    let mut launch = start("Foo", &[], &[]);
    let mut rt = Simulated::new(&["Foo"]);
    rt.status = -6;
    match drive(&mut launch, &mut rt) {
        Action::Abort { error } => assert_eq!(error, LaunchError::CreationError { code: -6 }),
        other => panic!("unexpected {:?}", other),
    }
}

#[test]
fn load_and_attach_failures() {
    let mut launch = start("Foo", &[], &[]);
    match launch.step(Event::LoadFailed) {
        Action::Abort { error } => assert_eq!(error, LaunchError::LoadError),
        other => panic!("unexpected {:?}", other),
    }
    let mut launch = start("Foo", &[], &[]);
    launch.step(Event::Loaded);
    launch.step(Event::Status { code: 0 });
    match launch.step(Event::Status { code: -1 }) {
        Action::Abort { error } => assert_eq!(error, LaunchError::AttachError { code: -1 }),
        other => panic!("unexpected {:?}", other),
    }
}

#[test]
fn wrong_event_is_a_protocol_error() {
    let mut launch = start("Foo", &[], &[]);
    match launch.step(Event::Status { code: 0 }) {
        Action::Abort { error } => assert_eq!(error, LaunchError::ProtocolError),
        other => panic!("unexpected {:?}", other),
    }
}

#[test]
fn pending_wins_over_event_kind() {
    let p = Phase::Bridging { step: BridgeStep::InstallLoader };
    let e = Event::Reference { null: false, pending: true };
    assert!(is_pending(&e));
    assert_eq!(next(p, &e, 0), Phase::Clearing { cause: Cause::ClassLoad { step: BridgeStep::InstallLoader } });
    assert!(!is_pending(&Event::Cleared { description: String::new() }));
}

#[test]
fn creation_requested_once() {
    let mut launch = start("Foo", &[], &[]);
    let mut rt = Simulated::new(&["Foo"]);
    drive(&mut launch, &mut rt);
    assert_eq!(rt.calls.iter().filter(|c| c.as_str() == "CreateRuntime").count(), 1);
    assert_eq!(rt.calls.iter().filter(|c| c.as_str() == "LoadLibrary").count(), 1);
}

#[test]
fn new_rejects_unresolvable_jar() {
    let args: Vec<String> = Vec::new();
    let r = Launch::new(Platform::LinuxAmd64, "/jre", "relative", &config("Foo", &[]), &args);
    assert!(matches!(r, Err(LaunchError::ConfigError)));
}
