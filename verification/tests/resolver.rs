use crashcart::command::{exit_code, Streams};
use crashcart::container::{
    find_task_pid, parse_inspected_pid, pid_from_response, Detection, Engine, PidLookup,
    TaskRecord,
};
use crashcart::failure::FailureKind;
use crashcart::host::Response;
use crashcart::namespace::{exec_in_namespace, exec_status};
use crashcart::ContainerRuntime;

fn exited(code: i32, stdout: &str, stderr: &str) -> Response {
    Response::Exited {
        code: Some(code),
        stdout: stdout.as_bytes().to_vec(),
        stderr: stderr.to_string(),
    }
}

fn words(words: &[&str]) -> Vec<String> {
    words.iter().map(|w| w.to_string()).collect()
}

#[test]
fn numeric_target_is_a_process_without_any_probe() {
    match ContainerRuntime::detect("12345", &[]).unwrap() {
        Detection::Resolved { runtime } => {
            assert!(matches!(runtime, ContainerRuntime::Pid { pid: 12345 }));
            match runtime.get_pid(None).unwrap() {
                PidLookup::Known { pid } => assert_eq!(pid, 12345),
                PidLookup::Ask { .. } => panic!("no process may be run for a bare pid"),
            }
        }
        Detection::Probe { .. } => panic!("no probe may be run for a bare pid"),
    }
    // Answers of engines do not matter for a number.
    assert!(matches!(
        ContainerRuntime::detect("0", &[true, true, true]).unwrap(),
        Detection::Resolved { runtime: ContainerRuntime::Pid { pid: 0 } }
    ));
}

#[test]
fn unknown_target_is_not_found_and_named() {
    let e = ContainerRuntime::detect("does-not-exist", &[false, false, false]).unwrap_err();
    assert_eq!(e.kind, FailureKind::ResolutionFailure);
    assert!(e.to_string().contains("does-not-exist"));
    assert_eq!(e.to_string(), "container or process not found: does-not-exist");
}

#[test]
fn engines_are_probed_in_order() {
    let probe = |answers: &[bool]| match ContainerRuntime::detect("web", answers).unwrap() {
        Detection::Probe { engine, command } => {
            assert_eq!(command.streams, Streams::Quiet);
            assert!(command.env.is_none());
            (engine, command.program, command.args)
        }
        Detection::Resolved { .. } => panic!("a probe was expected"),
    };
    assert_eq!(probe(&[]), (Engine::Docker, "docker".to_string(), words(&["inspect", "web"])));
    assert_eq!(probe(&[false]), (Engine::Podman, "podman".to_string(), words(&["inspect", "web"])));
    assert_eq!(
        probe(&[false, false]),
        (Engine::Containerd, "ctr".to_string(), words(&["container", "info", "web"]))
    );
}

#[test]
fn first_positive_engine_wins() {
    let resolved = |answers: &[bool]| match ContainerRuntime::detect("web", answers).unwrap() {
        Detection::Resolved { runtime } => runtime,
        Detection::Probe { .. } => panic!("a container was expected"),
    };
    assert!(matches!(resolved(&[true]), ContainerRuntime::Docker { id } if id == "web"));
    assert!(matches!(resolved(&[true, true]), ContainerRuntime::Docker { .. }));
    assert!(matches!(resolved(&[false, true]), ContainerRuntime::Podman { id } if id == "web"));
    assert!(matches!(
        resolved(&[false, false, true]),
        ContainerRuntime::Containerd { id } if id == "web"
    ));
}

#[test]
fn overlong_number_is_no_process() {
    assert!(matches!(
        ContainerRuntime::detect("4294967296", &[]).unwrap(),
        Detection::Probe { engine: Engine::Docker, .. }
    ));
}

#[test]
fn pid_is_asked_of_the_engine() {
    let ask = |runtime: ContainerRuntime| match runtime.get_pid(None).unwrap() {
        PidLookup::Ask { command } => {
            assert_eq!(command.streams, Streams::Captured);
            (command.program, command.args)
        }
        PidLookup::Known { .. } => panic!("the engine has to be asked"),
    };
    let format = words(&["inspect", "--format", "{{.State.Pid}}", "web"]);
    assert_eq!(ask(ContainerRuntime::Docker { id: "web".into() }), ("docker".to_string(), format.clone()));
    assert_eq!(ask(ContainerRuntime::Podman { id: "web".into() }), ("podman".to_string(), format));
    assert_eq!(
        ask(ContainerRuntime::Containerd { id: "web".into() }),
        ("ctr".to_string(), words(&["task", "list", "--format", "json"]))
    );
}

#[test]
fn inspect_output_is_trimmed_and_read() {
    let docker = ContainerRuntime::Docker { id: "web".into() };
    let answer = exited(0, "4711\n", "");
    assert!(matches!(docker.get_pid(Some(&answer)).unwrap(), PidLookup::Known { pid: 4711 }));
    assert_eq!(parse_inspected_pid(b" 42 \n"), Some(42));
    assert_eq!(parse_inspected_pid(b"4 2"), None);
    assert_eq!(parse_inspected_pid(b""), None);
    assert_eq!(parse_inspected_pid(&[0x34, 0xff]), None);

    let e = docker.get_pid(Some(&exited(0, "<no value>\n", ""))).unwrap_err();
    assert_eq!(e.kind, FailureKind::SubprocessFailed);
    assert_eq!(e.to_string(), "Failed to parse Docker PID");

    let e = docker.get_pid(Some(&exited(1, "", "No such object: web"))).unwrap_err();
    assert_eq!(e.kind, FailureKind::SubprocessFailed);
    assert_eq!(e.to_string(), "Failed to get Docker container PID: No such object: web");

    let podman = ContainerRuntime::Podman { id: "web".into() };
    let e = podman.get_pid(Some(&Response::Failed { detail: "not installed".into() })).unwrap_err();
    assert_eq!(e.to_string(), "Failed to get Podman container PID: not installed");
}

#[test]
fn containerd_task_is_found_by_prefix() {
    let json = r#"[{"ID":"abc123","Pid":100},{"ID":"web-1","Pid":200},{"ID":"web-2","Pid":300}]"#;
    let answer = exited(0, json, "");
    assert_eq!(pid_from_response(Engine::Containerd, "web", &answer).unwrap(), 200);
    assert_eq!(pid_from_response(Engine::Containerd, "web-2", &answer).unwrap(), 300);
    assert_eq!(pid_from_response(Engine::Containerd, "", &answer).unwrap(), 100);
    let e = pid_from_response(Engine::Containerd, "db", &answer).unwrap_err();
    assert_eq!(e.kind, FailureKind::ResolutionFailure);
    assert_eq!(e.to_string(), "no such task: db");

    let containerd = ContainerRuntime::Containerd { id: "abc".into() };
    assert!(matches!(containerd.get_pid(Some(&answer)).unwrap(), PidLookup::Known { pid: 100 }));
}

#[test]
fn containerd_entries_without_id_or_pid_are_passed_over() {
    let json = r#"[{"Pid":1},{"ID":7,"Pid":2},{"ID":"web"},{"ID":"web","Pid":"3"},
                   {"ID":"web","Pid":-4},{"ID":"web","Pid":5}]"#;
    let answer = exited(0, json, "");
    assert_eq!(pid_from_response(Engine::Containerd, "web", &answer).unwrap(), 5);
}

#[test]
fn containerd_output_that_is_no_list_fails() {
    for text in ["", "{}", "[1,2", "null"] {
        let e = pid_from_response(Engine::Containerd, "web", &exited(0, text, "")).unwrap_err();
        assert_eq!(e.kind, FailureKind::SubprocessFailed);
        assert_eq!(e.to_string(), "Failed to parse containerd task list");
    }
    let e = pid_from_response(Engine::Containerd, "web", &exited(2, "[]", "boom")).unwrap_err();
    assert_eq!(e.to_string(), "Failed to get containerd container PID: boom");
}

#[test]
fn task_search_on_plain_records() {
    let tasks = vec![
        TaskRecord { id: None, pid: Some(1) },
        TaskRecord { id: Some("other".into()), pid: Some(2) },
        TaskRecord { id: Some("web-7".into()), pid: None },
        TaskRecord { id: Some("web-8".into()), pid: Some(4294967296 + 9) },
        TaskRecord { id: Some("web-9".into()), pid: Some(10) },
    ];
    assert_eq!(find_task_pid(&tasks, "web"), Some(9));
    assert_eq!(find_task_pid(&tasks, "web-9"), Some(10));
    assert_eq!(find_task_pid(&tasks, "web-7"), None);
    assert_eq!(find_task_pid(&tasks, "o"), Some(2));
    assert_eq!(find_task_pid(&[], "web"), None);
}

#[test]
fn exec_goes_through_the_engine() {
    let cmd = words(&["ls", "-l"]);
    let docker = ContainerRuntime::Docker { id: "web".into() }.exec_command(&cmd, 77).unwrap();
    assert_eq!(docker.program, "docker");
    assert_eq!(docker.args, words(&["exec", "-it", "web", "ls", "-l"]));
    assert_eq!(docker.streams, Streams::Inherited);
    let podman = ContainerRuntime::Podman { id: "web".into() }.exec_command(&cmd, 77).unwrap();
    assert_eq!(podman.program, "podman");
    assert_eq!(podman.args, words(&["exec", "-it", "web", "ls", "-l"]));
    let ctr = ContainerRuntime::Containerd { id: "web".into() }.exec_command(&cmd, 77).unwrap();
    assert_eq!(ctr.program, "ctr");
    assert_eq!(
        ctr.args,
        words(&["task", "exec", "--exec-id", "crashcart-77", "web", "ls", "-l"])
    );
}

#[test]
fn exec_without_command_runs_the_debug_shell() {
    let docker = ContainerRuntime::Docker { id: "web".into() }.exec_command(&[], 1).unwrap();
    assert_eq!(
        docker.args,
        words(&[
            "exec",
            "-it",
            "web",
            "/dev/crashcart/bin/bash",
            "--rcfile",
            "/dev/crashcart/.crashcartrc",
            "-i"
        ])
    );
}

#[test]
fn exec_is_refused_for_a_bare_process() {
    let e = ContainerRuntime::Pid { pid: 1 }.exec_command(&words(&["ls"]), 1).unwrap_err();
    assert_eq!(e.kind, FailureKind::NoExecChannel);
    assert_eq!(e.to_string(), "raw PID has no runtime exec channel");
}

#[test]
fn namespace_exec_runs_nsenter() {
    let c = exec_in_namespace(4711, &words(&["ps", "aux"]), Some(("CRASHCART_TARGET_PID", "4711")));
    assert_eq!(c.program, "nsenter");
    assert_eq!(c.args, words(&["-t", "4711", "-m", "-u", "-i", "-n", "-p", "--", "ps", "aux"]));
    assert_eq!(c.env, Some(("CRASHCART_TARGET_PID".to_string(), "4711".to_string())));
    assert_eq!(c.streams, Streams::Inherited);
}

#[test]
fn namespace_exec_defaults_to_the_injected_shell() {
    let c = exec_in_namespace(1, &[], None);
    assert_eq!(
        c.args,
        words(&[
            "-t",
            "1",
            "-m",
            "-u",
            "-i",
            "-n",
            "-p",
            "--",
            "/dev/crashcart/lib64/ld-linux-x86-64.so.2",
            "--library-path",
            "/dev/crashcart/lib:/dev/crashcart/lib64:/dev/crashcart/usr/lib:/dev/crashcart/usr/lib64",
            "/dev/crashcart/usr/bin/bash",
            "--rcfile",
            "/dev/crashcart/.crashcartrc",
            "-i"
        ])
    );
    assert!(c.env.is_none());
}

#[test]
fn exit_codes_are_handed_on() {
    assert_eq!(exit_code(Some(0)), 0);
    assert_eq!(exit_code(Some(3)), 3);
    assert_eq!(exit_code(None), -1);
    assert_eq!(exec_status(&exited(42, "", "")).unwrap(), 42);
    let signalled = Response::Exited { code: None, stdout: vec![], stderr: String::new() };
    assert_eq!(exec_status(&signalled).unwrap(), -1);
    let e = exec_status(&Response::Failed { detail: "no nsenter".into() }).unwrap_err();
    assert_eq!(e.kind, FailureKind::SubprocessFailed);
    assert_eq!(e.to_string(), "Failed to execute command in target: no nsenter");
}
