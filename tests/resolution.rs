use python_supervisor::python_cmd;
use python_supervisor::launch::{LaunchError, LaunchSpec};
use python_supervisor::resolver::{
    dev_candidates, find_dev_script, join_lines, join_path, packaged_script, resolve,
    ResolutionContext, ResolutionError,
};

fn strings(v: &[&str]) -> Vec<String> {
    v.iter().map(|s| s.to_string()).collect()
}

#[test]
fn interpreter_name_per_platform() {
    assert_eq!(python_cmd(true), "python");
    assert_eq!(python_cmd(false), "python3");
}

#[test]
fn join_path_inserts_one_separator() {
    assert_eq!(join_path("/app/src-tauri", "../backend/main.py"), "/app/src-tauri/../backend/main.py");
    assert_eq!(join_path("/res/", "backend/main.py"), "/res/backend/main.py");
    assert_eq!(join_path("", "backend/main.py"), "backend/main.py");
}

#[test]
fn development_candidates_in_order() {
    assert_eq!(
        dev_candidates("/app/src-tauri"),
        strings(&[
            "/app/src-tauri/../backend/main.py",
            "/app/src-tauri/../../backend/main.py",
            "/app/src-tauri/../../../backend/main.py",
        ])
    );
}

#[test]
fn join_lines_uses_single_newlines() {
    assert_eq!(join_lines(&strings(&[])), "");
    assert_eq!(join_lines(&strings(&["a"])), "a");
    assert_eq!(join_lines(&strings(&["a", "bc", "d"])), "a\nbc\nd");
}

#[test]
fn first_existing_candidate_wins() {
    let tried = strings(&["/x/1", "/x/2", "/x/3"]);
    match find_dev_script(&tried, &vec![false, true, true]) {
        Ok(p) => assert_eq!(p, "/x/2"),
        Err(_) => panic!("expected a path"),
    }
    match find_dev_script(&tried, &vec![true, false, false]) {
        Ok(p) => assert_eq!(p, "/x/1"),
        Err(_) => panic!("expected a path"),
    }
}

#[test]
fn missing_script_lists_every_candidate() {
    let tried = dev_candidates("/app/src-tauri");
    match find_dev_script(&tried, &vec![false, false, false]) {
        Ok(_) => panic!("expected an error"),
        Err(e) => {
            match &e {
                ResolutionError::NotFound { tried: t } => assert_eq!(t, &tried),
                _ => panic!("expected NotFound"),
            }
            let m = e.message();
            assert_eq!(
                m,
                "main.py not found. Tried:\n/app/src-tauri/../backend/main.py\n/app/src-tauri/../../backend/main.py\n/app/src-tauri/../../../backend/main.py"
            );
            for p in &tried {
                assert!(m.contains(p.as_str()));
            }
        }
    }
}

#[test]
fn packaged_script_below_resources() {
    match packaged_script(Ok("/opt/app/resources".to_string())) {
        Ok(p) => assert_eq!(p, "/opt/app/resources/backend/main.py"),
        Err(_) => panic!("expected a path"),
    }
}

#[test]
fn unknown_resource_dir_is_reported() {
    match packaged_script(Err("no bundle".to_string())) {
        Ok(_) => panic!("expected an error"),
        Err(e) => {
            assert!(matches!(e, ResolutionError::ResourceDirUnavailable { .. }));
            assert_eq!(e.message(), "resource_dir error: no bundle");
        }
    }
}

#[test]
fn resolve_dispatches_on_mode() {
    let dev = ResolutionContext::Development {
        tried: strings(&["/a", "/b"]),
        exists: vec![false, true],
    };
    match resolve(dev) {
        Ok(p) => assert_eq!(p, "/b"),
        Err(_) => panic!("expected a path"),
    }
    let packaged = ResolutionContext::Packaged { resource_dir: Ok("/r".to_string()) };
    match resolve(packaged) {
        Ok(p) => assert_eq!(p, "/r/backend/main.py"),
        Err(_) => panic!("expected a path"),
    }
}

#[test]
fn launch_arguments_carry_vault_verbatim() {
    let spec = LaunchSpec::new(false, "/s/main.py", "/vaults/a b");
    assert_eq!(spec.program, "python3");
    assert_eq!(spec.args, strings(&["/s/main.py", "--vault", "/vaults/a b"]));
    let win = LaunchSpec::new(true, "C:\\s\\main.py", "D:\\v");
    assert_eq!(win.program, "python");
    assert_eq!(win.args, strings(&["C:\\s\\main.py", "--vault", "D:\\v"]));
}

#[test]
fn launch_error_keeps_os_text() {
    let e = LaunchError::SpawnFailed { cause: "No such file or directory (os error 2)".to_string() };
    assert_eq!(e.message(), "failed to launch python: No such file or directory (os error 2)");
}
