use soundbridge::error::ConversionError;
use soundbridge::launch::{search_path_with, worker_env, EnvValue};
use soundbridge::lifecycle::prepare_launch;
use soundbridge::request::encode_request;
use soundbridge::runtime::{first_existing, resolve_python};
use soundbridge::{derive_python_home, embedded_python_candidates, log_line, ping, ConvertPayload, FsPath};

fn path(parts: &[&str]) -> FsPath {
    FsPath::from_parts(String::new(), parts.iter().map(|s| s.to_string()).collect())
}

fn payload() -> ConvertPayload {
    ConvertPayload {
        files: vec!["a.wav".to_string()],
        format: "mp3".to_string(),
        output: "/tmp/out".to_string(),
    }
}

#[test]
fn ping_answers_pong() {
    assert_eq!(ping(), "pong");
}

#[test]
fn log_line_has_scope_time_and_message() {
    assert_eq!(log_line("worker", "2024-01-01T00:00:00+00:00", "hi"), "[worker] [2024-01-01T00:00:00+00:00] hi");
}

#[test]
fn request_is_one_json_document() {
    let text = encode_request("convert", &payload());
    assert_eq!(text, r#"{"files":["a.wav"],"format":"mp3","operation":"convert","output":"/tmp/out"}"#);
    let v: serde_json::Value = serde_json::from_str(&text).unwrap();
    assert_eq!(v["files"][0], "a.wav");
}

#[test]
fn request_escapes_texts() {
    let p = ConvertPayload {
        files: vec!["a\"b.wav".to_string(), "c\\d.wav".to_string()],
        format: "flac".to_string(),
        output: "out".to_string(),
    };
    let text = encode_request("analyze", &p);
    assert_eq!(text, r#"{"files":["a\"b.wav","c\\d.wav"],"format":"flac","operation":"analyze","output":"out"}"#);
}

#[test]
fn request_with_no_files() {
    let p = ConvertPayload { files: vec![], format: "mp3".to_string(), output: "o".to_string() };
    let text = encode_request("convert", &p);
    assert_eq!(text, r#"{"files":[],"format":"mp3","operation":"convert","output":"o"}"#);
}

#[test]
fn candidates_in_probe_order() {
    let c = embedded_python_candidates(&path(&["res", "bin"]));
    let got: Vec<Vec<String>> = c.into_iter().map(|p| p.parts).collect();
    let want: Vec<Vec<String>> = vec![
        vec!["res", "bin", "python", "python.exe"],
        vec!["res", "bin", "python", "python"],
        vec!["res", "bin", "python", "python3"],
        vec!["res", "bin", "python", "bin", "python3"],
        vec!["res", "bin", "python", "bin", "python"],
    ]
    .into_iter()
    .map(|v| v.into_iter().map(|s| s.to_string()).collect())
    .collect();
    assert_eq!(got, want);
}

#[test]
fn home_of_nested_bin_is_grandparent() {
    let h = derive_python_home(&path(&["res", "python", "bin", "python3"])).unwrap();
    assert_eq!(h.parts, vec!["res".to_string(), "python".to_string()]);
}

#[test]
fn home_of_flat_layout_is_parent() {
    let h = derive_python_home(&path(&["res", "python", "python.exe"])).unwrap();
    assert_eq!(h.parts, vec!["res".to_string(), "python".to_string()]);
    assert!(derive_python_home(&path(&[])).is_none());
    assert!(derive_python_home(&path(&["python3"])).unwrap().parts.is_empty());
}

#[test]
fn first_existing_picks_lowest_index() {
    assert_eq!(first_existing(&vec![false, true, true]), Some(1));
    assert_eq!(first_existing(&vec![false, false]), None);
    assert_eq!(first_existing(&vec![]), None);
}

#[test]
fn missing_runtime_in_release_build_fails_before_spawn() {
    let r = prepare_launch("convert", &payload(), path(&["res", "backend", "main.py"]), true, None, &vec![], false, None);
    assert!(matches!(r, Err(ConversionError::RuntimeMissing)));
    assert_eq!(
        ConversionError::RuntimeMissing.message(),
        "Embedded Python runtime missing. Place it under src-tauri/bin/python"
    );
}

#[test]
fn missing_entry_point_fails_first() {
    let r = resolve_python(path(&["backend", "main.py"]), false, Some(path(&["res", "bin"])), &vec![true], true);
    assert!(matches!(r, Err(ConversionError::EntryPointMissing)));
    assert_eq!(ConversionError::EntryPointMissing.message(), "Unable to locate backend/main.py");
}

#[test]
fn development_build_falls_back_to_system_python() {
    let r = resolve_python(path(&["backend", "main.py"]), true, None, &vec![], true).ok().unwrap();
    assert_eq!(r.command.parts, vec!["python3".to_string()]);
    assert!(!r.uses_embedded);
    assert!(r.python_home.is_none());
    assert!(r.bin_dir.is_none());
}

#[test]
fn bundled_runtime_is_preferred() {
    let found = vec![false, false, false, true, true];
    let r = resolve_python(path(&["m.py"]), true, Some(path(&["res", "bin"])), &found, true).ok().unwrap();
    assert!(r.uses_embedded);
    assert_eq!(r.command.parts, path(&["res", "bin", "python", "bin", "python3"]).parts);
    assert_eq!(r.python_home.unwrap().parts, vec!["res".to_string(), "bin".to_string(), "python".to_string()]);
    assert_eq!(r.bin_dir.unwrap().parts, vec!["res".to_string(), "bin".to_string()]);
}

#[test]
fn search_path_gets_bin_root_in_front() {
    let bin = path(&["res", "bin"]);
    let merged = search_path_with(&bin, Some(vec![path(&["usr", "bin"])])).unwrap();
    assert_eq!(merged.len(), 2);
    assert_eq!(merged[0].parts, bin.parts);
    assert!(search_path_with(&bin, Some(vec![path(&["usr"]), path(&["res", "bin"])])).is_none());
    let alone = search_path_with(&bin, None).unwrap();
    assert_eq!(alone.len(), 1);
}

#[test]
fn worker_env_lists_variables_in_order() {
    let r = resolve_python(path(&["m.py"]), true, Some(path(&["res", "bin"])), &vec![true], false).ok().unwrap();
    assert_eq!(r.command.parts, path(&["res", "bin", "python", "python.exe"]).parts);
    let env = worker_env(&r, Some(vec![path(&["usr", "bin"])]));
    let names: Vec<&str> = env.iter().map(|e| e.name.as_str()).collect();
    assert_eq!(names, vec!["SOUNDCONVERTER_BIN_DIR", "PATH", "PYTHONHOME", "PYTHONUNBUFFERED", "PYTHONDONTWRITEBYTECODE"]);
    match &env[2].value {
        EnvValue::Dir(p) => assert_eq!(p.parts, vec!["res".to_string(), "bin".to_string(), "python".to_string()]),
        _ => panic!("expected a path"),
    }
    match &env[3].value {
        EnvValue::Text(t) => assert_eq!(t, "1"),
        _ => panic!("expected text"),
    }
}

#[test]
fn worker_env_without_bin_root_sets_only_flags() {
    let r = resolve_python(path(&["m.py"]), true, None, &vec![true], true).ok().unwrap();
    assert!(!r.uses_embedded);
    let env = worker_env(&r, None);
    let names: Vec<&str> = env.iter().map(|e| e.name.as_str()).collect();
    assert_eq!(names, vec!["PYTHONUNBUFFERED", "PYTHONDONTWRITEBYTECODE"]);
}

#[test]
fn plan_carries_request_and_entry_point() {
    let found = vec![false, false, true];
    let plan = prepare_launch("convert", &payload(), path(&["res", "backend", "main.py"]), true, Some(path(&["res", "bin"])), &found, false, None)
        .ok()
        .unwrap();
    assert_eq!(plan.entry_point.parts.len(), 3);
    assert_eq!(plan.program.parts, path(&["res", "bin", "python", "python3"]).parts);
    assert!(plan.uses_embedded);
    assert_eq!(plan.request, r#"{"files":["a.wav"],"format":"mp3","operation":"convert","output":"/tmp/out"}"#);
    assert_eq!(plan.env.len(), 5);
}

#[test]
fn other_error_messages() {
    assert_eq!(ConversionError::SpawnFailed { reason: "denied".to_string() }.message(), "Failed to spawn Python process: denied");
    assert_eq!(ConversionError::StdinWrite { reason: "broken pipe".to_string() }.message(), "Failed to write to stdin: broken pipe");
}

#[test]
fn root_alone_has_no_home() {
    let root = FsPath::from_parts("/".to_string(), vec![]);
    assert!(derive_python_home(&root).is_none());
    assert!(root.parent().is_none());
    let top = FsPath::from_parts("/".to_string(), vec!["python3".to_string()]);
    let h = derive_python_home(&top).unwrap();
    assert_eq!(h.anchor, "/");
    assert!(h.parts.is_empty());
    let nested = FsPath::from_parts("/".to_string(), vec!["bin".to_string(), "python3".to_string()]);
    let h = derive_python_home(&nested).unwrap();
    assert_eq!(h.anchor, "/");
    assert!(h.parts.is_empty());
}

#[test]
fn missing_candidates_without_dev_build_is_runtime_missing() {
    let r = resolve_python(path(&["m.py"]), true, Some(path(&["res", "bin"])), &vec![false; 5], false);
    assert!(matches!(r, Err(ConversionError::RuntimeMissing)));
    let r = resolve_python(path(&["m.py"]), true, Some(path(&["res", "bin"])), &vec![false, false, false, false, false, true], false);
    assert!(matches!(r, Err(ConversionError::RuntimeMissing)));
}

#[test]
fn exit_codes_are_written_in_decimal() {
    let msg = |code: i32| ConversionError::WorkerExitFailure { code, last_line: String::new() }.message();
    assert_eq!(msg(0), "Python process failed with exit code 0");
    assert_eq!(msg(-1), "Python process failed with exit code -1");
    assert_eq!(msg(137), "Python process failed with exit code 137");
    assert_eq!(msg(i32::MIN), "Python process failed with exit code -2147483648");
    assert_eq!(msg(i32::MAX), "Python process failed with exit code 2147483647");
}
