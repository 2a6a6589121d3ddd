use neuropad::{
    encode_request, envelope_output, parse_language, read_reply_payload, split_lines,
    CellOutputKind, EnsurePlan, ExecuteParams, IpcEnvelope, IpcError, IpcRequest, KernelError,
    KernelLaunch, KernelManager, Language, NotebookRuntimes, RequestParams,
};
use serde_json::Value;

fn launch(exe: &str) -> KernelLaunch {
    KernelLaunch { executable: exe.to_string(), args: vec![] }
}

fn manager() -> KernelManager {
    KernelManager::new(launch("go-kernel"), launch("ruby"), launch("python"))
}

fn construct(m: &mut KernelManager, id: &str) -> NotebookRuntimes {
    match m.ensure_notebook(id) {
        Ok(EnsurePlan::Construct(c)) => {
            let rt = c.runtimes();
            assert!(m.register_notebook(c));
            rt
        }
        other => panic!("expected a construction, got {:?}", other),
    }
}

#[test]
fn languages_resolve_by_name() {
    assert_eq!(parse_language("go"), Ok(Language::Go));
    assert_eq!(parse_language("ruby"), Ok(Language::Ruby));
    assert_eq!(parse_language("python"), Ok(Language::Python));
    assert_eq!(
        parse_language("javascript"),
        Err(KernelError::UnsupportedLanguage("javascript".to_string()))
    );
    assert!(parse_language("Go").is_err());
}

#[test]
fn launch_specs_are_kept_per_language() {
    let m = manager();
    assert_eq!(m.launch_for(Language::Go).executable, "go-kernel");
    assert_eq!(m.launch_for(Language::Ruby).executable, "ruby");
    assert_eq!(m.launch_for(Language::Python).executable, "python");
}

#[test]
fn ensure_twice_constructs_once() {
    let mut m = manager();
    let rt = construct(&mut m, "nb1");
    assert_eq!(rt, NotebookRuntimes { go: 0, ruby: 1, python: 2 });
    match m.ensure_notebook("nb1") {
        Ok(EnsurePlan::Ready(again)) => assert_eq!(again, rt),
        other => panic!("expected the registered set, got {:?}", other),
    }
    match m.ensure_notebook("nb1") {
        Ok(EnsurePlan::Ready(again)) => assert_eq!(again, rt),
        other => panic!("expected the registered set, got {:?}", other),
    }
}

#[test]
fn shutdown_then_ensure_uses_fresh_keys() {
    let mut m = manager();
    let first = construct(&mut m, "nb1");
    assert_eq!(m.shutdown_notebook("nb1"), Some(first));
    assert!(!m.contains_notebook("nb1"));
    let second = construct(&mut m, "nb1");
    let old_keys = [first.go, first.ruby, first.python];
    for k in [second.go, second.ruby, second.python] {
        assert!(!old_keys.contains(&k));
    }
}

#[test]
fn shutdown_of_unknown_notebook_is_a_no_op() {
    let mut m = manager();
    let rt = construct(&mut m, "nb1");
    assert_eq!(m.shutdown_notebook("never-seen"), None);
    assert!(m.contains_notebook("nb1"));
    match m.ensure_notebook("nb1") {
        Ok(EnsurePlan::Ready(again)) => assert_eq!(again, rt),
        other => panic!("expected the registered set, got {:?}", other),
    }
}

#[test]
fn register_refuses_a_second_set() {
    let mut m = manager();
    let c1 = match m.ensure_notebook("nb1") {
        Ok(EnsurePlan::Construct(c)) => c,
        other => panic!("expected a construction, got {:?}", other),
    };
    let c2 = match m.ensure_notebook("nb1") {
        Ok(EnsurePlan::Construct(c)) => c,
        other => panic!("expected a construction, got {:?}", other),
    };
    assert!(m.register_notebook(c1));
    assert!(!m.register_notebook(c2));
}

#[test]
fn unsupported_language_spawns_nothing() {
    let mut m = manager();
    for r in [
        m.execute("nb1", "javascript", "1"),
        m.interrupt("nb1", "javascript"),
        m.restart("nb1", "javascript"),
    ] {
        match r {
            Err(KernelError::UnsupportedLanguage(name)) => assert_eq!(name, "javascript"),
            other => panic!("expected UnsupportedLanguage, got {:?}", other.map(|p| p.key)),
        }
    }
    assert!(!m.contains_notebook("nb1"));
    match m.ensure_notebook("nb1") {
        Ok(EnsurePlan::Construct(c)) => assert_eq!(c.first_key, 0),
        other => panic!("expected a construction, got {:?}", other),
    }
}

#[test]
fn failed_slot_tears_down_earlier_slots() {
    let mut m = manager();
    let _ = construct(&mut m, "other");
    let c = match m.ensure_notebook("nb1") {
        Ok(EnsurePlan::Construct(c)) => c,
        other => panic!("expected a construction, got {:?}", other),
    };
    assert_eq!(c.first_key, 3);
    assert_eq!(c.abandon(0), Vec::<u64>::new());
    assert_eq!(c.abandon(1), vec![3]);
    assert_eq!(c.abandon(2), vec![3, 4]);
    assert_eq!(c.slot(0), (Language::Go, 3));
    assert_eq!(c.slot(2), (Language::Python, 5));
    assert!(!m.contains_notebook("nb1"));
}

#[test]
fn execute_plans_construction_then_call() {
    let mut m = manager();
    let plan = m.execute("nb1", "ruby", "1+1").expect("plan");
    let c = plan.construct.clone().expect("construction");
    assert_eq!(c.notebook_id, "nb1");
    assert_eq!(plan.key, 1);
    assert_eq!(plan.request.method, "execute");
    assert!(!plan.request.id.is_empty());
    assert!(m.register_notebook(c));
    let again = m.interrupt("nb1", "python").expect("plan");
    assert!(again.construct.is_none());
    assert_eq!(again.key, 2);
    assert_eq!(again.request.method, "interrupt");
    let restart = m.restart("nb1", "go").expect("plan");
    assert_eq!(restart.key, 0);
    assert_eq!(restart.line, format!("{{\"id\":\"{}\",\"method\":\"restart\",\"params\":{{}}}}\n", restart.request.id));
}

#[test]
fn correlation_ids_differ_between_calls() {
    let mut m = manager();
    let a = m.execute("nb1", "go", "1").expect("plan");
    let b = m.execute("nb1", "go", "1").expect("plan");
    assert_ne!(a.request.id, b.request.id);
}

#[test]
fn request_encodes_as_one_line() {
    let req = IpcRequest {
        id: "abc".to_string(),
        method: "execute".to_string(),
        params: RequestParams::Execute(ExecuteParams { code: "1+1".to_string() }),
    };
    assert_eq!(
        encode_request(&req),
        "{\"id\":\"abc\",\"method\":\"execute\",\"params\":{\"code\":\"1+1\"}}\n"
    );
    let empty = IpcRequest {
        id: "x".to_string(),
        method: "interrupt".to_string(),
        params: RequestParams::Empty,
    };
    assert_eq!(encode_request(&empty), "{\"id\":\"x\",\"method\":\"interrupt\",\"params\":{}}\n");
}

#[test]
fn line_breaks_in_code_are_escaped() {
    let req = IpcRequest {
        id: "a\"b".to_string(),
        method: "execute".to_string(),
        params: RequestParams::Execute(ExecuteParams { code: "puts 1\nputs 2\r\n".to_string() }),
    };
    let line = encode_request(&req);
    assert_eq!(line.matches('\n').count(), 1);
    assert!(line.ends_with('\n'));
    let v: Value = serde_json::from_str(line.trim_end()).expect("json");
    assert_eq!(v["id"], Value::from("a\"b"));
    assert_eq!(v["params"]["code"], Value::from("puts 1\nputs 2\r\n"));
}

#[test]
fn empty_reply_is_empty_response() {
    assert_eq!(read_reply_payload(""), Err(KernelError::EmptyResponse));
    assert_eq!(read_reply_payload("  \n"), Err(KernelError::EmptyResponse));
    assert_eq!(read_reply_payload(" {\"id\":\"x\"}\r\n"), Ok("{\"id\":\"x\"}".to_string()));
}

#[test]
fn echo_kernel_round_trip() {
    let mut m = manager();
    let plan = m.execute("nb1", "go", "1+1").expect("plan");
    assert_eq!(plan.key, 0);
    // What an echoing kernel answers: {"id": req.id, "result": req.params}.
    let received: Value = serde_json::from_str(plan.line.trim_end()).expect("request json");
    let mut reply = serde_json::Map::new();
    reply.insert("id".to_string(), received["id"].clone());
    reply.insert("result".to_string(), received["params"].clone());
    let reply_line = format!("{}\n", Value::Object(reply));

    let payload = read_reply_payload(&reply_line).expect("payload");
    let envelope: Value = serde_json::from_str(&payload).expect("envelope");
    let mut expected = serde_json::Map::new();
    expected.insert("code".to_string(), Value::from("1+1"));
    assert_eq!(envelope["result"], Value::Object(expected));
    assert!(envelope.get("error").is_none());
    assert_eq!(envelope["id"], Value::from(plan.request.id.as_str()));
}

#[test]
fn calls_on_two_notebooks_stay_framed() {
    let mut m = manager();
    let a = m.execute("nb1", "go", "a := 1\nfmt.Println(a)").expect("plan");
    let b = m.execute("nb2", "go", "b := 2").expect("plan");
    assert_ne!(a.key, b.key);
    for p in [&a, &b] {
        assert_eq!(p.line.matches('\n').count(), 1);
        assert!(p.line.ends_with('\n'));
        let v: Value = serde_json::from_str(p.line.trim_end()).expect("json");
        assert_eq!(v["method"], Value::from("execute"));
    }
}

#[test]
fn split_lines_terminates_each_line() {
    assert_eq!(split_lines("a\nb"), vec!["a\n".to_string(), "b\n".to_string()]);
    assert_eq!(split_lines("x\r\ny\n"), vec!["x\n".to_string(), "y\n".to_string()]);
    assert_eq!(split_lines(""), Vec::<String>::new());
}

#[test]
fn reply_becomes_output_record() {
    let err = IpcEnvelope {
        id: Some("1".to_string()),
        event: None,
        result: None,
        error: Some(IpcError { code: "E1".to_string(), message: "boom".to_string(), details: None }),
    };
    assert_eq!(envelope_output(&err), Some((CellOutputKind::Error, "E1: boom".to_string())));
    let ok = IpcEnvelope { id: None, event: None, result: Some(Value::from(2)), error: None };
    assert_eq!(envelope_output(&ok), Some((CellOutputKind::Result, "2".to_string())));
    let none = IpcEnvelope { id: None, event: Some("log".to_string()), result: None, error: None };
    assert_eq!(envelope_output(&none), None);
}

#[test]
fn errors_describe_themselves() {
    assert_eq!(KernelError::EmptyResponse.describe(), "kernel returned empty response");
    assert_eq!(KernelError::DecodeFailure("bad".to_string()).describe(), "bad");
}
