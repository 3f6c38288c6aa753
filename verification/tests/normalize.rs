use result_processor::args::PreprocessedArgs;
use result_processor::completion::{ResultPayload, SerializedError};
use result_processor::job::{CanceledBy, JobId, JobKind, MiniPulledJob};
use result_processor::normalize::{
    extract_error_value, has_result, normalize_error, process_result, ExecutorError, LogSource,
    LOG_TAIL_CHARS,
};

fn job_with_step(step: Option<&str>) -> MiniPulledJob {
    MiniPulledJob {
        id: JobId(7),
        workspace_id: "ws".to_string(),
        tag: "python3".to_string(),
        kind: JobKind::Script,
        script_lang: Some("python3".to_string()),
        flow_step_id: step.map(|s| s.to_string()),
        parent_job: None,
        flow_innermost_root_job: None,
        runnable_path: Some("f/a/b".to_string()),
        is_flow: false,
        is_flow_step: step.is_some(),
    }
}

fn exit_status(program: &str, code: i32) -> ExecutorError {
    ExecutorError::ExitStatus { program: program.to_string(), code }
}

#[test]
fn exit_error_quotes_the_log_lines_without_colour_codes() {
    let e = extract_error_value("python", "\nboom\n\u{1b}[31mred\u{1b}[0m", 42, None);
    assert_eq!(e.message, "exit code for \"python\": 42, last log lines:\nboom\nred");
    assert_eq!(e.name, "ExecutionErr");
    assert_eq!(e.exit_code, Some(42));
    assert_eq!(e.step_id, None);
}

#[test]
fn exit_error_keeps_the_step_and_a_negative_code() {
    let e = extract_error_value("bash", "  \n", -1, Some("c".to_string()));
    assert_eq!(
        e,
        SerializedError {
            message: "exit code for \"bash\": -1, last log lines:\n".to_string(),
            name: "ExecutionErr".to_string(),
            step_id: Some("c".to_string()),
            exit_code: Some(-1),
        }
    );
}

#[test]
fn exit_status_with_tailed_logs() {
    let logs = "job started\n--- CODE EXECUTION ---\nboom\n\u{1b}[31mred\u{1b}[0m";
    let (jc, success) = process_result(
        job_with_step(Some("a")),
        Err(exit_status("python", 42)),
        None,
        12,
        None,
        None,
        "token",
        Some(vec!["x".to_string()]),
        PreprocessedArgs::from_entries(vec![("k".to_string(), "1".to_string())]),
        LogSource::Sql(Some(logs.to_string())),
        Some(5),
    );
    assert!(!success);
    assert!(!jc.success);
    match &jc.result {
        ResultPayload::Error(e) => {
            assert!(e
                .message
                .starts_with("exit code for \"python\": 42, last log lines:\nboom\nred"));
            assert_eq!(e.message, "exit code for \"python\": 42, last log lines:\nboom\nred");
            assert_eq!(e.exit_code, Some(42));
            assert_eq!(e.name, "ExecutionErr");
            assert_eq!(e.step_id, Some("a".to_string()));
        }
        other => panic!("unexpected result {:?}", other),
    }
    assert_eq!(jc.result_columns, None);
    assert_eq!(jc.preprocessed_args, None);
    assert_eq!(jc.mem_peak, 12);
    assert_eq!(jc.duration, Some(5));
    assert_eq!(jc.token, "token");
    assert_eq!(jc.job, job_with_step(Some("a")));
}

#[test]
fn exit_status_gives_way_to_the_result_file() {
    let result = normalize_error(
        exit_status("python", 1),
        None,
        Some("{\"error\":\"from file\"}".to_string()),
        LogSource::Sql(Some("ignored".to_string())),
    );
    assert_eq!(result, ResultPayload::Raw("{\"error\":\"from file\"}".to_string()));
}

#[test]
fn an_empty_result_file_counts_for_nothing() {
    assert!(!has_result(&None));
    assert!(!has_result(&Some(String::new())));
    assert!(has_result(&Some(" ".to_string())));
    let result = normalize_error(
        exit_status("deno", 3),
        None,
        Some(String::new()),
        LogSource::Sql(Some("no marker, all of it ".to_string())),
    );
    assert_eq!(
        result,
        ResultPayload::Error(SerializedError {
            message: "exit code for \"deno\": 3, last log lines:\nno marker, all of it"
                .to_string(),
            name: "ExecutionErr".to_string(),
            step_id: None,
            exit_code: Some(3),
        })
    );
}

#[test]
fn missing_logs_count_as_empty_logs() {
    let result = normalize_error(exit_status("go", 2), None, None, LogSource::Sql(None));
    assert_eq!(
        result,
        ResultPayload::Error(SerializedError {
            message: "exit code for \"go\": 2, last log lines:\n".to_string(),
            name: "ExecutionErr".to_string(),
            step_id: None,
            exit_code: Some(2),
        })
    );
}

#[test]
fn without_a_database_the_logs_are_pointed_to() {
    let result = normalize_error(exit_status("python", 42), None, None, LogSource::Http);
    assert_eq!(result, ResultPayload::Text("See logs for more details".to_string()));
}

#[test]
fn a_raw_error_stands_as_it_is() {
    let raw = "{\"name\":\"MyError\",\"message\":\"mine\"}";
    let result = normalize_error(
        ExecutorError::ExecutionRawError(raw.to_string()),
        Some("s".to_string()),
        Some("file".to_string()),
        LogSource::Http,
    );
    assert_eq!(result, ResultPayload::Raw(raw.to_string()));
}

#[test]
fn any_other_error_is_an_execution_error() {
    let result = normalize_error(
        ExecutorError::Other("Internal: boom: caused by x".to_string()),
        Some("s".to_string()),
        None,
        LogSource::Http,
    );
    assert_eq!(
        result,
        ResultPayload::Error(SerializedError {
            message: "execution error:\nInternal: boom: caused by x".to_string(),
            name: "ExecutionErr".to_string(),
            step_id: Some("s".to_string()),
            exit_code: None,
        })
    );
}

#[test]
fn every_normalized_error_is_named_execution_err() {
    let errors = [
        exit_status("python", 42),
        exit_status("bash", -3),
        ExecutorError::Other("x".to_string()),
        ExecutorError::Other(String::new()),
    ];
    let artifacts = [None, Some(String::new()), Some("{}".to_string())];
    let sources = [LogSource::Sql(None), LogSource::Sql(Some("l".to_string())), LogSource::Http];
    for err in &errors {
        for artifact in &artifacts {
            for logs in &sources {
                let result =
                    normalize_error(err.clone(), None, artifact.clone(), logs.clone());
                if let ResultPayload::Error(e) = result {
                    assert_eq!(e.name, "ExecutionErr");
                }
            }
        }
    }
}

#[test]
fn what_an_error_needs_to_be_normalized() {
    let exit = exit_status("python", 1);
    let raw = ExecutorError::ExecutionRawError("{}".to_string());
    let other = ExecutorError::Other("x".to_string());
    assert!(exit.needs_artifact());
    assert!(!raw.needs_artifact());
    assert!(!other.needs_artifact());
    assert!(exit.needs_logs(&None));
    assert!(exit.needs_logs(&Some(String::new())));
    assert!(!exit.needs_logs(&Some("{}".to_string())));
    assert!(!raw.needs_logs(&None));
    assert!(!other.needs_logs(&None));
}

#[test]
fn a_successful_result_is_passed_on() {
    let canceled = Some(CanceledBy { username: Some("u".to_string()), reason: None });
    let (jc, success) = process_result(
        job_with_step(None),
        Ok("{\"a\":1}".to_string()),
        Some("not looked at".to_string()),
        -1,
        canceled.clone(),
        Some("ws/A/123".to_string()),
        "t0",
        Some(vec!["a".to_string()]),
        PreprocessedArgs::from_entries(vec![("k".to_string(), "\"v\"".to_string())]),
        LogSource::Http,
        None,
    );
    assert!(success);
    assert!(jc.success);
    assert_eq!(jc.result, ResultPayload::Raw("{\"a\":1}".to_string()));
    assert_eq!(jc.result_columns, Some(vec!["a".to_string()]));
    assert_eq!(
        jc.preprocessed_args.as_ref().map(|args| args.entries().clone()),
        Some(vec![("k".to_string(), "\"v\"".to_string())])
    );
    assert_eq!(jc.canceled_by, canceled);
    assert_eq!(jc.cached_res_path, Some("ws/A/123".to_string()));
    assert_eq!(jc.mem_peak, -1);
    assert_eq!(jc.duration, None);
    assert_eq!(jc.token, "t0");
}

#[test]
fn only_the_end_of_the_logs_is_quoted() {
    assert_eq!(LOG_TAIL_CHARS, 600);
    let logs = format!("--- CODE EXECUTION ---\n{}", "x".repeat(600));
    let result = normalize_error(exit_status("python", 1), None, None, LogSource::Sql(Some(logs)));
    let expected = format!("exit code for \"python\": 1, last log lines:\n{}", "x".repeat(600));
    match result {
        ResultPayload::Error(e) => assert_eq!(e.message, expected),
        other => panic!("unexpected result {:?}", other),
    }
    let logs = format!("old\nCODE EXECUTION ---\n{}\nlast", "y".repeat(580));
    let result = normalize_error(exit_status("python", 1), None, None, LogSource::Sql(Some(logs)));
    let expected = format!(
        "exit code for \"python\": 1, last log lines:\nEXECUTION ---\n{}\nlast",
        "y".repeat(580)
    );
    match result {
        ResultPayload::Error(e) => assert_eq!(e.message, expected),
        other => panic!("unexpected result {:?}", other),
    }
}
