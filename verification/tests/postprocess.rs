use result_processor::args::PreprocessedArgs;
use result_processor::completion::{
    ErrorSummary, JobCompletion, ResultPayload, SerializedError,
};
use result_processor::dispatch::{
    discard_failure_message, discarded_args_notice, error_value, internal_error,
    non_serializable_message, process_completed_job, Action, ErrorValue, FlowResult, JobRow,
    LogLine, Outcome, ProcessStage, Progress, StorageError, StoredArgs,
};
use result_processor::handling::{
    handle_job_error, handle_non_flow_job_error, ErrorHandling, ErrorStage, Handling,
};
use result_processor::job::{JobId, JobKind, MiniPulledJob};
use result_processor::postprocess::{handle_receive_completed_job, Stage};

/// What the caller's side did, call by call, and which calls it lets fail.
struct World {
    calls: Vec<String>,
    failing: Vec<&'static str>,
    args: String,
    preprocessed: bool,
    root: Option<MiniPulledJob>,
    queued: Option<MiniPulledJob>,
}

fn world() -> World {
    World {
        calls: Vec::new(),
        failing: Vec::new(),
        args: "{\"x\":1}".to_string(),
        preprocessed: false,
        root: None,
        queued: None,
    }
}

fn storage_error(what: &str) -> StorageError {
    StorageError {
        message: format!("Internal: {what}"),
        value: format!("{{\"message\":\"Internal: {what}\",\"name\":\"InternalErr\"}}"),
        detail: format!("Object {{\n    \"message\": String(\"Internal: {what}\"),\n}}"),
    }
}

/// The result as it is stored.
fn stored(result: &ResultPayload) -> String {
    match result {
        ResultPayload::Raw(raw) => raw.clone(),
        ResultPayload::Error(e) => {
            format!("{{\"message\":{:?},\"name\":{:?}}}", e.message, e.name)
        }
        ResultPayload::Text(t) => format!("{:?}", t),
    }
}

/// What the raw text of a result reads as: its message and its name, if it is
/// an object that holds the two as strings.
fn read_summary(result: &ResultPayload) -> Option<ErrorSummary> {
    let raw = match result {
        ResultPayload::Raw(raw) => raw,
        _ => return None,
    };
    let value: serde_json::Value = serde_json::from_str(raw).ok()?;
    let object = value.as_object()?;
    Some(ErrorSummary {
        message: object.get("message")?.as_str()?.to_string(),
        name: object.get("name")?.as_str()?.to_string(),
    })
}

fn describe(value: &ErrorValue) -> String {
    match value {
        ErrorValue::Body(result) => stored(result),
        ErrorValue::NonSerializable(result) => {
            format!("{{\"message\":{:?}}}", non_serializable_message(&stored(result)))
        }
        ErrorValue::Storage(err) => err.value.clone(),
        ErrorValue::Internal(err) => {
            let e = internal_error(err);
            format!("{}: {}", e.name, e.message)
        }
    }
}

fn perform(w: &mut World, action: &Action) -> Outcome {
    let (name, call, back) = match action {
        Action::SaveInCache { job, path, .. } => {
            ("save_in_cache", format!("save_in_cache {} {}", job.id.0, path), None)
        }
        Action::DiscardPreprocessorArgs { job } => {
            ("update_args", format!("discard_args {}", job.0), None)
        }
        Action::ReplaceArgs { job, args } => {
            ("update_args", format!("replace_args {} {:?}", job.0, args.entries()), None)
        }
        Action::AddCompletedJob { job, mem_peak, duration, .. } => (
            "add_completed_job",
            format!("add_completed_job {} success=true mem={} dur={:?}", job.id.0, mem_peak, duration),
            None,
        ),
        Action::AddCompletedJobError { job, log, error, .. } => {
            if let Some(line) = log {
                w.calls.push(format!("append_logs {} {}", job.id.0, line.render()));
            }
            (
                "add_completed_job_error",
                format!("add_completed_job_error {} {}", job.id.0, describe(error)),
                None,
            )
        }
        Action::UpdateFlow { flow, step, success, result, unrecoverable, .. } => {
            let with = match result {
                FlowResult::Result(_) => "result".to_string(),
                FlowResult::Wrapped(value) => format!("{{\"error\":{}}}", describe(value)),
            };
            (
                "update_flow",
                format!(
                    "update_flow {} step={} success={} unrecoverable={} {}",
                    flow.0, step.0, success, unrecoverable, with
                ),
                w.root.clone(),
            )
        }
        Action::GetQueuedJob { id, .. } => {
            ("get_queued_job", format!("get_queued_job {}", id.0), w.queued.clone())
        }
    };
    w.calls.push(call);
    if let Some(at) = w.failing.iter().position(|f| *f == name) {
        w.failing.remove(at);
        return Outcome::Failed(storage_error(name));
    }
    let row = JobRow { args: StoredArgs::Given, preprocessed: w.preprocessed };
    let after = action.args_after(row);
    match after.args {
        StoredArgs::Given => {}
        StoredArgs::Discarded => w.args = discarded_args_notice().to_string(),
        StoredArgs::Preprocessed(args) => w.args = format!("{:?}", args.entries()),
    }
    w.preprocessed = after.preprocessed;
    Outcome::Done(back)
}

fn deliver(jc: &JobCompletion, w: &mut World) -> Stage {
    let parsed = read_summary(&jc.result);
    let mut stage = Stage::start(jc);
    let mut steps = 0;
    loop {
        let outcome = match stage.action(jc, &parsed) {
            Some(action) => perform(w, &action),
            None => break,
        };
        stage = handle_receive_completed_job(jc, stage, outcome);
        steps += 1;
        assert!(steps <= 8);
    }
    assert!(stage.is_finished());
    stage
}

fn job(id: u128) -> MiniPulledJob {
    MiniPulledJob {
        id: JobId(id),
        workspace_id: "ws".to_string(),
        tag: "python3".to_string(),
        kind: JobKind::Script,
        script_lang: None,
        flow_step_id: None,
        parent_job: None,
        flow_innermost_root_job: None,
        runnable_path: None,
        is_flow: false,
        is_flow_step: false,
    }
}

fn step_of(parent: u128, id: u128, step: &str) -> MiniPulledJob {
    MiniPulledJob {
        flow_step_id: Some(step.to_string()),
        parent_job: Some(JobId(parent)),
        flow_innermost_root_job: Some(JobId(parent)),
        is_flow_step: true,
        ..job(id)
    }
}

fn completion(job: MiniPulledJob, success: bool, result: &str) -> JobCompletion {
    JobCompletion {
        job,
        result: ResultPayload::Raw(result.to_string()),
        result_columns: None,
        preprocessed_args: None,
        mem_peak: 3,
        canceled_by: None,
        success,
        cached_res_path: None,
        token: "t".to_string(),
        duration: Some(9),
    }
}

fn rows_for(w: &World, id: u128) -> usize {
    let ok = format!("add_completed_job {} ", id);
    let failed = format!("add_completed_job_error {} ", id);
    w.calls.iter().filter(|c| c.starts_with(&ok) || c.starts_with(&failed)).count()
}

#[test]
fn happy_path_non_flow() {
    let jc = completion(job(1), true, "{\"a\":1}");
    let mut w = world();
    let end = deliver(&jc, &mut w);
    assert_eq!(w.calls, vec!["add_completed_job 1 success=true mem=3 dur=Some(9)"]);
    assert_eq!(end, Stage::Finished(None));
    assert_eq!(end.root_job(), None);
    assert!(!w.preprocessed);
}

#[test]
fn cached_result() {
    let mut jc = completion(job(1), true, "{\"a\":1}");
    jc.cached_res_path = Some("ws/A/123".to_string());
    let mut w = world();
    deliver(&jc, &mut w);
    assert_eq!(
        w.calls,
        vec!["save_in_cache 1 ws/A/123", "add_completed_job 1 success=true mem=3 dur=Some(9)"]
    );
    let cache = w.calls.iter().position(|c| c.starts_with("save_in_cache")).unwrap();
    let ledger = w.calls.iter().position(|c| c.starts_with("add_completed_job")).unwrap();
    assert!(cache < ledger);
}

#[test]
fn a_failed_job_is_not_cached() {
    let mut jc = completion(job(1), false, "{\"message\":\"m\",\"name\":\"n\"}");
    jc.cached_res_path = Some("ws/A/123".to_string());
    let mut w = world();
    deliver(&jc, &mut w);
    assert_eq!(
        w.calls,
        vec!["add_completed_job_error 1 {\"message\":\"m\",\"name\":\"n\"}"]
    );
}

#[test]
fn preprocessor_step() {
    let jc = completion(step_of(10, 11, "preprocessor"), true, "{}");
    let mut w = world();
    w.root = Some(job(10));
    let end = deliver(&jc, &mut w);
    assert_eq!(
        w.calls,
        vec![
            "discard_args 11",
            "add_completed_job 11 success=true mem=3 dur=Some(9)",
            "update_flow 10 step=11 success=true unrecoverable=false result",
        ]
    );
    assert_eq!(w.args, "{\"reason\":\"PREPROCESSOR_ARGS_ARE_DISCARDED\"}");
    assert!(w.preprocessed);
    assert_eq!(end.root_job(), Some(&job(10)));
}

#[test]
fn preprocessed_args_replace_the_arguments() {
    let mut jc = completion(job(1), true, "{}");
    jc.preprocessed_args = PreprocessedArgs::from_entries(vec![("a".to_string(), "1".to_string())]);
    let mut w = world();
    deliver(&jc, &mut w);
    assert_eq!(
        w.calls,
        vec![
            "replace_args 1 [(\"a\", \"1\")]",
            "add_completed_job 1 success=true mem=3 dur=Some(9)"
        ]
    );
    assert_eq!(w.args, "[(\"a\", \"1\")]");
    assert!(w.preprocessed);
}

#[test]
fn a_preprocessor_step_discards_even_preprocessed_args() {
    let mut jc = completion(step_of(10, 11, "preprocessor"), true, "{}");
    jc.preprocessed_args = PreprocessedArgs::from_entries(vec![("a".to_string(), "1".to_string())]);
    assert_eq!(
        jc.action(ProcessStage::UpdateArgs, &None),
        Some(Action::DiscardPreprocessorArgs { job: JobId(11) })
    );
}

#[test]
fn preprocessed_never_goes_back_under_repeated_delivery() {
    let discard = completion(step_of(10, 11, "preprocessor"), true, "{}");
    let mut replace = completion(job(11), true, "{}");
    replace.preprocessed_args = PreprocessedArgs::from_entries(vec![("a".to_string(), "1".to_string())]);
    let plain = completion(job(11), true, "{}");
    let failed = completion(job(11), false, "{\"message\":\"m\",\"name\":\"n\"}");
    let mut w = world();
    deliver(&discard, &mut w);
    assert!(w.preprocessed);
    let after_first = w.args.clone();
    deliver(&discard, &mut w);
    assert!(w.preprocessed);
    assert_eq!(w.args, after_first);
    for jc in [&plain, &failed, &replace, &discard, &plain] {
        deliver(jc, &mut w);
        assert!(w.preprocessed);
    }
    assert_eq!(w.args, "[(\"a\", \"1\")]");
    let marked = JobRow { args: StoredArgs::Given, preprocessed: true };
    let a = Action::DiscardPreprocessorArgs { job: JobId(1) };
    assert_eq!(a.args_after(marked), marked);
    let unmarked = JobRow { args: StoredArgs::Given, preprocessed: false };
    assert_eq!(
        a.args_after(unmarked),
        JobRow { args: StoredArgs::Discarded, preprocessed: true }
    );
}

#[test]
fn a_failed_step_tells_its_flow_with_the_wrapped_error() {
    let jc = completion(step_of(10, 11, "a"), false, "{\"message\":\"m\",\"name\":\"n\"}");
    let mut w = world();
    deliver(&jc, &mut w);
    assert_eq!(
        w.calls,
        vec![
            "add_completed_job_error 11 {\"message\":\"m\",\"name\":\"n\"}",
            "update_flow 10 step=11 success=false unrecoverable=false {\"error\":{\"message\":\"m\",\"name\":\"n\"}}",
        ]
    );
}

#[test]
fn a_result_that_is_not_json_is_wrapped() {
    let jc = completion(job(1), false, "not json at all");
    let mut w = world();
    deliver(&jc, &mut w);
    assert_eq!(
        w.calls,
        vec!["add_completed_job_error 1 {\"message\":\"Non serializable error: not json at all\"}"]
    );
    assert_eq!(non_serializable_message("x"), "Non serializable error: x");
}

#[test]
fn the_error_value_is_the_result_only_if_it_holds_a_message_and_a_name() {
    let summary = Some(ErrorSummary { message: "m".to_string(), name: "n".to_string() });
    let raw = ResultPayload::Raw("{\"message\":\"m\",\"name\":\"n\",\"x\":1}".to_string());
    assert_eq!(error_value(&raw, &summary), ErrorValue::Body(&raw));
    assert_eq!(error_value(&raw, &None), ErrorValue::NonSerializable(&raw));
    let error = ResultPayload::Error(SerializedError {
        message: "m".to_string(),
        name: "ExecutionErr".to_string(),
        step_id: None,
        exit_code: None,
    });
    assert_eq!(error_value(&error, &None), ErrorValue::Body(&error));
    assert_eq!(error_value(&error, &summary), ErrorValue::Body(&error));
    let plain = ResultPayload::Text("See logs for more details".to_string());
    assert_eq!(error_value(&plain, &None), ErrorValue::NonSerializable(&plain));
    assert_eq!(error_value(&plain, &summary), ErrorValue::NonSerializable(&plain));
}

#[test]
fn json_that_is_no_error_object_is_wrapped() {
    let cases = [
        ("[1]", "{\"message\":\"Non serializable error: [1]\"}"),
        ("{}", "{\"message\":\"Non serializable error: {}\"}"),
        ("{\"message\":\"m\"}", "{\"message\":\"Non serializable error: {\\\"message\\\":\\\"m\\\"}\"}"),
        ("{\"message\":1,\"name\":\"n\"}", "{\"message\":\"Non serializable error: {\\\"message\\\":1,\\\"name\\\":\\\"n\\\"}\"}"),
        ("\"text\"", "{\"message\":\"Non serializable error: \\\"text\\\"\"}"),
        ("", "{\"message\":\"Non serializable error: \"}"),
    ];
    for (raw, expected) in cases {
        let jc = completion(job(1), false, raw);
        let mut w = world();
        let end = deliver(&jc, &mut w);
        assert_eq!(w.calls, vec![format!("add_completed_job_error 1 {}", expected)]);
        assert_eq!(end, Stage::Finished(None));
    }
}

#[test]
fn a_plain_text_is_wrapped_as_it_is_stored() {
    let mut jc = completion(job(1), false, "");
    jc.result = ResultPayload::Text("See logs for more details".to_string());
    let mut w = world();
    deliver(&jc, &mut w);
    assert_eq!(
        w.calls,
        vec![
            "add_completed_job_error 1 {\"message\":\"Non serializable error: \\\"See logs for more details\\\"\"}"
        ]
    );
}

#[test]
fn a_wrapped_result_goes_to_the_flow_wrapped() {
    let jc = completion(step_of(10, 11, "a"), false, "[1]");
    let mut w = world();
    deliver(&jc, &mut w);
    assert_eq!(
        w.calls,
        vec![
            "add_completed_job_error 11 {\"message\":\"Non serializable error: [1]\"}",
            "update_flow 10 step=11 success=false unrecoverable=false {\"error\":{\"message\":\"Non serializable error: [1]\"}}",
        ]
    );
}

#[test]
fn a_failed_discard_is_worded() {
    assert_eq!(
        discard_failure_message("pool timed out"),
        "error while deleting args of preprocessing step: pool timed out"
    );
    assert_eq!(discard_failure_message(""), "error while deleting args of preprocessing step: ");
}

#[test]
fn a_step_without_a_parent_is_only_recorded() {
    let mut j = step_of(10, 11, "a");
    j.parent_job = None;
    let jc = completion(j, true, "{}");
    let mut w = world();
    deliver(&jc, &mut w);
    assert_eq!(w.calls, vec!["add_completed_job 11 success=true mem=3 dur=Some(9)"]);
}

#[test]
fn exactly_one_row_where_nothing_fails() {
    let mut cached = completion(step_of(10, 11, "preprocessor"), true, "{}");
    cached.cached_res_path = Some("p".to_string());
    let cases = [
        completion(job(11), true, "{}"),
        completion(job(11), false, "{}"),
        completion(job(11), false, "broken"),
        completion(step_of(10, 11, "a"), true, "{}"),
        completion(step_of(10, 11, "a"), false, "{}"),
        cached,
    ];
    for jc in &cases {
        let mut w = world();
        deliver(jc, &mut w);
        assert_eq!(rows_for(&w, 11), 1, "{:?}", w.calls);
    }
}

#[test]
fn a_failed_write_is_made_up_for_by_the_handler() {
    let jc = completion(job(1), true, "{}");
    let mut w = world();
    w.failing = vec!["add_completed_job"];
    let end = deliver(&jc, &mut w);
    assert_eq!(
        w.calls,
        vec![
            "add_completed_job 1 success=true mem=3 dur=Some(9)",
            "append_logs 1 Unexpected error during job execution:\nObject {\n    \"message\": String(\"Internal: add_completed_job\"),\n}",
            "add_completed_job_error 1 {\"message\":\"Internal: add_completed_job\",\"name\":\"InternalErr\"}",
        ]
    );
    assert_eq!(end, Stage::Finished(None));
}

#[test]
fn a_failed_cache_write_stops_the_processing() {
    let mut jc = completion(job(1), true, "{}");
    jc.cached_res_path = Some("p".to_string());
    let mut w = world();
    w.failing = vec!["save_in_cache"];
    deliver(&jc, &mut w);
    assert_eq!(w.calls.len(), 3);
    assert_eq!(w.calls[0], "save_in_cache 1 p");
    assert!(w.calls[1].starts_with("append_logs 1 "));
    assert!(w.calls[2].starts_with("add_completed_job_error 1 "));
}

#[test]
fn a_failed_flow_update_leaves_two_rows() {
    let jc = completion(step_of(10, 11, "a"), true, "{}");
    let mut w = world();
    w.failing = vec!["update_flow"];
    let end = deliver(&jc, &mut w);
    assert_eq!(rows_for(&w, 11), 2);
    assert_eq!(w.calls.len(), 5);
    assert_eq!(w.calls[0], "add_completed_job 11 success=true mem=3 dur=Some(9)");
    assert_eq!(w.calls[1], "update_flow 10 step=11 success=true unrecoverable=false result");
    assert!(w.calls[2].starts_with("append_logs 11 Unexpected error during job execution:\n"));
    assert!(w.calls[3].starts_with("add_completed_job_error 11 "));
    assert_eq!(
        w.calls[4],
        "update_flow 10 step=11 success=false unrecoverable=false {\"error\":{\"message\":\"Internal: update_flow\",\"name\":\"InternalErr\"}}"
    );
    assert_eq!(end, Stage::Finished(None));
}

#[test]
fn a_flow_that_cannot_be_told_has_its_parent_ended() {
    let jc = completion(step_of(10, 11, "a"), false, "{\"message\":\"m\",\"name\":\"n\"}");
    let mut w = world();
    w.failing = vec!["add_completed_job_error", "update_flow"];
    w.queued = Some(job(10));
    deliver(&jc, &mut w);
    assert_eq!(
        w.calls,
        vec![
            "add_completed_job_error 11 {\"message\":\"m\",\"name\":\"n\"}".to_string(),
            format!(
                "append_logs 11 Unexpected error during job execution:\n{}",
                storage_error("add_completed_job_error").detail
            ),
            format!(
                "add_completed_job_error 11 {}",
                storage_error("add_completed_job_error").value
            ),
            format!(
                "update_flow 10 step=11 success=false unrecoverable=false {{\"error\":{}}}",
                storage_error("add_completed_job_error").value
            ),
            "get_queued_job 10".to_string(),
            "append_logs 10 Unexpected error during flow job error handling:\nInternal: update_flow"
                .to_string(),
            "add_completed_job_error 10 InternalErr: Internal: update_flow".to_string(),
        ]
    );
}

#[test]
fn a_parent_that_is_not_queued_is_left_alone() {
    let jc = completion(step_of(10, 11, "a"), true, "{}");
    let mut w = world();
    w.failing = vec!["add_completed_job", "update_flow"];
    w.queued = None;
    deliver(&jc, &mut w);
    assert_eq!(w.calls.last().unwrap(), "get_queued_job 10");
    assert_eq!(rows_for(&w, 10), 0);
}

#[test]
fn a_flow_without_a_parent_is_told_on_its_own_behalf() {
    let mut flow = job(20);
    flow.kind = JobKind::Flow;
    flow.is_flow = true;
    let jc = completion(flow, true, "{}");
    let mut w = world();
    w.failing = vec!["add_completed_job", "update_flow"];
    deliver(&jc, &mut w);
    assert_eq!(
        w.calls,
        vec![
            "add_completed_job 20 success=true mem=3 dur=Some(9)".to_string(),
            format!(
                "update_flow 20 step=0 success=false unrecoverable=false {{\"error\":{}}}",
                storage_error("add_completed_job").value
            ),
        ]
    );
    assert!(w.calls.iter().all(|c| !c.starts_with("add_completed_job_error")));
}

#[test]
fn processing_goes_stage_by_stage() {
    let mut jc = completion(step_of(10, 11, "preprocessor"), true, "{}");
    jc.cached_res_path = Some("p".to_string());
    assert_eq!(jc.first_stage(), ProcessStage::SaveCache);
    let done = || Outcome::Done(None);
    assert_eq!(
        process_completed_job(&jc, ProcessStage::SaveCache, done()),
        Ok(Progress::Next(ProcessStage::UpdateArgs))
    );
    assert_eq!(
        process_completed_job(&jc, ProcessStage::UpdateArgs, done()),
        Ok(Progress::Next(ProcessStage::Record))
    );
    assert_eq!(
        process_completed_job(&jc, ProcessStage::Record, done()),
        Ok(Progress::Next(ProcessStage::AdvanceFlow))
    );
    assert_eq!(
        process_completed_job(&jc, ProcessStage::AdvanceFlow, Outcome::Done(Some(job(10)))),
        Ok(Progress::Done(Some(job(10))))
    );
    assert_eq!(
        process_completed_job(&jc, ProcessStage::Record, Outcome::Failed(storage_error("x"))),
        Err(storage_error("x"))
    );
    let plain = completion(job(1), true, "{}");
    assert_eq!(plain.first_stage(), ProcessStage::Record);
    assert_eq!(
        process_completed_job(&plain, ProcessStage::Record, done()),
        Ok(Progress::Done(None))
    );
    assert_eq!(plain.action(ProcessStage::SaveCache, &None), None);
    assert_eq!(plain.action(ProcessStage::UpdateArgs, &None), None);
    assert_eq!(plain.action(ProcessStage::AdvanceFlow, &None), None);
    assert_eq!(completion(job(1), false, "{}").first_stage(), ProcessStage::Record);
}

#[test]
fn the_handling_of_an_error_can_be_told_that_nothing_helps() {
    let j = step_of(10, 11, "a");
    let start = ErrorHandling::start(&j, storage_error("x"), true);
    assert_eq!(start.stage, ErrorStage::RecordError);
    let next = match handle_job_error(&j, start, Outcome::Failed(storage_error("ignored"))) {
        Handling::Next(next) => next,
        Handling::Done => panic!("the flow has to be told"),
    };
    assert_eq!(next.stage, ErrorStage::FailFlow);
    match next.action(&j, 1, &None) {
        Some(Action::UpdateFlow {
            flow,
            step,
            success,
            unrecoverable,
            result,
            stop_early_override,
            ..
        }) => {
            assert_eq!((flow, step, success, unrecoverable), (JobId(10), JobId(11), false, true));
            assert_eq!(stop_early_override, None);
            assert_eq!(
                result,
                FlowResult::Wrapped(ErrorValue::Storage(&storage_error("x")))
            );
        }
        other => panic!("unexpected {:?}", other),
    }
    assert_eq!(handle_job_error(&j, next, Outcome::Done(None)), Handling::Done);
    let alone = job(1);
    let start = ErrorHandling::start(&alone, storage_error("x"), false);
    assert_eq!(start.stage, ErrorStage::RecordError);
    assert_eq!(handle_job_error(&alone, start, Outcome::Done(None)), Handling::Done);
}

#[test]
fn log_lines_and_internal_errors_are_written_out() {
    let err = storage_error("boom");
    assert_eq!(
        LogLine::JobError(&err).render(),
        format!("Unexpected error during job execution:\n{}", err.detail)
    );
    assert_eq!(
        LogLine::FlowError(&err).render(),
        "Unexpected error during flow job error handling:\nInternal: boom"
    );
    assert_eq!(
        internal_error(&err),
        SerializedError {
            message: "Internal: boom".to_string(),
            name: "InternalErr".to_string(),
            step_id: None,
            exit_code: None,
        }
    );
}

#[test]
fn a_job_outside_a_flow_is_logged_and_recorded() {
    let j = job(1);
    let err = storage_error("x");
    let canceled = None;
    assert_eq!(
        handle_non_flow_job_error(&j, 4, &canceled, &err),
        Action::AddCompletedJobError {
            job: &j,
            log: Some(LogLine::JobError(&err)),
            mem_peak: 4,
            canceled_by: &canceled,
            error: ErrorValue::Storage(&err),
        }
    );
}
