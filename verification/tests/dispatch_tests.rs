use rustbricks::config::Config;
use rustbricks::dispatch::{
    classify_error_body, classify_transport_failure, dispatch_cluster_info,
    dispatch_job_run_response, dispatch_result_chunk, dispatch_statement_response,
};
use rustbricks::errors::HttpError;
use rustbricks::jsontext::render_json;
use rustbricks::session::{
    prepare_execute_job_run, prepare_execute_sql_statement, prepare_get_cluster_info,
    prepare_get_sql_statement_result_chunk, prepare_get_sql_statement_status, HttpMethod,
};
use rustbricks::sql_statement::{is_terminal_state, SqlStatementRequest};
use rustbricks::job_run_info::JobRunRequest;

fn sample_request() -> SqlStatementRequest {
    SqlStatementRequest {
        statement: "SELECT * FROM range(10)".to_string(),
        warehouse_id: "abcdefg123456789".to_string(),
        catalog: None,
        schema: None,
        parameters: None,
        row_limit: None,
        byte_limit: None,
        disposition: "INLINE".to_string(),
        format: "JSON_ARRAY".to_string(),
        wait_timeout: Some("10s".to_string()),
        on_wait_timeout: Some("CONTINUE".to_string()),
    }
}

#[test]
fn status_200_with_unparsable_body_is_internal_server_error() {
    let r = dispatch_statement_response(200, "this is not json");
    assert!(matches!(r, Err(HttpError::InternalServerError(_))));
}

#[test]
fn status_200_with_wrong_shape_is_internal_server_error() {
    let r = dispatch_statement_response(200, "[1,2,3]");
    assert!(matches!(r, Err(HttpError::InternalServerError(_))));
    let r = dispatch_statement_response(200, "{\"statement_id\":7}");
    assert!(matches!(r, Err(HttpError::InternalServerError(_))));
}

#[test]
fn status_200_with_empty_object_reads_as_all_absent() {
    let v = dispatch_statement_response(200, "{}").unwrap();
    assert!(v.statement_id.is_none());
    assert!(v.status.is_none());
    assert!(v.manifest.is_none());
    assert!(v.result.is_none());
    assert!(v.external_links.is_none());
    assert!(v.error.is_none());
}

#[test]
fn status_403_with_permission_denied_body_classifies() {
    let r = dispatch_statement_response(
        403,
        "{\"error_code\":\"PERMISSION_DENIED\",\"message\":\"no access\"}",
    );
    assert!(matches!(r, Err(HttpError::PermissionDenied(m)) if m == "no access"));
}

#[test]
fn status_500_with_non_json_body_embeds_the_status_code() {
    let r = dispatch_statement_response(500, "<html>oops</html>");
    match r {
        Err(HttpError::InternalServerError(m)) => {
            assert!(m.contains("500"));
            assert_eq!(m, "Unknown error with status code: 500");
        },
        other => panic!("expected InternalServerError, got {:?}", other.is_ok()),
    }
}

#[test]
fn error_body_missing_message_falls_back_to_unknown() {
    let e = classify_error_body(429, "{\"error_code\":\"REQUEST_LIMIT_EXCEEDED\"}");
    assert!(matches!(e, HttpError::InternalServerError(m) if m.contains("429")));
}

#[test]
fn error_body_with_known_code_keeps_its_message() {
    let e = classify_error_body(404, "{\"error_code\":\"NOT_FOUND\",\"message\":\"gone\"}");
    assert!(matches!(e, HttpError::NotFound(m) if m == "gone"));
}

#[test]
fn transport_timeout_is_temporarily_unavailable() {
    let e = classify_transport_failure(true, "deadline exceeded".to_string());
    assert!(matches!(e, HttpError::TemporarilyUnavailable(m) if m == "deadline exceeded"));
}

#[test]
fn transport_other_failure_is_internal_server_error() {
    let e = classify_transport_failure(false, "connection refused".to_string());
    assert!(matches!(e, HttpError::InternalServerError(m) if m == "connection refused"));
}

#[test]
fn result_chunk_outcome_reads_rows() {
    let rd = dispatch_result_chunk(200, "{\"data_array\":[[\"9\"]]}").unwrap();
    assert_eq!(rd.data_array.unwrap()[0][0].as_deref(), Some("9"));
    let r = dispatch_result_chunk(200, "not json");
    assert!(matches!(r, Err(HttpError::InternalServerError(_))));
    let r = dispatch_result_chunk(503, "{\"error_code\":\"TEMPORARILY_UNAVAILABLE\",\"message\":\"busy\"}");
    assert!(matches!(r, Err(HttpError::TemporarilyUnavailable(m)) if m == "busy"));
}

#[test]
fn job_run_outcome_reads_the_run() {
    let v = dispatch_job_run_response(200, "{\"run_id\":5}").unwrap();
    assert_eq!(v.run_id, 5);
    let r = dispatch_job_run_response(400, "{\"error_code\":\"BAD_REQUEST\",\"message\":\"no such job\"}");
    assert!(matches!(r, Err(HttpError::BadRequest(m)) if m == "no such job"));
}

#[test]
fn cluster_outcome_with_wrong_shape_is_internal_server_error() {
    let r = dispatch_cluster_info(200, "{\"cluster_id\":\"c-1\"}");
    assert!(matches!(r, Err(HttpError::InternalServerError(_))));
}

#[test]
fn statement_lifecycle_scenario_inline_json_array() {
    // Submission acknowledged while the statement is still pending.
    let submitted = dispatch_statement_response(
        200,
        "{\"statement_id\":\"stmt-1\",\"status\":{\"state\":\"PENDING\"}}",
    )
    .unwrap();
    assert_eq!(submitted.statement_id.as_deref(), Some("stmt-1"));
    let state = submitted.status.unwrap().state;
    assert!(!is_terminal_state(&state));

    // One poll observes it running.
    let polled = dispatch_statement_response(
        200,
        "{\"statement_id\":\"stmt-1\",\"status\":{\"state\":\"RUNNING\"}}",
    )
    .unwrap();
    assert!(!is_terminal_state(&polled.status.unwrap().state));

    // A later poll observes success: the inline rows are present and the
    // status carries no error.
    let done = dispatch_statement_response(
        200,
        "{\"statement_id\":\"stmt-1\",\"status\":{\"state\":\"SUCCEEDED\"},\
         \"manifest\":{\"format\":\"JSON_ARRAY\",\"total_chunk_count\":1,\
         \"total_row_count\":1,\"truncated\":false},\
         \"result\":{\"data_array\":[[\"0\"]]}}",
    )
    .unwrap();
    let status = done.status.unwrap();
    assert!(is_terminal_state(&status.state));
    assert_eq!(status.state, "SUCCEEDED");
    assert!(status.error.is_none());
    let rows = done.result.unwrap().data_array.unwrap();
    assert_eq!(rows[0][0].as_deref(), Some("0"));
}

#[test]
fn statement_lifecycle_scenario_failure() {
    let failed = dispatch_statement_response(
        200,
        "{\"statement_id\":\"stmt-2\",\"status\":{\"state\":\"FAILED\",\
         \"error\":{\"error_code\":\"BAD_REQUEST\",\"message\":\"syntax error\"}}}",
    )
    .unwrap();
    let status = failed.status.unwrap();
    assert!(is_terminal_state(&status.state));
    assert_eq!(status.state, "FAILED");
    let err = status.error.unwrap();
    assert_eq!(err.message.as_deref(), Some("syntax error"));
    assert!(failed.result.is_none());
}

fn config() -> Config {
    Config {
        databricks_host: "https://adb.example.net".to_string(),
        databricks_token: "example-token".to_string(),
    }
}

#[test]
fn prepared_statement_submission_targets_the_statements_endpoint() {
    let cfg = config();
    let r = prepare_execute_sql_statement(&cfg, &sample_request());
    assert!(matches!(r.method, HttpMethod::Post));
    assert_eq!(r.url, "https://adb.example.net/api/2.0/sql/statements");
    assert_eq!(r.auth_header, "Bearer example-token");
    let body = render_json(&r.body.unwrap());
    let v: serde_json::Value = serde_json::from_str(&body).unwrap();
    assert_eq!(v["statement"], "SELECT * FROM range(10)");
    assert_eq!(v["disposition"], "INLINE");
}

#[test]
fn prepared_status_poll_addresses_the_statement() {
    let cfg = config();
    let r = prepare_get_sql_statement_status(&cfg, "stmt-42");
    assert!(matches!(r.method, HttpMethod::Get));
    assert_eq!(r.url, "https://adb.example.net/api/2.0/sql/statements/stmt-42");
    assert!(r.body.is_none());
}

#[test]
fn prepared_chunk_fetch_addresses_statement_and_chunk() {
    let cfg = config();
    let r = prepare_get_sql_statement_result_chunk(&cfg, "stmt-42", 3);
    assert_eq!(
        r.url,
        "https://adb.example.net/api/2.0/sql/statements/stmt-42/result/chunks/3"
    );
    assert!(r.body.is_none());
}

#[test]
fn prepared_cluster_lookup_uses_the_query_string() {
    let cfg = config();
    let r = prepare_get_cluster_info(&cfg, "c-123");
    assert_eq!(r.url, "https://adb.example.net/api/2.0/clusters/get?cluster_id=c-123");
    assert!(r.body.is_none());
}

#[test]
fn prepared_job_run_targets_the_run_now_endpoint() {
    let cfg = config();
    let request = JobRunRequest {
        job_id: 7,
        idempotency_token: None,
        queue: None,
        jar_params: None,
        notebook_params: None,
        python_params: None,
        spark_submit_params: None,
        python_named_params: None,
        pipeline_params: None,
        sql_params: None,
        dbt_commands: None,
        job_parameters: None,
    };
    let r = prepare_execute_job_run(&cfg, &request);
    assert!(matches!(r.method, HttpMethod::Post));
    assert_eq!(r.url, "https://adb.example.net/api/2.1/jobs/run-now");
    let body = render_json(&r.body.unwrap());
    let v: serde_json::Value = serde_json::from_str(&body).unwrap();
    assert_eq!(v["job_id"], 7);
    assert_eq!(v["queue"], serde_json::Value::Null);
}

#[test]
fn error_body_with_extra_fields_still_classifies() {
    let e = classify_error_body(
        400,
        "{\"error_code\":\"BAD_REQUEST\",\"message\":\"m\",\"details\":[{\"k\":1}]}",
    );
    assert!(matches!(e, HttpError::BadRequest(m) if m == "m"));
}

#[test]
fn duplicate_keys_keep_the_last_value() {
    let v = dispatch_statement_response(
        200,
        "{\"statement_id\":\"first\",\"statement_id\":\"second\"}",
    )
    .unwrap();
    assert_eq!(v.statement_id.as_deref(), Some("second"));
}
