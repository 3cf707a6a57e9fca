use vstd::prelude::*;
use vstd::string::StringExecFns;
use crate::errors::{ErrorResponse, HttpError, classifies};
use crate::json::{Json, req_str_ok, req_str_val};
use crate::jsontext::{parse_json, json_of_text};
use crate::numfmt::{spec_dec_nat, u64_to_dec};
use crate::sql_statement::{
    SqlStatementResponse, ResultData, statement_response_decodable, statement_response_decodes,
    decode_statement_response, result_data_decodable, result_data_decodes, decode_result_data,
};
use crate::cluster_info::{ClusterInfo, cluster_info_decodable, cluster_info_decodes, decode_cluster_info};
use crate::job_run_info::{
    JobRunResponse, job_run_response_decodable, job_run_response_decodes, decode_job_run_response,
};

verus! {

/// A non-success body is readable as an error payload when it is an
/// object carrying both `error_code` and `message` as text.
pub open spec fn error_body_decodable(j: Json) -> bool {
    &&& j is Obj
    &&& req_str_ok(j, "error_code"@)
    &&& req_str_ok(j, "message"@)
}

pub fn decode_error_response(j: &Json) -> (r: Option<ErrorResponse>)
    ensures
        r is Some <==> error_body_decodable(*j),
        r matches Some(e) ==> e.error_code@ == req_str_val(*j, "error_code"@) && e.message@
            == req_str_val(*j, "message"@),
{
    if !j.is_obj() {
        return None;
    }
    let error_code = match crate::json::take_req_str(j, "error_code") {
        Some(v) => v,
        None => {
            return None;
        },
    };
    let message = match crate::json::take_req_str(j, "message") {
        Some(v) => v,
        None => {
            return None;
        },
    };
    Some(ErrorResponse { error_code, message })
}

/// The message synthesized when a non-success body is not a readable
/// error payload; it embeds the numeric status code.
pub open spec fn fallback_message(status: u16) -> Seq<char> {
    "Unknown error with status code: "@ + spec_dec_nat(status as nat)
}

fn fallback_error_response(status: u16) -> (r: ErrorResponse)
    ensures
        r.error_code@ == "UNKNOWN"@,
        r.message@ == fallback_message(status),
{
    let mut message = String::from_str("Unknown error with status code: ");
    message.append(u64_to_dec(status as u64).as_str());
    ErrorResponse { error_code: String::from_str("UNKNOWN"), message }
}

/// What a non-success outcome classifies to: the body's own error payload
/// when it carries one, else a synthesized `UNKNOWN` payload whose message
/// embeds the status code — so the dispatcher never fails silently on a
/// malformed error body.
pub open spec fn error_outcome(status: u16, parsed: Option<Json>, e: HttpError) -> bool {
    match parsed {
        Some(j) => if error_body_decodable(j) {
            classifies(req_str_val(j, "error_code"@), req_str_val(j, "message"@), e)
        } else {
            classifies("UNKNOWN"@, fallback_message(status), e)
        },
        None => classifies("UNKNOWN"@, fallback_message(status), e),
    }
}

/// Classifies a non-success response's body text.
pub fn classify_error_body(status: u16, body: &str) -> (e: HttpError)
    ensures
        error_outcome(status, json_of_text(body@), e),
{
    let payload: ErrorResponse = match parse_json(body) {
        Some(j) => match decode_error_response(&j) {
            Some(er) => er,
            None => fallback_error_response(status),
        },
        None => fallback_error_response(status),
    };
    HttpError::from_error_response(payload)
}

/// The synthesized `UNKNOWN` code is not a known one, so a malformed or
/// missing error body always classifies as `InternalServerError`, with
/// the synthesized message carried along.
pub proof fn lemma_unknown_code_classifies_ise(m: Seq<char>, e: HttpError)
    requires
        classifies("UNKNOWN"@, m, e),
    ensures
        e matches HttpError::InternalServerError(x) && x@ == m,
{
    reveal_strlit("UNKNOWN");
    reveal_strlit("BAD_REQUEST");
    reveal_strlit("INVALID_PARAMETER_VALUE");
    reveal_strlit("UNAUTHORIZED");
    reveal_strlit("PERMISSION_DENIED");
    reveal_strlit("NOT_FOUND");
    reveal_strlit("REQUEST_LIMIT_EXCEEDED");
    reveal_strlit("TEMPORARILY_UNAVAILABLE");
    assert("UNKNOWN"@.len() == 7);
    assert("BAD_REQUEST"@.len() == 11);
    assert("INVALID_PARAMETER_VALUE"@.len() == 23);
    assert("UNAUTHORIZED"@.len() == 12);
    assert("PERMISSION_DENIED"@.len() == 17);
    assert("NOT_FOUND"@.len() == 9);
    assert("REQUEST_LIMIT_EXCEEDED"@.len() == 22);
    assert("TEMPORARILY_UNAVAILABLE"@.len() == 23);
}

/// The note carried when a success body cannot be read as the expected
/// type.
pub open spec fn parse_failure_note() -> Seq<char> {
    "response body did not parse as the expected type"@
}

fn parse_failure_error() -> (e: HttpError)
    ensures
        (e matches HttpError::InternalServerError(m) && m@ == parse_failure_note()),
{
    HttpError::InternalServerError(
        String::from_str("response body did not parse as the expected type"),
    )
}

/// The dispatch rule for a statement response. Only status 200 is
/// success; its body must read as the expected type, and a failure to do
/// so is `InternalServerError`, never a silent default. Any other status
/// classifies through the error taxonomy.
pub open spec fn statement_outcome(
    status: u16,
    parsed: Option<Json>,
    r: Result<SqlStatementResponse, HttpError>,
) -> bool {
    if status == 200u16 {
        match parsed {
            Some(j) => if statement_response_decodable(j) {
                (r matches Ok(v) && statement_response_decodes(j, v))
            } else {
                (r matches Err(e) && e matches HttpError::InternalServerError(m) && m@
                    == parse_failure_note())
            },
            None => (r matches Err(e) && e matches HttpError::InternalServerError(m) && m@
                == parse_failure_note()),
        }
    } else {
        (r matches Err(e) && error_outcome(status, parsed, e))
    }
}

/// Decodes one HTTP outcome into a statement response or a taxonomy
/// value.
pub fn dispatch_statement_response(status: u16, body: &str) -> (r: Result<
    SqlStatementResponse,
    HttpError,
>)
    ensures
        statement_outcome(status, json_of_text(body@), r),
{
    if status == 200 {
        match parse_json(body) {
            Some(j) => match decode_statement_response(&j) {
                Some(v) => Ok(v),
                None => Err(parse_failure_error()),
            },
            None => Err(parse_failure_error()),
        }
    } else {
        Err(classify_error_body(status, body))
    }
}

/// The dispatch rule for a result-chunk response, as `statement_outcome`.
pub open spec fn result_chunk_outcome(
    status: u16,
    parsed: Option<Json>,
    r: Result<ResultData, HttpError>,
) -> bool {
    if status == 200u16 {
        match parsed {
            Some(j) => if result_data_decodable(j) {
                (r matches Ok(v) && result_data_decodes(j, v))
            } else {
                (r matches Err(e) && e matches HttpError::InternalServerError(m) && m@
                    == parse_failure_note())
            },
            None => (r matches Err(e) && e matches HttpError::InternalServerError(m) && m@
                == parse_failure_note()),
        }
    } else {
        (r matches Err(e) && error_outcome(status, parsed, e))
    }
}

/// Decodes one HTTP outcome into a result chunk or a taxonomy value.
pub fn dispatch_result_chunk(status: u16, body: &str) -> (r: Result<ResultData, HttpError>)
    ensures
        result_chunk_outcome(status, json_of_text(body@), r),
{
    if status == 200 {
        match parse_json(body) {
            Some(j) => match decode_result_data(&j) {
                Some(v) => Ok(v),
                None => Err(parse_failure_error()),
            },
            None => Err(parse_failure_error()),
        }
    } else {
        Err(classify_error_body(status, body))
    }
}

/// Maps a transport-level failure, which never yielded a status code: a
/// timeout to `TemporarilyUnavailable`, anything else to
/// `InternalServerError`, both carrying the transport's own message.
pub fn classify_transport_failure(timed_out: bool, detail: String) -> (e: HttpError)
    ensures
        timed_out ==> (e matches HttpError::TemporarilyUnavailable(m) && m == detail),
        !timed_out ==> (e matches HttpError::InternalServerError(m) && m == detail),
{
    if timed_out {
        HttpError::TemporarilyUnavailable(detail)
    } else {
        HttpError::InternalServerError(detail)
    }
}

/// The dispatch rule for a cluster descriptor, as `statement_outcome`.
pub open spec fn cluster_info_outcome(
    status: u16,
    parsed: Option<Json>,
    r: Result<ClusterInfo, HttpError>,
) -> bool {
    if status == 200u16 {
        match parsed {
            Some(j) => if cluster_info_decodable(j) {
                (r matches Ok(v) && cluster_info_decodes(j, v))
            } else {
                (r matches Err(e) && e matches HttpError::InternalServerError(m) && m@
                    == parse_failure_note())
            },
            None => (r matches Err(e) && e matches HttpError::InternalServerError(m) && m@
                == parse_failure_note()),
        }
    } else {
        (r matches Err(e) && error_outcome(status, parsed, e))
    }
}

/// Decodes one HTTP outcome into a cluster descriptor or a taxonomy
/// value.
pub fn dispatch_cluster_info(status: u16, body: &str) -> (r: Result<ClusterInfo, HttpError>)
    ensures
        cluster_info_outcome(status, json_of_text(body@), r),
{
    if status == 200 {
        match parse_json(body) {
            Some(j) => match decode_cluster_info(&j) {
                Some(v) => Ok(v),
                None => Err(parse_failure_error()),
            },
            None => Err(parse_failure_error()),
        }
    } else {
        Err(classify_error_body(status, body))
    }
}

/// The dispatch rule for a job-run response, as `statement_outcome`.
pub open spec fn job_run_outcome(
    status: u16,
    parsed: Option<Json>,
    r: Result<JobRunResponse, HttpError>,
) -> bool {
    if status == 200u16 {
        match parsed {
            Some(j) => if job_run_response_decodable(j) {
                (r matches Ok(v) && job_run_response_decodes(j, v))
            } else {
                (r matches Err(e) && e matches HttpError::InternalServerError(m) && m@
                    == parse_failure_note())
            },
            None => (r matches Err(e) && e matches HttpError::InternalServerError(m) && m@
                == parse_failure_note()),
        }
    } else {
        (r matches Err(e) && error_outcome(status, parsed, e))
    }
}

/// Decodes one HTTP outcome into a job-run response or a taxonomy value.
pub fn dispatch_job_run_response(status: u16, body: &str) -> (r: Result<JobRunResponse, HttpError>)
    ensures
        job_run_outcome(status, json_of_text(body@), r),
{
    if status == 200 {
        match parse_json(body) {
            Some(j) => match decode_job_run_response(&j) {
                Some(v) => Ok(v),
                None => Err(parse_failure_error()),
            },
            None => Err(parse_failure_error()),
        }
    } else {
        Err(classify_error_body(status, body))
    }
}

} // verus!
