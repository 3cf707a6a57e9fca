use vstd::prelude::*;
use vstd::string::StringExecFns;
use crate::config::Config;
use crate::json::Json;
use crate::numfmt::{spec_dec_int, i64_to_dec};
use crate::sql_statement::{
    SqlStatementRequest, encodes_sql_statement_request,
};
use crate::job_run_info::{JobRunRequest, encodes_job_run_request};

verus! {

#[derive(Debug)]
pub enum HttpMethod {
    Get,
    Post,
}

/// Everything the transport needs to perform one remote operation: the
/// method, the absolute URL, the value of the `Authorization` header —
/// the only header the contract mandates — and the JSON body, present
/// exactly for the operations that POST one.
#[derive(Debug)]
pub struct PreparedRequest {
    pub method: HttpMethod,
    pub url: String,
    pub auth_header: String,
    pub body: Option<Json>,
}

/// The absolute URL of an operation: host, one separating slash, path.
pub open spec fn url_of(host: Seq<char>, path: Seq<char>) -> Seq<char> {
    host + "/"@ + path
}

/// The value of the `Authorization` header for a bearer token.
pub open spec fn bearer_of(token: Seq<char>) -> Seq<char> {
    "Bearer "@ + token
}

pub open spec fn statement_status_path(statement_id: Seq<char>) -> Seq<char> {
    "api/2.0/sql/statements/"@ + statement_id
}

pub open spec fn result_chunk_path(statement_id: Seq<char>, chunk_index: int) -> Seq<char> {
    "api/2.0/sql/statements/"@ + statement_id + "/result/chunks/"@ + spec_dec_int(chunk_index)
}

pub open spec fn cluster_info_path(cluster_id: Seq<char>) -> Seq<char> {
    "api/2.0/clusters/get?cluster_id="@ + cluster_id
}

fn bearer_header(config: &Config) -> (r: String)
    ensures
        r@ == bearer_of(config.databricks_token@),
{
    let mut h = String::from_str("Bearer ");
    h.append(config.databricks_token.as_str());
    h
}

fn join_url(config: &Config, path: &str) -> (r: String)
    ensures
        r@ == url_of(config.databricks_host@, path@),
{
    let mut u = String::from_str(config.databricks_host.as_str());
    u.append("/");
    u.append(path);
    proof {
        assert(u@ =~= url_of(config.databricks_host@, path@));
    }
    u
}

/// Prepares the submission of a SQL statement: POST to the statements
/// endpoint, with the request written in the wire shape as the body.
pub fn prepare_execute_sql_statement(config: &Config, request: &SqlStatementRequest) -> (r:
    PreparedRequest)
    ensures
        r.method is Post,
        r.url@ == url_of(config.databricks_host@, "api/2.0/sql/statements"@),
        r.auth_header@ == bearer_of(config.databricks_token@),
        (r.body matches Some(b) && encodes_sql_statement_request(*request, b)),
{
    PreparedRequest {
        method: HttpMethod::Post,
        url: join_url(config, "api/2.0/sql/statements"),
        auth_header: bearer_header(config),
        body: Some(request.to_json()),
    }
}

/// Prepares the status poll of a submitted statement: GET, no body.
pub fn prepare_get_sql_statement_status(config: &Config, statement_id: &str) -> (r:
    PreparedRequest)
    ensures
        r.method is Get,
        r.url@ == url_of(config.databricks_host@, statement_status_path(statement_id@)),
        r.auth_header@ == bearer_of(config.databricks_token@),
        r.body is None,
{
    let mut path = String::from_str("api/2.0/sql/statements/");
    path.append(statement_id);
    let r = PreparedRequest {
        method: HttpMethod::Get,
        url: join_url(config, path.as_str()),
        auth_header: bearer_header(config),
        body: None,
    };
    proof {
        assert(r.url@ =~= url_of(config.databricks_host@, statement_status_path(statement_id@)));
    }
    r
}

/// Prepares the fetch of one result chunk, addressed by statement and
/// chunk index: GET, no body.
pub fn prepare_get_sql_statement_result_chunk(
    config: &Config,
    statement_id: &str,
    chunk_index: i32,
) -> (r: PreparedRequest)
    ensures
        r.method is Get,
        r.url@ == url_of(
            config.databricks_host@,
            result_chunk_path(statement_id@, chunk_index as int),
        ),
        r.auth_header@ == bearer_of(config.databricks_token@),
        r.body is None,
{
    let mut path = String::from_str("api/2.0/sql/statements/");
    path.append(statement_id);
    path.append("/result/chunks/");
    path.append(i64_to_dec(chunk_index as i64).as_str());
    let r = PreparedRequest {
        method: HttpMethod::Get,
        url: join_url(config, path.as_str()),
        auth_header: bearer_header(config),
        body: None,
    };
    proof {
        assert(r.url@ =~= url_of(
            config.databricks_host@,
            result_chunk_path(statement_id@, chunk_index as int),
        ));
    }
    r
}

/// Prepares the retrieval of a cluster's descriptor; the cluster is
/// addressed through the query string: GET, no body.
pub fn prepare_get_cluster_info(config: &Config, cluster_id: &str) -> (r: PreparedRequest)
    ensures
        r.method is Get,
        r.url@ == url_of(config.databricks_host@, cluster_info_path(cluster_id@)),
        r.auth_header@ == bearer_of(config.databricks_token@),
        r.body is None,
{
    let mut path = String::from_str("api/2.0/clusters/get?cluster_id=");
    path.append(cluster_id);
    let r = PreparedRequest {
        method: HttpMethod::Get,
        url: join_url(config, path.as_str()),
        auth_header: bearer_header(config),
        body: None,
    };
    proof {
        assert(r.url@ =~= url_of(config.databricks_host@, cluster_info_path(cluster_id@)));
    }
    r
}

/// Prepares the triggering of a job run: POST to the run-now endpoint,
/// with the request written in the wire shape as the body.
pub fn prepare_execute_job_run(config: &Config, request: &JobRunRequest) -> (r: PreparedRequest)
    ensures
        r.method is Post,
        r.url@ == url_of(config.databricks_host@, "api/2.1/jobs/run-now"@),
        r.auth_header@ == bearer_of(config.databricks_token@),
        (r.body matches Some(b) && encodes_job_run_request(*request, b)),
{
    PreparedRequest {
        method: HttpMethod::Post,
        url: join_url(config, "api/2.1/jobs/run-now"),
        auth_header: bearer_header(config),
        body: Some(request.to_json()),
    }
}

} // verus!
