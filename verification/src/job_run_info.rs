use vstd::prelude::*;
use vstd::string::StringExecFns;
use crate::json::{
    Json, arr_items, obj_pairs, opt_str_json, opt_str_to_json, req_i64_ok, req_i64_val,
    opt_i64_ok, opt_i64_val, take_req_i64, take_opt_i64,
};

verus! {

/// A request to trigger one job run. The parameter-set variants are
/// mutually independent; the remote API accepts at most one populated
/// variant per job type, which this model does not enforce. A named
/// parameter set is carried as an ordered list of pairs and written as a
/// JSON object in that order.
#[derive(Debug)]
pub struct JobRunRequest {
    pub job_id: i64,
    pub idempotency_token: Option<String>,
    pub queue: Option<QueueSettings>,
    pub jar_params: Option<Vec<String>>,
    pub notebook_params: Option<Vec<(String, String)>>,
    pub python_params: Option<Vec<String>>,
    pub spark_submit_params: Option<Vec<String>>,
    pub python_named_params: Option<Vec<(String, String)>>,
    pub pipeline_params: Option<Vec<(String, bool)>>,
    pub sql_params: Option<Vec<(String, String)>>,
    pub dbt_commands: Option<Vec<String>>,
    pub job_parameters: Option<Vec<(String, String)>>,
}

#[derive(Debug)]
pub struct QueueSettings {
    pub enabled: bool,
}

/// The response to triggering a run: the run's identifier and, when the
/// remote supplies it, the run's number within its job.
#[derive(Debug)]
pub struct JobRunResponse {
    pub run_id: i64,
    pub number_in_job: Option<i64>,
}

pub open spec fn str_seq_encodes(list: Seq<String>, items: Seq<Json>) -> bool {
    &&& items.len() == list.len()
    &&& forall|i: int| 0 <= i < list.len() ==> (#[trigger] items[i]) == Json::Str(list[i])
}

pub open spec fn encodes_opt_string_list(o: Option<Vec<String>>, v: Json) -> bool {
    match o {
        None => v is Null,
        Some(list) => v is Arr && str_seq_encodes(list@, arr_items(v)),
    }
}

pub open spec fn str_map_encodes(entries: Seq<(String, String)>, ps: Seq<(String, Json)>) -> bool {
    &&& ps.len() == entries.len()
    &&& forall|i: int|
        0 <= i < entries.len() ==> (#[trigger] ps[i]).0@ == entries[i].0@ && ps[i].1 == Json::Str(
            entries[i].1,
        )
}

pub open spec fn encodes_opt_string_map(o: Option<Vec<(String, String)>>, v: Json) -> bool {
    match o {
        None => v is Null,
        Some(entries) => v is Obj && str_map_encodes(entries@, obj_pairs(v)),
    }
}

pub open spec fn bool_map_encodes(entries: Seq<(String, bool)>, ps: Seq<(String, Json)>) -> bool {
    &&& ps.len() == entries.len()
    &&& forall|i: int|
        0 <= i < entries.len() ==> (#[trigger] ps[i]).0@ == entries[i].0@ && ps[i].1 == Json::Bool(
            entries[i].1,
        )
}

pub open spec fn encodes_opt_bool_map(o: Option<Vec<(String, bool)>>, v: Json) -> bool {
    match o {
        None => v is Null,
        Some(entries) => v is Obj && bool_map_encodes(entries@, obj_pairs(v)),
    }
}

pub open spec fn encodes_queue(o: Option<QueueSettings>, v: Json) -> bool {
    match o {
        None => v is Null,
        Some(q) => {
            &&& v is Obj
            &&& obj_pairs(v).len() == 1
            &&& obj_pairs(v)[0].0@ == "enabled"@
            &&& obj_pairs(v)[0].1 == Json::Bool(q.enabled)
        },
    }
}

pub open spec fn encodes_job_run_request(q: JobRunRequest, j: Json) -> bool {
    {
        let ps = obj_pairs(j);
        &&& j is Obj
        &&& ps.len() == 12
        &&& ps[0].0@ == "job_id"@ && ps[0].1 == Json::Int(q.job_id)
        &&& ps[1].0@ == "idempotency_token"@ && ps[1].1 == opt_str_json(q.idempotency_token)
        &&& ps[2].0@ == "queue"@ && encodes_queue(q.queue, ps[2].1)
        &&& ps[3].0@ == "jar_params"@ && encodes_opt_string_list(q.jar_params, ps[3].1)
        &&& ps[4].0@ == "notebook_params"@ && encodes_opt_string_map(q.notebook_params, ps[4].1)
        &&& ps[5].0@ == "python_params"@ && encodes_opt_string_list(q.python_params, ps[5].1)
        &&& ps[6].0@ == "spark_submit_params"@ && encodes_opt_string_list(
            q.spark_submit_params,
            ps[6].1,
        )
        &&& ps[7].0@ == "python_named_params"@ && encodes_opt_string_map(
            q.python_named_params,
            ps[7].1,
        )
        &&& ps[8].0@ == "pipeline_params"@ && encodes_opt_bool_map(q.pipeline_params, ps[8].1)
        &&& ps[9].0@ == "sql_params"@ && encodes_opt_string_map(q.sql_params, ps[9].1)
        &&& ps[10].0@ == "dbt_commands"@ && encodes_opt_string_list(q.dbt_commands, ps[10].1)
        &&& ps[11].0@ == "job_parameters"@ && encodes_opt_string_map(q.job_parameters, ps[11].1)
    }
}

fn encode_opt_string_list(o: &Option<Vec<String>>) -> (r: Json)
    ensures
        encodes_opt_string_list(*o, r),
{
    match o {
        None => Json::Null,
        Some(list) => {
            let mut items: Vec<Json> = Vec::new();
            let mut i: usize = 0;
            while i < list.len()
                invariant
                    i <= list@.len(),
                    items@.len() == i,
                    forall|k: int| 0 <= k < i ==> (#[trigger] items@[k]) == Json::Str(list@[k]),
                decreases list@.len() - i,
            {
                items.push(Json::Str(list[i].clone()));
                i += 1;
            }
            let r = Json::Arr(items);
            proof {
                assert(arr_items(r) == items@);
            }
            r
        },
    }
}

fn encode_opt_string_map(o: &Option<Vec<(String, String)>>) -> (r: Json)
    ensures
        encodes_opt_string_map(*o, r),
{
    match o {
        None => Json::Null,
        Some(entries) => {
            let mut ps: Vec<(String, Json)> = Vec::new();
            let mut i: usize = 0;
            while i < entries.len()
                invariant
                    i <= entries@.len(),
                    ps@.len() == i,
                    forall|k: int|
                        0 <= k < i ==> (#[trigger] ps@[k]).0@ == entries@[k].0@ && ps@[k].1
                            == Json::Str(entries@[k].1),
                decreases entries@.len() - i,
            {
                ps.push((entries[i].0.clone(), Json::Str(entries[i].1.clone())));
                i += 1;
            }
            let r = Json::Obj(ps);
            proof {
                assert(obj_pairs(r) == ps@);
            }
            r
        },
    }
}

fn encode_opt_bool_map(o: &Option<Vec<(String, bool)>>) -> (r: Json)
    ensures
        encodes_opt_bool_map(*o, r),
{
    match o {
        None => Json::Null,
        Some(entries) => {
            let mut ps: Vec<(String, Json)> = Vec::new();
            let mut i: usize = 0;
            while i < entries.len()
                invariant
                    i <= entries@.len(),
                    ps@.len() == i,
                    forall|k: int|
                        0 <= k < i ==> (#[trigger] ps@[k]).0@ == entries@[k].0@ && ps@[k].1
                            == Json::Bool(entries@[k].1),
                decreases entries@.len() - i,
            {
                ps.push((entries[i].0.clone(), Json::Bool(entries[i].1)));
                i += 1;
            }
            let r = Json::Obj(ps);
            proof {
                assert(obj_pairs(r) == ps@);
            }
            r
        },
    }
}

fn encode_queue(o: &Option<QueueSettings>) -> (r: Json)
    ensures
        encodes_queue(*o, r),
{
    match o {
        None => Json::Null,
        Some(q) => {
            let mut ps: Vec<(String, Json)> = Vec::new();
            ps.push((String::from_str("enabled"), Json::Bool(q.enabled)));
            let r = Json::Obj(ps);
            proof {
                assert(obj_pairs(r) == ps@);
            }
            r
        },
    }
}

impl JobRunRequest {
    /// Writes this request in the remote wire shape: every field is
    /// present, an absent option as `null`.
    pub fn to_json(&self) -> (r: Json)
        ensures
            encodes_job_run_request(*self, r),
    {
        let mut ps: Vec<(String, Json)> = Vec::new();
        ps.push((String::from_str("job_id"), Json::Int(self.job_id)));
        ps.push((String::from_str("idempotency_token"), opt_str_to_json(&self.idempotency_token)));
        ps.push((String::from_str("queue"), encode_queue(&self.queue)));
        ps.push((String::from_str("jar_params"), encode_opt_string_list(&self.jar_params)));
        ps.push((String::from_str("notebook_params"), encode_opt_string_map(&self.notebook_params)));
        ps.push((String::from_str("python_params"), encode_opt_string_list(&self.python_params)));
        ps.push(
            (
                String::from_str("spark_submit_params"),
                encode_opt_string_list(&self.spark_submit_params),
            ),
        );
        ps.push(
            (
                String::from_str("python_named_params"),
                encode_opt_string_map(&self.python_named_params),
            ),
        );
        ps.push((String::from_str("pipeline_params"), encode_opt_bool_map(&self.pipeline_params)));
        ps.push((String::from_str("sql_params"), encode_opt_string_map(&self.sql_params)));
        ps.push((String::from_str("dbt_commands"), encode_opt_string_list(&self.dbt_commands)));
        ps.push((String::from_str("job_parameters"), encode_opt_string_map(&self.job_parameters)));
        let r = Json::Obj(ps);
        proof {
            assert(obj_pairs(r) == ps@);
        }
        r
    }
}

pub open spec fn job_run_response_decodable(j: Json) -> bool {
    &&& j is Obj
    &&& req_i64_ok(j, "run_id"@)
    &&& opt_i64_ok(j, "number_in_job"@)
}

pub open spec fn job_run_response_decodes(j: Json, v: JobRunResponse) -> bool {
    &&& v.run_id == req_i64_val(j, "run_id"@)
    &&& v.number_in_job == opt_i64_val(j, "number_in_job"@)
}

pub fn decode_job_run_response(j: &Json) -> (r: Option<JobRunResponse>)
    ensures
        r is Some <==> job_run_response_decodable(*j),
        r matches Some(v) ==> job_run_response_decodes(*j, v),
{
    if !j.is_obj() {
        return None;
    }
    let run_id = match take_req_i64(j, "run_id") {
        Some(v) => v,
        None => {
            return None;
        },
    };
    let number_in_job = match take_opt_i64(j, "number_in_job") {
        Some(v) => v,
        None => {
            return None;
        },
    };
    Some(JobRunResponse { run_id, number_in_job })
}

} // verus!
