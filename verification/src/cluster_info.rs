use vstd::prelude::*;
use vstd::string::StringExecFns;
use crate::json::{
    Json, obj_get, obj_pairs, get_field, take_req_str, take_opt_str, take_req_i64, take_opt_i64,
    take_req_i32, take_req_bool, req_str_ok, req_str_val, opt_str_ok, opt_str_val, req_i64_ok,
    req_i64_val, opt_i64_ok, opt_i64_val, req_i32_ok, req_i32_val, req_bool_ok, req_bool_val,
};
use crate::jsontext::{render_json, json_text_of};
use crate::numfmt::{spec_dec_int, i64_to_dec};
use crate::sql_statement::opt_str_matches;

verus! {

/// The remote cluster descriptor: a large flat record. Tag mappings are
/// carried as ordered lists of pairs; the free-form disk specification
/// holds each value as its JSON text.
#[derive(Debug)]
pub struct ClusterInfo {
    pub cluster_id: String,
    pub cluster_name: String,
    pub state: String,
    pub creator_user_name: String,
    pub spark_context_id: Option<i64>,
    pub driver_healthy: bool,
    pub spark_version: String,
    pub spark_conf: Vec<(String, String)>,
    pub azure_attributes: AzureAttributes,
    pub node_type_id: String,
    pub driver_node_type_id: String,
    pub custom_tags: Vec<(String, String)>,
    pub autotermination_minutes: i64,
    pub enable_elastic_disk: bool,
    pub disk_spec: Vec<(String, String)>,
    pub cluster_source: String,
    pub single_user_name: Option<String>,
    pub enable_local_disk_encryption: bool,
    pub instance_source: InstanceSource,
    pub driver_instance_source: InstanceSource,
    pub data_security_mode: String,
    pub runtime_engine: String,
    pub effective_spark_version: String,
    pub state_message: String,
    pub start_time: Option<i64>,
    pub terminated_time: Option<i64>,
    pub last_state_loss_time: Option<i64>,
    pub last_activity_time: Option<i64>,
    pub last_restarted_time: Option<i64>,
    pub num_workers: i32,
    pub default_tags: Vec<(String, String)>,
    pub termination_reason: TerminationReason,
    pub pinned_by_user_name: Option<String>,
    pub init_scripts_safe_mode: bool,
    pub cluster_spec: ClusterSpec,
}

/// Azure-specific attributes. The maximum spot bid price is a free
/// decimal on the wire and is held as its numeral text.
#[derive(Debug)]
pub struct AzureAttributes {
    pub first_on_demand: i32,
    pub availability: String,
    pub spot_bid_max_price: String,
}

#[derive(Debug)]
pub struct InstanceSource {
    pub node_type_id: String,
}

/// Why a cluster terminated; the reason's kind travels under the wire
/// field `type`.
#[derive(Debug)]
pub struct TerminationReason {
    pub code: String,
    pub type_field: String,
    pub parameters: Vec<(String, String)>,
}

/// The desired-state subset of the cluster descriptor; carried under the
/// wire field `spec`.
#[derive(Debug)]
pub struct ClusterSpec {
    pub cluster_name: String,
    pub spark_version: String,
    pub spark_conf: Vec<(String, String)>,
    pub azure_attributes: AzureAttributes,
    pub node_type_id: String,
    pub driver_node_type_id: String,
    pub custom_tags: Vec<(String, String)>,
    pub autotermination_minutes: i64,
    pub enable_elastic_disk: bool,
    pub single_user_name: Option<String>,
    pub enable_local_disk_encryption: bool,
    pub data_security_mode: String,
    pub runtime_engine: String,
    pub num_workers: i32,
}

// ---------------------------------------------------------------------------
// String maps: a JSON object all of whose values are text reads as an
// ordered list of text pairs.
// ---------------------------------------------------------------------------

pub open spec fn str_of(j: Json) -> Option<Seq<char>> {
    match j {
        Json::Str(s) => Some(s@),
        _ => None,
    }
}

pub open spec fn str_map_pairs_decodable(ps: Seq<(String, Json)>) -> bool {
    forall|i: int| 0 <= i < ps.len() ==> (#[trigger] ps[i]).1 is Str
}

pub open spec fn str_map_pairs_decodes(ps: Seq<(String, Json)>, out: Seq<(String, String)>) -> bool {
    &&& out.len() == ps.len()
    &&& forall|i: int|
        0 <= i < ps.len() ==> (#[trigger] out[i]).0@ == ps[i].0@ && str_of(ps[i].1) == Some(
            out[i].1@,
        )
}

fn decode_str_map(ps: &Vec<(String, Json)>) -> (r: Option<Vec<(String, String)>>)
    ensures
        r is Some <==> str_map_pairs_decodable(ps@),
        r matches Some(out) ==> str_map_pairs_decodes(ps@, out@),
{
    let mut out: Vec<(String, String)> = Vec::new();
    let mut i: usize = 0;
    while i < ps.len()
        invariant
            i <= ps@.len(),
            out@.len() == i,
            forall|k: int| 0 <= k < i ==> (#[trigger] ps@[k]).1 is Str,
            forall|k: int|
                0 <= k < i ==> (#[trigger] out@[k]).0@ == ps@[k].0@ && str_of(ps@[k].1) == Some(
                    out@[k].1@,
                ),
        decreases ps@.len() - i,
    {
        match &ps[i].1 {
            Json::Str(s) => out.push((ps[i].0.clone(), s.clone())),
            _ => {
                return None;
            },
        }
        i += 1;
    }
    Some(out)
}

/// A required string-map field.
pub open spec fn req_str_map_ok(j: Json, k: Seq<char>) -> bool {
    match obj_get(j, k) {
        Some(m) => m is Obj && str_map_pairs_decodable(obj_pairs(m)),
        None => false,
    }
}

pub open spec fn req_str_map_decodes(j: Json, k: Seq<char>, out: Seq<(String, String)>) -> bool {
    match obj_get(j, k) {
        Some(m) => str_map_pairs_decodes(obj_pairs(m), out),
        None => false,
    }
}

fn take_req_str_map(j: &Json, key: &str) -> (r: Option<Vec<(String, String)>>)
    ensures
        r is Some <==> req_str_map_ok(*j, key@),
        r matches Some(out) ==> req_str_map_decodes(*j, key@, out@),
{
    match get_field(j, key) {
        Some(m) => match m {
            Json::Obj(ps) => {
                proof {
                    assert(obj_pairs(*m) == ps@);
                }
                decode_str_map(ps)
            },
            _ => None,
        },
        None => None,
    }
}

// ---------------------------------------------------------------------------
// The free-form disk specification: any JSON object reads as an ordered
// list of pairs, each value held as its JSON text. The field defaults to
// an empty list when absent.
// ---------------------------------------------------------------------------

pub open spec fn json_map_text_decodes(ps: Seq<(String, Json)>, out: Seq<(String, String)>) -> bool {
    &&& out.len() == ps.len()
    &&& forall|i: int|
        0 <= i < ps.len() ==> (#[trigger] out[i]).0@ == ps[i].0@ && out[i].1@ == json_text_of(
            ps[i].1,
        )
}

fn decode_json_map_text(ps: &Vec<(String, Json)>) -> (out: Vec<(String, String)>)
    ensures
        json_map_text_decodes(ps@, out@),
{
    let mut out: Vec<(String, String)> = Vec::new();
    let mut i: usize = 0;
    while i < ps.len()
        invariant
            i <= ps@.len(),
            out@.len() == i,
            forall|k: int|
                0 <= k < i ==> (#[trigger] out@[k]).0@ == ps@[k].0@ && out@[k].1@ == json_text_of(
                    ps@[k].1,
                ),
        decreases ps@.len() - i,
    {
        out.push((ps[i].0.clone(), render_json(&ps[i].1)));
        i += 1;
    }
    out
}

pub open spec fn disk_spec_ok(j: Json) -> bool {
    match obj_get(j, "disk_spec"@) {
        None => true,
        Some(m) => m is Obj,
    }
}

pub open spec fn disk_spec_decodes(j: Json, out: Seq<(String, String)>) -> bool {
    match obj_get(j, "disk_spec"@) {
        None => out.len() == 0,
        Some(m) => json_map_text_decodes(obj_pairs(m), out),
    }
}

// ---------------------------------------------------------------------------
// A numeric field whose value is a free decimal: an integer reads as its
// numeral, any other number as its literal text.
// ---------------------------------------------------------------------------

pub open spec fn req_num_ok(j: Json, k: Seq<char>) -> bool {
    match obj_get(j, k) {
        Some(Json::Int(_)) => true,
        Some(Json::NumText(_)) => true,
        _ => false,
    }
}

pub open spec fn req_num_text(j: Json, k: Seq<char>) -> Seq<char> {
    match obj_get(j, k) {
        Some(Json::Int(n)) => spec_dec_int(n as int),
        Some(Json::NumText(s)) => s@,
        _ => Seq::empty(),
    }
}

fn take_req_num_text(j: &Json, key: &str) -> (r: Option<String>)
    ensures
        r is Some <==> req_num_ok(*j, key@),
        r matches Some(s) ==> s@ == req_num_text(*j, key@),
{
    match get_field(j, key) {
        Some(Json::Int(n)) => Some(i64_to_dec(*n)),
        Some(Json::NumText(s)) => Some(s.clone()),
        _ => None,
    }
}

// ---------------------------------------------------------------------------
// The nested records.
// ---------------------------------------------------------------------------

pub open spec fn azure_attributes_decodable(j: Json) -> bool {
    &&& j is Obj
    &&& req_i32_ok(j, "first_on_demand"@)
    &&& req_str_ok(j, "availability"@)
    &&& req_num_ok(j, "spot_bid_max_price"@)
}

pub open spec fn azure_attributes_decodes(j: Json, a: AzureAttributes) -> bool {
    &&& a.first_on_demand == req_i32_val(j, "first_on_demand"@)
    &&& a.availability@ == req_str_val(j, "availability"@)
    &&& a.spot_bid_max_price@ == req_num_text(j, "spot_bid_max_price"@)
}

pub fn decode_azure_attributes(j: &Json) -> (r: Option<AzureAttributes>)
    ensures
        r is Some <==> azure_attributes_decodable(*j),
        r matches Some(a) ==> azure_attributes_decodes(*j, a),
{
    if !j.is_obj() {
        return None;
    }
    let first_on_demand = match take_req_i32(j, "first_on_demand") {
        Some(v) => v,
        None => {
            return None;
        },
    };
    let availability = match take_req_str(j, "availability") {
        Some(v) => v,
        None => {
            return None;
        },
    };
    let spot_bid_max_price = match take_req_num_text(j, "spot_bid_max_price") {
        Some(v) => v,
        None => {
            return None;
        },
    };
    Some(AzureAttributes { first_on_demand, availability, spot_bid_max_price })
}

pub open spec fn instance_source_decodable(j: Json) -> bool {
    &&& j is Obj
    &&& req_str_ok(j, "node_type_id"@)
}

pub open spec fn instance_source_decodes(j: Json, s: InstanceSource) -> bool {
    s.node_type_id@ == req_str_val(j, "node_type_id"@)
}

pub fn decode_instance_source(j: &Json) -> (r: Option<InstanceSource>)
    ensures
        r is Some <==> instance_source_decodable(*j),
        r matches Some(s) ==> instance_source_decodes(*j, s),
{
    if !j.is_obj() {
        return None;
    }
    match take_req_str(j, "node_type_id") {
        Some(node_type_id) => Some(InstanceSource { node_type_id }),
        None => None,
    }
}

pub open spec fn termination_reason_decodable(j: Json) -> bool {
    &&& j is Obj
    &&& req_str_ok(j, "code"@)
    &&& req_str_ok(j, "type"@)
    &&& req_str_map_ok(j, "parameters"@)
}

pub open spec fn termination_reason_decodes(j: Json, t: TerminationReason) -> bool {
    &&& t.code@ == req_str_val(j, "code"@)
    &&& t.type_field@ == req_str_val(j, "type"@)
    &&& req_str_map_decodes(j, "parameters"@, t.parameters@)
}

pub fn decode_termination_reason(j: &Json) -> (r: Option<TerminationReason>)
    ensures
        r is Some <==> termination_reason_decodable(*j),
        r matches Some(t) ==> termination_reason_decodes(*j, t),
{
    if !j.is_obj() {
        return None;
    }
    let code = match take_req_str(j, "code") {
        Some(v) => v,
        None => {
            return None;
        },
    };
    let type_field = match take_req_str(j, "type") {
        Some(v) => v,
        None => {
            return None;
        },
    };
    let parameters = match take_req_str_map(j, "parameters") {
        Some(v) => v,
        None => {
            return None;
        },
    };
    Some(TerminationReason { code, type_field, parameters })
}

pub open spec fn cluster_spec_decodable(j: Json) -> bool {
    &&& j is Obj
    &&& req_str_ok(j, "cluster_name"@)
    &&& req_str_ok(j, "spark_version"@)
    &&& req_str_map_ok(j, "spark_conf"@)
    &&& match obj_get(j, "azure_attributes"@) {
        Some(a) => azure_attributes_decodable(a),
        None => false,
    }
    &&& req_str_ok(j, "node_type_id"@)
    &&& req_str_ok(j, "driver_node_type_id"@)
    &&& req_str_map_ok(j, "custom_tags"@)
    &&& req_i64_ok(j, "autotermination_minutes"@)
    &&& req_bool_ok(j, "enable_elastic_disk"@)
    &&& opt_str_ok(j, "single_user_name"@)
    &&& req_bool_ok(j, "enable_local_disk_encryption"@)
    &&& req_str_ok(j, "data_security_mode"@)
    &&& req_str_ok(j, "runtime_engine"@)
    &&& req_i32_ok(j, "num_workers"@)
}

pub open spec fn cluster_spec_decodes(j: Json, c: ClusterSpec) -> bool {
    &&& c.cluster_name@ == req_str_val(j, "cluster_name"@)
    &&& c.spark_version@ == req_str_val(j, "spark_version"@)
    &&& req_str_map_decodes(j, "spark_conf"@, c.spark_conf@)
    &&& match obj_get(j, "azure_attributes"@) {
        Some(a) => azure_attributes_decodes(a, c.azure_attributes),
        None => false,
    }
    &&& c.node_type_id@ == req_str_val(j, "node_type_id"@)
    &&& c.driver_node_type_id@ == req_str_val(j, "driver_node_type_id"@)
    &&& req_str_map_decodes(j, "custom_tags"@, c.custom_tags@)
    &&& c.autotermination_minutes == req_i64_val(j, "autotermination_minutes"@)
    &&& c.enable_elastic_disk == req_bool_val(j, "enable_elastic_disk"@)
    &&& opt_str_matches(c.single_user_name, opt_str_val(j, "single_user_name"@))
    &&& c.enable_local_disk_encryption == req_bool_val(j, "enable_local_disk_encryption"@)
    &&& c.data_security_mode@ == req_str_val(j, "data_security_mode"@)
    &&& c.runtime_engine@ == req_str_val(j, "runtime_engine"@)
    &&& c.num_workers == req_i32_val(j, "num_workers"@)
}

pub fn decode_cluster_spec(j: &Json) -> (r: Option<ClusterSpec>)
    ensures
        r is Some <==> cluster_spec_decodable(*j),
        r matches Some(c) ==> cluster_spec_decodes(*j, c),
{
    if !j.is_obj() {
        return None;
    }
    let cluster_name = match take_req_str(j, "cluster_name") {
        Some(v) => v,
        None => {
            return None;
        },
    };
    let spark_version = match take_req_str(j, "spark_version") {
        Some(v) => v,
        None => {
            return None;
        },
    };
    let spark_conf = match take_req_str_map(j, "spark_conf") {
        Some(v) => v,
        None => {
            return None;
        },
    };
    let azure_attributes = match get_field(j, "azure_attributes") {
        Some(a) => match decode_azure_attributes(a) {
            Some(v) => v,
            None => {
                return None;
            },
        },
        None => {
            return None;
        },
    };
    let node_type_id = match take_req_str(j, "node_type_id") {
        Some(v) => v,
        None => {
            return None;
        },
    };
    let driver_node_type_id = match take_req_str(j, "driver_node_type_id") {
        Some(v) => v,
        None => {
            return None;
        },
    };
    let custom_tags = match take_req_str_map(j, "custom_tags") {
        Some(v) => v,
        None => {
            return None;
        },
    };
    let autotermination_minutes = match take_req_i64(j, "autotermination_minutes") {
        Some(v) => v,
        None => {
            return None;
        },
    };
    let enable_elastic_disk = match take_req_bool(j, "enable_elastic_disk") {
        Some(v) => v,
        None => {
            return None;
        },
    };
    let single_user_name = match take_opt_str(j, "single_user_name") {
        Some(v) => v,
        None => {
            return None;
        },
    };
    let enable_local_disk_encryption = match take_req_bool(j, "enable_local_disk_encryption") {
        Some(v) => v,
        None => {
            return None;
        },
    };
    let data_security_mode = match take_req_str(j, "data_security_mode") {
        Some(v) => v,
        None => {
            return None;
        },
    };
    let runtime_engine = match take_req_str(j, "runtime_engine") {
        Some(v) => v,
        None => {
            return None;
        },
    };
    let num_workers = match take_req_i32(j, "num_workers") {
        Some(v) => v,
        None => {
            return None;
        },
    };
    Some(
        ClusterSpec {
            cluster_name,
            spark_version,
            spark_conf,
            azure_attributes,
            node_type_id,
            driver_node_type_id,
            custom_tags,
            autotermination_minutes,
            enable_elastic_disk,
            single_user_name,
            enable_local_disk_encryption,
            data_security_mode,
            runtime_engine,
            num_workers,
        },
    )
}

pub open spec fn cluster_info_decodable(j: Json) -> bool {
    &&& j is Obj
    &&& req_str_ok(j, "cluster_id"@)
    &&& req_str_ok(j, "cluster_name"@)
    &&& req_str_ok(j, "state"@)
    &&& req_str_ok(j, "creator_user_name"@)
    &&& opt_i64_ok(j, "spark_context_id"@)
    &&& req_bool_ok(j, "driver_healthy"@)
    &&& req_str_ok(j, "spark_version"@)
    &&& req_str_map_ok(j, "spark_conf"@)
    &&& match obj_get(j, "azure_attributes"@) {
        Some(a) => azure_attributes_decodable(a),
        None => false,
    }
    &&& req_str_ok(j, "node_type_id"@)
    &&& req_str_ok(j, "driver_node_type_id"@)
    &&& req_str_map_ok(j, "custom_tags"@)
    &&& req_i64_ok(j, "autotermination_minutes"@)
    &&& req_bool_ok(j, "enable_elastic_disk"@)
    &&& disk_spec_ok(j)
    &&& req_str_ok(j, "cluster_source"@)
    &&& opt_str_ok(j, "single_user_name"@)
    &&& req_bool_ok(j, "enable_local_disk_encryption"@)
    &&& match obj_get(j, "instance_source"@) {
        Some(s) => instance_source_decodable(s),
        None => false,
    }
    &&& match obj_get(j, "driver_instance_source"@) {
        Some(s) => instance_source_decodable(s),
        None => false,
    }
    &&& req_str_ok(j, "data_security_mode"@)
    &&& req_str_ok(j, "runtime_engine"@)
    &&& req_str_ok(j, "effective_spark_version"@)
    &&& req_str_ok(j, "state_message"@)
    &&& opt_i64_ok(j, "start_time"@)
    &&& opt_i64_ok(j, "terminated_time"@)
    &&& opt_i64_ok(j, "last_state_loss_time"@)
    &&& opt_i64_ok(j, "last_activity_time"@)
    &&& opt_i64_ok(j, "last_restarted_time"@)
    &&& req_i32_ok(j, "num_workers"@)
    &&& req_str_map_ok(j, "default_tags"@)
    &&& match obj_get(j, "termination_reason"@) {
        Some(t) => termination_reason_decodable(t),
        None => false,
    }
    &&& opt_str_ok(j, "pinned_by_user_name"@)
    &&& req_bool_ok(j, "init_scripts_safe_mode"@)
    &&& match obj_get(j, "spec"@) {
        Some(s) => cluster_spec_decodable(s),
        None => false,
    }
}

pub open spec fn cluster_info_decodes(j: Json, c: ClusterInfo) -> bool {
    &&& c.cluster_id@ == req_str_val(j, "cluster_id"@)
    &&& c.cluster_name@ == req_str_val(j, "cluster_name"@)
    &&& c.state@ == req_str_val(j, "state"@)
    &&& c.creator_user_name@ == req_str_val(j, "creator_user_name"@)
    &&& c.spark_context_id == opt_i64_val(j, "spark_context_id"@)
    &&& c.driver_healthy == req_bool_val(j, "driver_healthy"@)
    &&& c.spark_version@ == req_str_val(j, "spark_version"@)
    &&& req_str_map_decodes(j, "spark_conf"@, c.spark_conf@)
    &&& match obj_get(j, "azure_attributes"@) {
        Some(a) => azure_attributes_decodes(a, c.azure_attributes),
        None => false,
    }
    &&& c.node_type_id@ == req_str_val(j, "node_type_id"@)
    &&& c.driver_node_type_id@ == req_str_val(j, "driver_node_type_id"@)
    &&& req_str_map_decodes(j, "custom_tags"@, c.custom_tags@)
    &&& c.autotermination_minutes == req_i64_val(j, "autotermination_minutes"@)
    &&& c.enable_elastic_disk == req_bool_val(j, "enable_elastic_disk"@)
    &&& disk_spec_decodes(j, c.disk_spec@)
    &&& c.cluster_source@ == req_str_val(j, "cluster_source"@)
    &&& opt_str_matches(c.single_user_name, opt_str_val(j, "single_user_name"@))
    &&& c.enable_local_disk_encryption == req_bool_val(j, "enable_local_disk_encryption"@)
    &&& match obj_get(j, "instance_source"@) {
        Some(s) => instance_source_decodes(s, c.instance_source),
        None => false,
    }
    &&& match obj_get(j, "driver_instance_source"@) {
        Some(s) => instance_source_decodes(s, c.driver_instance_source),
        None => false,
    }
    &&& c.data_security_mode@ == req_str_val(j, "data_security_mode"@)
    &&& c.runtime_engine@ == req_str_val(j, "runtime_engine"@)
    &&& c.effective_spark_version@ == req_str_val(j, "effective_spark_version"@)
    &&& c.state_message@ == req_str_val(j, "state_message"@)
    &&& c.start_time == opt_i64_val(j, "start_time"@)
    &&& c.terminated_time == opt_i64_val(j, "terminated_time"@)
    &&& c.last_state_loss_time == opt_i64_val(j, "last_state_loss_time"@)
    &&& c.last_activity_time == opt_i64_val(j, "last_activity_time"@)
    &&& c.last_restarted_time == opt_i64_val(j, "last_restarted_time"@)
    &&& c.num_workers == req_i32_val(j, "num_workers"@)
    &&& req_str_map_decodes(j, "default_tags"@, c.default_tags@)
    &&& match obj_get(j, "termination_reason"@) {
        Some(t) => termination_reason_decodes(t, c.termination_reason),
        None => false,
    }
    &&& opt_str_matches(c.pinned_by_user_name, opt_str_val(j, "pinned_by_user_name"@))
    &&& c.init_scripts_safe_mode == req_bool_val(j, "init_scripts_safe_mode"@)
    &&& match obj_get(j, "spec"@) {
        Some(s) => cluster_spec_decodes(s, c.cluster_spec),
        None => false,
    }
}

pub fn decode_cluster_info(j: &Json) -> (r: Option<ClusterInfo>)
    ensures
        r is Some <==> cluster_info_decodable(*j),
        r matches Some(c) ==> cluster_info_decodes(*j, c),
{
    if !j.is_obj() {
        return None;
    }
    let cluster_id = match take_req_str(j, "cluster_id") {
        Some(v) => v,
        None => {
            return None;
        },
    };
    let cluster_name = match take_req_str(j, "cluster_name") {
        Some(v) => v,
        None => {
            return None;
        },
    };
    let state = match take_req_str(j, "state") {
        Some(v) => v,
        None => {
            return None;
        },
    };
    let creator_user_name = match take_req_str(j, "creator_user_name") {
        Some(v) => v,
        None => {
            return None;
        },
    };
    let spark_context_id = match take_opt_i64(j, "spark_context_id") {
        Some(v) => v,
        None => {
            return None;
        },
    };
    let driver_healthy = match take_req_bool(j, "driver_healthy") {
        Some(v) => v,
        None => {
            return None;
        },
    };
    let spark_version = match take_req_str(j, "spark_version") {
        Some(v) => v,
        None => {
            return None;
        },
    };
    let spark_conf = match take_req_str_map(j, "spark_conf") {
        Some(v) => v,
        None => {
            return None;
        },
    };
    let azure_attributes = match get_field(j, "azure_attributes") {
        Some(a) => match decode_azure_attributes(a) {
            Some(v) => v,
            None => {
                return None;
            },
        },
        None => {
            return None;
        },
    };
    let node_type_id = match take_req_str(j, "node_type_id") {
        Some(v) => v,
        None => {
            return None;
        },
    };
    let driver_node_type_id = match take_req_str(j, "driver_node_type_id") {
        Some(v) => v,
        None => {
            return None;
        },
    };
    let custom_tags = match take_req_str_map(j, "custom_tags") {
        Some(v) => v,
        None => {
            return None;
        },
    };
    let autotermination_minutes = match take_req_i64(j, "autotermination_minutes") {
        Some(v) => v,
        None => {
            return None;
        },
    };
    let enable_elastic_disk = match take_req_bool(j, "enable_elastic_disk") {
        Some(v) => v,
        None => {
            return None;
        },
    };
    let disk_spec: Vec<(String, String)> = match get_field(j, "disk_spec") {
        None => Vec::new(),
        Some(m) => match m {
            Json::Obj(ps) => {
                proof {
                    assert(obj_pairs(*m) == ps@);
                }
                decode_json_map_text(ps)
            },
            _ => {
                return None;
            },
        },
    };
    let cluster_source = match take_req_str(j, "cluster_source") {
        Some(v) => v,
        None => {
            return None;
        },
    };
    let single_user_name = match take_opt_str(j, "single_user_name") {
        Some(v) => v,
        None => {
            return None;
        },
    };
    let enable_local_disk_encryption = match take_req_bool(j, "enable_local_disk_encryption") {
        Some(v) => v,
        None => {
            return None;
        },
    };
    let instance_source = match get_field(j, "instance_source") {
        Some(s) => match decode_instance_source(s) {
            Some(v) => v,
            None => {
                return None;
            },
        },
        None => {
            return None;
        },
    };
    let driver_instance_source = match get_field(j, "driver_instance_source") {
        Some(s) => match decode_instance_source(s) {
            Some(v) => v,
            None => {
                return None;
            },
        },
        None => {
            return None;
        },
    };
    let data_security_mode = match take_req_str(j, "data_security_mode") {
        Some(v) => v,
        None => {
            return None;
        },
    };
    let runtime_engine = match take_req_str(j, "runtime_engine") {
        Some(v) => v,
        None => {
            return None;
        },
    };
    let effective_spark_version = match take_req_str(j, "effective_spark_version") {
        Some(v) => v,
        None => {
            return None;
        },
    };
    let state_message = match take_req_str(j, "state_message") {
        Some(v) => v,
        None => {
            return None;
        },
    };
    let start_time = match take_opt_i64(j, "start_time") {
        Some(v) => v,
        None => {
            return None;
        },
    };
    let terminated_time = match take_opt_i64(j, "terminated_time") {
        Some(v) => v,
        None => {
            return None;
        },
    };
    let last_state_loss_time = match take_opt_i64(j, "last_state_loss_time") {
        Some(v) => v,
        None => {
            return None;
        },
    };
    let last_activity_time = match take_opt_i64(j, "last_activity_time") {
        Some(v) => v,
        None => {
            return None;
        },
    };
    let last_restarted_time = match take_opt_i64(j, "last_restarted_time") {
        Some(v) => v,
        None => {
            return None;
        },
    };
    let num_workers = match take_req_i32(j, "num_workers") {
        Some(v) => v,
        None => {
            return None;
        },
    };
    let default_tags = match take_req_str_map(j, "default_tags") {
        Some(v) => v,
        None => {
            return None;
        },
    };
    let termination_reason = match get_field(j, "termination_reason") {
        Some(t) => match decode_termination_reason(t) {
            Some(v) => v,
            None => {
                return None;
            },
        },
        None => {
            return None;
        },
    };
    let pinned_by_user_name = match take_opt_str(j, "pinned_by_user_name") {
        Some(v) => v,
        None => {
            return None;
        },
    };
    let init_scripts_safe_mode = match take_req_bool(j, "init_scripts_safe_mode") {
        Some(v) => v,
        None => {
            return None;
        },
    };
    let cluster_spec = match get_field(j, "spec") {
        Some(s) => match decode_cluster_spec(s) {
            Some(v) => v,
            None => {
                return None;
            },
        },
        None => {
            return None;
        },
    };
    Some(
        ClusterInfo {
            cluster_id,
            cluster_name,
            state,
            creator_user_name,
            spark_context_id,
            driver_healthy,
            spark_version,
            spark_conf,
            azure_attributes,
            node_type_id,
            driver_node_type_id,
            custom_tags,
            autotermination_minutes,
            enable_elastic_disk,
            disk_spec,
            cluster_source,
            single_user_name,
            enable_local_disk_encryption,
            instance_source,
            driver_instance_source,
            data_security_mode,
            runtime_engine,
            effective_spark_version,
            state_message,
            start_time,
            terminated_time,
            last_state_loss_time,
            last_activity_time,
            last_restarted_time,
            num_workers,
            default_tags,
            termination_reason,
            pinned_by_user_name,
            init_scripts_safe_mode,
            cluster_spec,
        },
    )
}

// ---------------------------------------------------------------------------
// Rendering the descriptor as human-readable text, line by line. An
// optional field renders only when present.
// ---------------------------------------------------------------------------

pub open spec fn bool_text(b: bool) -> Seq<char> {
    if b {
        "true"@
    } else {
        "false"@
    }
}

fn bool_str(b: bool) -> (r: &'static str)
    ensures
        r@ == bool_text(b),
{
    if b {
        "true"
    } else {
        "false"
    }
}

pub open spec fn line_of(label: Seq<char>, value: Seq<char>) -> Seq<char> {
    label + value + "\n"@
}

pub open spec fn opt_line(label: Seq<char>, v: Option<String>) -> Seq<char> {
    match v {
        Some(s) => line_of(label, s@),
        None => Seq::empty(),
    }
}

pub open spec fn opt_num_line(label: Seq<char>, v: Option<i64>) -> Seq<char> {
    match v {
        Some(n) => line_of(label, spec_dec_int(n as int)),
        None => Seq::empty(),
    }
}

/// One indented `key: value` line per entry, in order.
pub open spec fn tag_lines(indent: Seq<char>, entries: Seq<(String, String)>) -> Seq<char>
    decreases entries.len(),
{
    if entries.len() == 0 {
        Seq::empty()
    } else {
        tag_lines(indent, entries.drop_last()) + indent + entries.last().0@ + ": "@
            + entries.last().1@ + "\n"@
    }
}

fn push_line(out: &mut String, label: &str, value: &str)
    ensures
        final(out)@ == old(out)@ + line_of(label@, value@),
{
    out.append(label);
    out.append(value);
    out.append("\n");
}

fn push_opt_line(out: &mut String, label: &str, v: &Option<String>)
    ensures
        final(out)@ == old(out)@ + opt_line(label@, *v),
{
    match v {
        Some(s) => push_line(out, label, s.as_str()),
        None => (),
    }
}

fn push_opt_num_line(out: &mut String, label: &str, v: &Option<i64>)
    ensures
        final(out)@ == old(out)@ + opt_num_line(label@, *v),
{
    match v {
        Some(n) => push_line(out, label, i64_to_dec(*n).as_str()),
        None => (),
    }
}

fn push_tag_lines(out: &mut String, indent: &str, entries: &Vec<(String, String)>)
    ensures
        final(out)@ == old(out)@ + tag_lines(indent@, entries@),
{
    let ghost base: Seq<char> = out@;
    proof {
        assert(entries@.take(0) =~= Seq::<(String, String)>::empty());
        assert(base + tag_lines(indent@, entries@.take(0)) =~= base);
    }
    let mut i: usize = 0;
    while i < entries.len()
        invariant
            i <= entries@.len(),
            base == old(out)@,
            out@ == base + tag_lines(indent@, entries@.take(i as int)),
        decreases entries@.len() - i,
    {
        out.append(indent);
        out.append(entries[i].0.as_str());
        out.append(": ");
        out.append(entries[i].1.as_str());
        out.append("\n");
        proof {
            assert(entries@.take(i as int + 1).drop_last() =~= entries@.take(i as int));
            assert(entries@.take(i as int + 1).last() == entries@[i as int]);
            assert(out@ =~= base + tag_lines(indent@, entries@.take(i as int + 1)));
        }
        i += 1;
    }
    proof {
        assert(entries@.take(entries@.len() as int) =~= entries@);
    }
}

/// The full text of a descriptor, in the order the fields are listed.
pub open spec fn cluster_info_text(c: ClusterInfo) -> Seq<char> {
    Seq::<char>::empty() + line_of("Cluster Information:"@, ""@) + line_of(
        "  ID: "@,
        c.cluster_id@,
    ) + line_of("  Name: "@, c.cluster_name@) + line_of("  State: "@, c.state@) + line_of(
        "  Created by: "@,
        c.creator_user_name@,
    ) + line_of("  Spark Version: "@, c.spark_version@) + line_of("  Spark Configuration:"@, ""@)
        + tag_lines("    "@, c.spark_conf@) + line_of("  Azure Attributes:"@, ""@) + line_of(
        "    First On Demand: "@,
        spec_dec_int(c.azure_attributes.first_on_demand as int),
    ) + line_of("    Availability: "@, c.azure_attributes.availability@) + line_of(
        "    Spot Bid Max Price: "@,
        c.azure_attributes.spot_bid_max_price@,
    ) + line_of("  Node Type ID: "@, c.node_type_id@) + line_of(
        "  Driver Node Type ID: "@,
        c.driver_node_type_id@,
    ) + line_of("  Custom Tags:"@, ""@) + tag_lines("    "@, c.custom_tags@) + line_of(
        "  Autotermination Minutes: "@,
        spec_dec_int(c.autotermination_minutes as int),
    ) + line_of("  Enable Elastic Disk: "@, bool_text(c.enable_elastic_disk)) + line_of(
        "  Disk Specification:"@,
        ""@,
    ) + tag_lines("    "@, c.disk_spec@) + line_of("  Cluster Source: "@, c.cluster_source@)
        + opt_line("  Single User Name: "@, c.single_user_name) + line_of(
        "  Enable Local Disk Encryption: "@,
        bool_text(c.enable_local_disk_encryption),
    ) + line_of("  Instance Source Node Type ID: "@, c.instance_source.node_type_id@) + line_of(
        "  Driver Instance Source Node Type ID: "@,
        c.driver_instance_source.node_type_id@,
    ) + line_of("  Data Security Mode: "@, c.data_security_mode@) + line_of(
        "  Runtime Engine: "@,
        c.runtime_engine@,
    ) + line_of("  Effective Spark Version: "@, c.effective_spark_version@) + line_of(
        "  State Message: "@,
        c.state_message@,
    ) + opt_num_line("  Start Time: "@, c.start_time) + opt_num_line(
        "  Terminated Time: "@,
        c.terminated_time,
    ) + opt_num_line("  Last State Loss Time: "@, c.last_state_loss_time) + opt_num_line(
        "  Last Activity Time: "@,
        c.last_activity_time,
    ) + opt_num_line("  Last Restarted Time: "@, c.last_restarted_time) + line_of(
        "  Number of Workers: "@,
        spec_dec_int(c.num_workers as int),
    ) + line_of("  Default Tags:"@, ""@) + tag_lines("    "@, c.default_tags@) + line_of(
        "  Termination Reason:"@,
        ""@,
    ) + line_of("    Code: "@, c.termination_reason.code@) + line_of(
        "    Type: "@,
        c.termination_reason.type_field@,
    ) + line_of("    Parameters:"@, ""@) + tag_lines("      "@, c.termination_reason.parameters@)
        + opt_line("  Pinned By User Name: "@, c.pinned_by_user_name) + line_of(
        "  Init Scripts Safe Mode: "@,
        bool_text(c.init_scripts_safe_mode),
    ) + line_of("  Cluster Specification:"@, ""@) + line_of(
        "    Cluster Name: "@,
        c.cluster_spec.cluster_name@,
    ) + line_of("    Spark Version: "@, c.cluster_spec.spark_version@) + line_of(
        "    Node Type ID: "@,
        c.cluster_spec.node_type_id@,
    ) + line_of("    Driver Node Type ID: "@, c.cluster_spec.driver_node_type_id@) + line_of(
        "    Autotermination Minutes: "@,
        spec_dec_int(c.cluster_spec.autotermination_minutes as int),
    ) + line_of("    Enable Elastic Disk: "@, bool_text(c.cluster_spec.enable_elastic_disk))
        + line_of("    Number of Workers: "@, spec_dec_int(c.cluster_spec.num_workers as int))
        + opt_line("    Single User Name: "@, c.cluster_spec.single_user_name) + line_of(
        "    Enable Local Disk Encryption: "@,
        bool_text(c.cluster_spec.enable_local_disk_encryption),
    ) + line_of("    Data Security Mode: "@, c.cluster_spec.data_security_mode@) + line_of(
        "    Runtime Engine: "@,
        c.cluster_spec.runtime_engine@,
    )
}

impl ClusterInfo {
    /// Writes the descriptor as human-readable text, field by field in
    /// declaration order, with an optional field only when present.
    #[verifier::rlimit(60)]
    pub fn render(&self) -> (s: String)
        ensures
            s@ == cluster_info_text(*self),
    {
        let mut out = String::new();
        push_line(&mut out, "Cluster Information:", "");
        push_line(&mut out, "  ID: ", self.cluster_id.as_str());
        push_line(&mut out, "  Name: ", self.cluster_name.as_str());
        push_line(&mut out, "  State: ", self.state.as_str());
        push_line(&mut out, "  Created by: ", self.creator_user_name.as_str());
        push_line(&mut out, "  Spark Version: ", self.spark_version.as_str());
        push_line(&mut out, "  Spark Configuration:", "");
        push_tag_lines(&mut out, "    ", &self.spark_conf);
        push_line(&mut out, "  Azure Attributes:", "");
        push_line(
            &mut out,
            "    First On Demand: ",
            i64_to_dec(self.azure_attributes.first_on_demand as i64).as_str(),
        );
        push_line(&mut out, "    Availability: ", self.azure_attributes.availability.as_str());
        push_line(
            &mut out,
            "    Spot Bid Max Price: ",
            self.azure_attributes.spot_bid_max_price.as_str(),
        );
        push_line(&mut out, "  Node Type ID: ", self.node_type_id.as_str());
        push_line(&mut out, "  Driver Node Type ID: ", self.driver_node_type_id.as_str());
        push_line(&mut out, "  Custom Tags:", "");
        push_tag_lines(&mut out, "    ", &self.custom_tags);
        push_line(
            &mut out,
            "  Autotermination Minutes: ",
            i64_to_dec(self.autotermination_minutes).as_str(),
        );
        push_line(&mut out, "  Enable Elastic Disk: ", bool_str(self.enable_elastic_disk));
        push_line(&mut out, "  Disk Specification:", "");
        push_tag_lines(&mut out, "    ", &self.disk_spec);
        push_line(&mut out, "  Cluster Source: ", self.cluster_source.as_str());
        push_opt_line(&mut out, "  Single User Name: ", &self.single_user_name);
        push_line(
            &mut out,
            "  Enable Local Disk Encryption: ",
            bool_str(self.enable_local_disk_encryption),
        );
        push_line(
            &mut out,
            "  Instance Source Node Type ID: ",
            self.instance_source.node_type_id.as_str(),
        );
        push_line(
            &mut out,
            "  Driver Instance Source Node Type ID: ",
            self.driver_instance_source.node_type_id.as_str(),
        );
        push_line(&mut out, "  Data Security Mode: ", self.data_security_mode.as_str());
        push_line(&mut out, "  Runtime Engine: ", self.runtime_engine.as_str());
        push_line(
            &mut out,
            "  Effective Spark Version: ",
            self.effective_spark_version.as_str(),
        );
        push_line(&mut out, "  State Message: ", self.state_message.as_str());
        push_opt_num_line(&mut out, "  Start Time: ", &self.start_time);
        push_opt_num_line(&mut out, "  Terminated Time: ", &self.terminated_time);
        push_opt_num_line(&mut out, "  Last State Loss Time: ", &self.last_state_loss_time);
        push_opt_num_line(&mut out, "  Last Activity Time: ", &self.last_activity_time);
        push_opt_num_line(&mut out, "  Last Restarted Time: ", &self.last_restarted_time);
        push_line(&mut out, "  Number of Workers: ", i64_to_dec(self.num_workers as i64).as_str());
        push_line(&mut out, "  Default Tags:", "");
        push_tag_lines(&mut out, "    ", &self.default_tags);
        push_line(&mut out, "  Termination Reason:", "");
        push_line(&mut out, "    Code: ", self.termination_reason.code.as_str());
        push_line(&mut out, "    Type: ", self.termination_reason.type_field.as_str());
        push_line(&mut out, "    Parameters:", "");
        push_tag_lines(&mut out, "      ", &self.termination_reason.parameters);
        push_opt_line(&mut out, "  Pinned By User Name: ", &self.pinned_by_user_name);
        push_line(&mut out, "  Init Scripts Safe Mode: ", bool_str(self.init_scripts_safe_mode));
        push_line(&mut out, "  Cluster Specification:", "");
        push_line(&mut out, "    Cluster Name: ", self.cluster_spec.cluster_name.as_str());
        push_line(&mut out, "    Spark Version: ", self.cluster_spec.spark_version.as_str());
        push_line(&mut out, "    Node Type ID: ", self.cluster_spec.node_type_id.as_str());
        push_line(
            &mut out,
            "    Driver Node Type ID: ",
            self.cluster_spec.driver_node_type_id.as_str(),
        );
        push_line(
            &mut out,
            "    Autotermination Minutes: ",
            i64_to_dec(self.cluster_spec.autotermination_minutes).as_str(),
        );
        push_line(
            &mut out,
            "    Enable Elastic Disk: ",
            bool_str(self.cluster_spec.enable_elastic_disk),
        );
        push_line(
            &mut out,
            "    Number of Workers: ",
            i64_to_dec(self.cluster_spec.num_workers as i64).as_str(),
        );
        push_opt_line(&mut out, "    Single User Name: ", &self.cluster_spec.single_user_name);
        push_line(
            &mut out,
            "    Enable Local Disk Encryption: ",
            bool_str(self.cluster_spec.enable_local_disk_encryption),
        );
        push_line(
            &mut out,
            "    Data Security Mode: ",
            self.cluster_spec.data_security_mode.as_str(),
        );
        push_line(&mut out, "    Runtime Engine: ", self.cluster_spec.runtime_engine.as_str());
        out
    }
}

} // verus!
