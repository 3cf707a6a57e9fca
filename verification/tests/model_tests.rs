use rustbricks::json::Json;
use rustbricks::jsontext::{parse_json, render_json};
use rustbricks::numfmt::{u64_to_dec, i64_to_dec};
use rustbricks::sql_statement::{
    decode_external_link, decode_manifest, decode_result_data, decode_statement_status,
    is_terminal_state, ResultData, SqlParameter, SqlStatementRequest,
};
use rustbricks::cluster_info::decode_cluster_info;
use rustbricks::job_run_info::{decode_job_run_response, JobRunRequest, QueueSettings};

fn parse(text: &str) -> Json {
    parse_json(text).expect("fixture text must be valid JSON")
}

#[test]
fn inline_result_serialization_omits_external_links_key() {
    let rd = ResultData {
        data_array: Some(vec![vec![Some("a".to_string()), None], vec![Some("b".to_string())]]),
        external_links: None,
    };
    let text = render_json(&rd.to_json());
    let value: serde_json::Value = serde_json::from_str(&text).unwrap();
    let obj = value.as_object().unwrap();
    assert!(obj.contains_key("data_array"));
    assert!(!obj.contains_key("external_links"));
    assert!(!text.contains("external_links"));
    assert_eq!(value["data_array"][0][0], serde_json::Value::String("a".to_string()));
    assert_eq!(value["data_array"][0][1], serde_json::Value::Null);
}

#[test]
fn empty_result_serializes_to_empty_object() {
    let rd = ResultData { data_array: None, external_links: None };
    assert_eq!(render_json(&rd.to_json()), "{}");
}

#[test]
fn external_link_with_null_expiration_reads_as_not_present() {
    let j = parse(
        "{\"chunk_index\":0,\"row_offset\":0,\"row_count\":1,\"byte_count\":10,\
         \"external_link\":\"https://signed.example\",\"expiration\":null}",
    );
    let link = decode_external_link(&j).expect("null expiration must decode");
    assert_eq!(link.expiration, None);
    assert_eq!(link.external_link, "https://signed.example");
}

#[test]
fn external_link_with_unparsable_expiration_fails_to_decode() {
    let j = parse(
        "{\"chunk_index\":0,\"row_offset\":0,\"row_count\":1,\"byte_count\":10,\
         \"external_link\":\"https://signed.example\",\"expiration\":\"not-a-date\"}",
    );
    assert!(decode_external_link(&j).is_none());
}

#[test]
fn external_link_with_valid_expiration_reads_the_instant() {
    let j = parse(
        "{\"chunk_index\":0,\"row_offset\":0,\"row_count\":1,\"byte_count\":10,\
         \"external_link\":\"https://signed.example\",\"expiration\":\"2024-01-01T00:00:00Z\"}",
    );
    let link = decode_external_link(&j).expect("valid expiration must decode");
    assert_eq!(link.expiration, Some(1704067200000));
}

#[test]
fn external_link_with_missing_expiration_fails_to_decode() {
    let j = parse(
        "{\"chunk_index\":0,\"row_offset\":0,\"row_count\":1,\"byte_count\":10,\
         \"external_link\":\"https://signed.example\"}",
    );
    assert!(decode_external_link(&j).is_none());
}

#[test]
fn external_link_writes_expiration_back_as_rfc3339() {
    let j = parse(
        "{\"chunk_index\":0,\"row_offset\":0,\"row_count\":1,\"byte_count\":10,\
         \"external_link\":\"https://signed.example\",\"expiration\":\"2024-01-01T00:00:00Z\"}",
    );
    let link = decode_external_link(&j).unwrap();
    let text = render_json(&link.to_json());
    let value: serde_json::Value = serde_json::from_str(&text).unwrap();
    assert_eq!(value["expiration"], serde_json::Value::String("2024-01-01T00:00:00+00:00".into()));
    let obj = value.as_object().unwrap();
    assert!(!obj.contains_key("next_chunk_index"));
    assert!(!obj.contains_key("next_chunk_internal_link"));
}

#[test]
fn manifest_without_chunks_key_reads_as_empty_list() {
    let j = parse(
        "{\"format\":\"JSON_ARRAY\",\"total_chunk_count\":0,\"total_row_count\":0,\
         \"truncated\":false}",
    );
    let m = decode_manifest(&j).expect("a manifest without chunks must decode");
    assert!(m.chunks.is_empty());
    assert_eq!(m.format, "JSON_ARRAY");
    assert_eq!(m.total_byte_count, None);
}

#[test]
fn manifest_with_chunks_reads_each_chunk() {
    let j = parse(
        "{\"format\":\"JSON_ARRAY\",\"schema\":{\"columns\":[{\"name\":\"id\",\
         \"type_name\":\"LONG\",\"position\":0}]},\"chunks\":[{\"chunk_index\":0,\
         \"row_offset\":0,\"row_count\":7,\"next_chunk_index\":1,\
         \"next_chunk_internal_link\":\"/next\"}],\"total_chunk_count\":2,\
         \"total_row_count\":9,\"total_byte_count\":512,\"truncated\":true}",
    );
    let m = decode_manifest(&j).unwrap();
    assert_eq!(m.chunks.len(), 1);
    assert_eq!(m.chunks[0].row_count, 7);
    assert_eq!(m.chunks[0].byte_count, None);
    assert_eq!(m.chunks[0].next_chunk_index, Some(1));
    assert_eq!(m.chunks[0].next_chunk_internal_link.as_deref(), Some("/next"));
    let schema = m.schema.unwrap();
    assert_eq!(schema.columns.len(), 1);
    assert_eq!(schema.columns[0].name, "id");
    assert_eq!(schema.columns[0].data_type, "LONG");
    assert_eq!(schema.columns[0].position, 0);
    assert_eq!(m.total_chunk_count, 2);
    assert_eq!(m.total_row_count, 9);
    assert_eq!(m.total_byte_count, Some(512));
    assert!(m.truncated);
}

#[test]
fn result_data_reads_nullable_cells() {
    let j = parse("{\"data_array\":[[\"1\",null],[null,\"2\"]]}");
    let rd = decode_result_data(&j).unwrap();
    let rows = rd.data_array.unwrap();
    assert_eq!(rows.len(), 2);
    assert_eq!(rows[0][0].as_deref(), Some("1"));
    assert_eq!(rows[0][1], None);
    assert_eq!(rows[1][1].as_deref(), Some("2"));
    assert!(rd.external_links.is_none());
}

#[test]
fn result_data_rejects_numeric_cells() {
    let j = parse("{\"data_array\":[[1]]}");
    assert!(decode_result_data(&j).is_none());
}

#[test]
fn statement_status_reads_structured_error() {
    let j = parse(
        "{\"state\":\"FAILED\",\"error\":{\"error_code\":\"BAD_REQUEST\",\
         \"message\":\"bad sql\"}}",
    );
    let s = decode_statement_status(&j).unwrap();
    assert_eq!(s.state, "FAILED");
    let e = s.error.unwrap();
    assert_eq!(e.error_code.as_deref(), Some("BAD_REQUEST"));
    assert_eq!(e.message.as_deref(), Some("bad sql"));
}

#[test]
fn terminal_states_are_exactly_the_four() {
    for s in ["SUCCEEDED", "FAILED", "CANCELED", "CLOSED"] {
        assert!(is_terminal_state(s));
    }
    for s in ["PENDING", "RUNNING", "", "succeeded"] {
        assert!(!is_terminal_state(s));
    }
}

#[test]
fn sql_statement_request_writes_every_field() {
    let request = SqlStatementRequest {
        statement: "SELECT * FROM range(10)".to_string(),
        warehouse_id: "abcdefg123456789".to_string(),
        catalog: None,
        schema: None,
        parameters: Some(vec![SqlParameter {
            name: "p1".to_string(),
            value: Some("7".to_string()),
            sql_type: Some("INT".to_string()),
        }]),
        row_limit: Some(100),
        byte_limit: None,
        disposition: "INLINE".to_string(),
        format: "JSON_ARRAY".to_string(),
        wait_timeout: Some("10s".to_string()),
        on_wait_timeout: Some("CONTINUE".to_string()),
    };
    let text = render_json(&request.to_json());
    let value: serde_json::Value = serde_json::from_str(&text).unwrap();
    let obj = value.as_object().unwrap();
    assert_eq!(obj.len(), 11);
    assert_eq!(value["statement"], "SELECT * FROM range(10)");
    assert_eq!(value["warehouse_id"], "abcdefg123456789");
    assert_eq!(value["catalog"], serde_json::Value::Null);
    assert_eq!(value["row_limit"], 100);
    assert_eq!(value["byte_limit"], serde_json::Value::Null);
    assert_eq!(value["disposition"], "INLINE");
    assert_eq!(value["format"], "JSON_ARRAY");
    assert_eq!(value["wait_timeout"], "10s");
    assert_eq!(value["on_wait_timeout"], "CONTINUE");
    assert_eq!(value["parameters"][0]["name"], "p1");
    assert_eq!(value["parameters"][0]["value"], "7");
    assert_eq!(value["parameters"][0]["type"], "INT");
}

#[test]
fn job_run_request_writes_every_field() {
    let request = JobRunRequest {
        job_id: 42,
        idempotency_token: Some("token-1".to_string()),
        queue: Some(QueueSettings { enabled: true }),
        jar_params: None,
        notebook_params: Some(vec![("k".to_string(), "v".to_string())]),
        python_params: Some(vec!["a".to_string(), "b".to_string()]),
        spark_submit_params: None,
        python_named_params: None,
        pipeline_params: Some(vec![("full_refresh".to_string(), true)]),
        sql_params: None,
        dbt_commands: None,
        job_parameters: None,
    };
    let text = render_json(&request.to_json());
    let value: serde_json::Value = serde_json::from_str(&text).unwrap();
    let obj = value.as_object().unwrap();
    assert_eq!(obj.len(), 12);
    assert_eq!(value["job_id"], 42);
    assert_eq!(value["idempotency_token"], "token-1");
    assert_eq!(value["queue"]["enabled"], true);
    assert_eq!(value["jar_params"], serde_json::Value::Null);
    assert_eq!(value["notebook_params"]["k"], "v");
    assert_eq!(value["python_params"][1], "b");
    assert_eq!(value["pipeline_params"]["full_refresh"], true);
}

#[test]
fn job_run_response_reads_run_identifiers() {
    let j = parse("{\"run_id\":99,\"number_in_job\":3}");
    let r = decode_job_run_response(&j).unwrap();
    assert_eq!(r.run_id, 99);
    assert_eq!(r.number_in_job, Some(3));

    let j = parse("{\"run_id\":99}");
    let r = decode_job_run_response(&j).unwrap();
    assert_eq!(r.number_in_job, None);

    let j = parse("{\"number_in_job\":3}");
    assert!(decode_job_run_response(&j).is_none());
}

fn cluster_fixture() -> String {
    let azure = "{\"first_on_demand\":1,\"availability\":\"SPOT_WITH_FALLBACK_AZURE\",\
                 \"spot_bid_max_price\":-1.0}";
    format!(
        "{{\"cluster_id\":\"c-1\",\"cluster_name\":\"etl\",\"state\":\"RUNNING\",\
         \"creator_user_name\":\"sam\",\"spark_context_id\":12345,\"driver_healthy\":true,\
         \"spark_version\":\"13.3.x\",\"spark_conf\":{{\"spark.a\":\"1\"}},\
         \"azure_attributes\":{azure},\"node_type_id\":\"n1\",\"driver_node_type_id\":\"n2\",\
         \"custom_tags\":{{\"team\":\"data\"}},\"autotermination_minutes\":60,\
         \"enable_elastic_disk\":false,\"cluster_source\":\"UI\",\
         \"enable_local_disk_encryption\":false,\
         \"instance_source\":{{\"node_type_id\":\"n1\"}},\
         \"driver_instance_source\":{{\"node_type_id\":\"n2\"}},\
         \"data_security_mode\":\"SINGLE_USER\",\"runtime_engine\":\"STANDARD\",\
         \"effective_spark_version\":\"13.3.x-scala2.12\",\"state_message\":\"ok\",\
         \"start_time\":1700000000000,\"num_workers\":4,\
         \"default_tags\":{{\"Vendor\":\"x\"}},\
         \"termination_reason\":{{\"code\":\"USER_REQUEST\",\"type\":\"SUCCESS\",\
         \"parameters\":{{\"username\":\"sam\"}}}},\"init_scripts_safe_mode\":false,\
         \"spec\":{{\"cluster_name\":\"etl\",\"spark_version\":\"13.3.x\",\
         \"spark_conf\":{{}},\"azure_attributes\":{azure},\"node_type_id\":\"n1\",\
         \"driver_node_type_id\":\"n2\",\"custom_tags\":{{}},\
         \"autotermination_minutes\":60,\"enable_elastic_disk\":false,\
         \"enable_local_disk_encryption\":false,\"data_security_mode\":\"SINGLE_USER\",\
         \"runtime_engine\":\"STANDARD\",\"num_workers\":4}}}}"
    )
}

#[test]
fn cluster_info_reads_the_full_descriptor() {
    let j = parse(&cluster_fixture());
    let c = decode_cluster_info(&j).expect("the cluster fixture must decode");
    assert_eq!(c.cluster_id, "c-1");
    assert_eq!(c.state, "RUNNING");
    assert_eq!(c.spark_context_id, Some(12345));
    assert_eq!(c.spark_conf, vec![("spark.a".to_string(), "1".to_string())]);
    assert_eq!(c.azure_attributes.first_on_demand, 1);
    assert_eq!(c.azure_attributes.spot_bid_max_price, "-1.0");
    assert_eq!(c.disk_spec, Vec::<(String, String)>::new());
    assert_eq!(c.single_user_name, None);
    assert_eq!(c.start_time, Some(1700000000000));
    assert_eq!(c.terminated_time, None);
    assert_eq!(c.termination_reason.code, "USER_REQUEST");
    assert_eq!(c.termination_reason.type_field, "SUCCESS");
    assert_eq!(
        c.termination_reason.parameters,
        vec![("username".to_string(), "sam".to_string())]
    );
    assert_eq!(c.cluster_spec.num_workers, 4);
    assert_eq!(c.instance_source.node_type_id, "n1");
    assert_eq!(c.driver_instance_source.node_type_id, "n2");
}

#[test]
fn cluster_info_missing_required_field_fails_to_decode() {
    let fixture = cluster_fixture().replace("\"cluster_id\":\"c-1\",", "");
    let j = parse(&fixture);
    assert!(decode_cluster_info(&j).is_none());
}

#[test]
fn decimal_formatting_writes_exact_numerals() {
    assert_eq!(u64_to_dec(0), "0");
    assert_eq!(u64_to_dec(7), "7");
    assert_eq!(u64_to_dec(10), "10");
    assert_eq!(u64_to_dec(509), "509");
    assert_eq!(u64_to_dec(u64::MAX), "18446744073709551615");
    assert_eq!(i64_to_dec(0), "0");
    assert_eq!(i64_to_dec(-42), "-42");
    assert_eq!(i64_to_dec(i64::MIN), "-9223372036854775808");
}

#[test]
fn json_text_round_trips_through_the_tree() {
    let j = parse("{\"a\":[1,null,\"x\"],\"b\":{\"c\":true}}");
    let text = render_json(&j);
    let v: serde_json::Value = serde_json::from_str(&text).unwrap();
    assert_eq!(v["a"][0], 1);
    assert_eq!(v["a"][1], serde_json::Value::Null);
    assert_eq!(v["a"][2], "x");
    assert_eq!(v["b"]["c"], true);
}

#[test]
fn cluster_info_renders_field_by_field() {
    let j = parse(&cluster_fixture());
    let c = decode_cluster_info(&j).unwrap();
    let expected = [
        "Cluster Information:",
        "  ID: c-1",
        "  Name: etl",
        "  State: RUNNING",
        "  Created by: sam",
        "  Spark Version: 13.3.x",
        "  Spark Configuration:",
        "    spark.a: 1",
        "  Azure Attributes:",
        "    First On Demand: 1",
        "    Availability: SPOT_WITH_FALLBACK_AZURE",
        "    Spot Bid Max Price: -1.0",
        "  Node Type ID: n1",
        "  Driver Node Type ID: n2",
        "  Custom Tags:",
        "    team: data",
        "  Autotermination Minutes: 60",
        "  Enable Elastic Disk: false",
        "  Disk Specification:",
        "  Cluster Source: UI",
        "  Enable Local Disk Encryption: false",
        "  Instance Source Node Type ID: n1",
        "  Driver Instance Source Node Type ID: n2",
        "  Data Security Mode: SINGLE_USER",
        "  Runtime Engine: STANDARD",
        "  Effective Spark Version: 13.3.x-scala2.12",
        "  State Message: ok",
        "  Start Time: 1700000000000",
        "  Number of Workers: 4",
        "  Default Tags:",
        "    Vendor: x",
        "  Termination Reason:",
        "    Code: USER_REQUEST",
        "    Type: SUCCESS",
        "    Parameters:",
        "      username: sam",
        "  Init Scripts Safe Mode: false",
        "  Cluster Specification:",
        "    Cluster Name: etl",
        "    Spark Version: 13.3.x",
        "    Node Type ID: n1",
        "    Driver Node Type ID: n2",
        "    Autotermination Minutes: 60",
        "    Enable Elastic Disk: false",
        "    Number of Workers: 4",
        "    Enable Local Disk Encryption: false",
        "    Data Security Mode: SINGLE_USER",
        "    Runtime Engine: STANDARD",
    ]
    .join("\n")
        + "\n";
    assert_eq!(c.render(), expected);
}
