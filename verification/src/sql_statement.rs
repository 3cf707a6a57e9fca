use vstd::prelude::*;
use vstd::string::StringExecFns;
use crate::json::{
    arr_items, lookup_pairs, obj_has_key, opt_str_json, opt_str_to_json, opt_i64_json,
    opt_i64_to_json,
    Json, obj_get, get_field, take_req_str, take_opt_str, take_req_i64, take_opt_i64, take_req_i32,
    take_opt_i32, take_req_bool, req_str_ok, req_str_val, opt_str_ok, opt_str_val, req_i64_ok,
    req_i64_val, opt_i64_ok, opt_i64_val, req_i32_ok, req_i32_val, opt_i32_ok, opt_i32_val,
    req_bool_ok, req_bool_val,
};
use crate::datetime::{parse_datetime_utc, utc_epoch_millis_of, format_datetime_utc, rfc3339_text_of};

verus! {

/// A SQL statement to submit for execution. Disposition and format are
/// free text constrained by the remote contract to `INLINE` |
/// `EXTERNAL_LINKS` and `JSON_ARRAY` | `ARROW_STREAM` | `CSV`; validation
/// is left to the remote service.
#[derive(Debug)]
pub struct SqlStatementRequest {
    pub statement: String,
    pub warehouse_id: String,
    pub catalog: Option<String>,
    pub schema: Option<String>,
    pub parameters: Option<Vec<SqlParameter>>,
    pub row_limit: Option<i64>,
    pub byte_limit: Option<i64>,
    pub disposition: String,
    pub format: String,
    pub wait_timeout: Option<String>,
    pub on_wait_timeout: Option<String>,
}

/// One named statement parameter; its type tag travels under the wire
/// field `type`.
#[derive(Debug)]
pub struct SqlParameter {
    pub name: String,
    pub value: Option<String>,
    pub sql_type: Option<String>,
}

/// The response to submitting or polling a statement. Shape varies by
/// disposition, format and lifecycle state, so almost every field is
/// optional.
#[derive(Debug)]
pub struct SqlStatementResponse {
    pub statement_id: Option<String>,
    pub status: Option<StatementStatus>,
    pub manifest: Option<Manifest>,
    pub result: Option<ResultData>,
    pub external_links: Option<Vec<ExternalLink>>,
    pub error: Option<String>,
}

/// The statement's lifecycle state, with the structured error that is
/// authoritative in a non-success terminal state.
#[derive(Debug)]
pub struct StatementStatus {
    pub state: String,
    pub error: Option<ErrorResponse>,
}

/// The structured error a statement's status may carry; both fields may
/// be absent.
#[derive(Debug)]
pub struct ErrorResponse {
    pub error_code: Option<String>,
    pub message: Option<String>,
}

/// Describes a finished result set: schema, chunk metadata and totals.
#[derive(Debug)]
pub struct Manifest {
    pub format: String,
    pub schema: Option<Schema>,
    pub chunks: Vec<ChunkMetadata>,
    pub total_chunk_count: i32,
    pub total_row_count: i64,
    pub total_byte_count: Option<i64>,
    pub truncated: bool,
}

#[derive(Debug)]
pub struct Schema {
    pub columns: Vec<ColumnDescription>,
}

/// One column of a result schema; the type travels under the wire field
/// `type_name`.
#[derive(Debug)]
pub struct ColumnDescription {
    pub name: String,
    pub data_type: String,
    pub position: i32,
}

/// One page of a paginated result set.
#[derive(Debug)]
pub struct ChunkMetadata {
    pub chunk_index: i32,
    pub row_offset: i64,
    pub row_count: i64,
    pub byte_count: Option<i64>,
    pub next_chunk_index: Option<i32>,
    pub next_chunk_internal_link: Option<String>,
}

/// Either an inline two-dimensional array of nullable text cells, or a
/// list of external links — never required to carry both. A field that is
/// not present is omitted entirely when the value is written back out.
#[derive(Debug)]
pub struct ResultData {
    pub data_array: Option<Vec<Vec<Option<String>>>>,
    pub external_links: Option<Vec<ExternalLink>>,
}

/// One externally delivered result page: a signed URL and its expiration
/// instant, held in milliseconds since the Unix epoch.
#[derive(Debug)]
pub struct ExternalLink {
    pub chunk_index: i32,
    pub row_offset: i64,
    pub row_count: i64,
    pub byte_count: i64,
    pub next_chunk_index: Option<i32>,
    pub next_chunk_internal_link: Option<String>,
    pub external_link: String,
    pub expiration: Option<i64>,
}

// ---------------------------------------------------------------------------
// Reading the remote JSON shapes. For each type, `..._decodable` says on
// exactly which documents the read succeeds and `..._decodes` pins every
// field of the value it yields.
// ---------------------------------------------------------------------------

pub open spec fn opt_str_matches(o: Option<String>, v: Option<Seq<char>>) -> bool {
    match o {
        Some(s) => v == Some(s@),
        None => v is None,
    }
}

pub open spec fn statement_error_decodable(j: Json) -> bool {
    &&& j is Obj
    &&& opt_str_ok(j, "error_code"@)
    &&& opt_str_ok(j, "message"@)
}

pub open spec fn statement_error_decodes(j: Json, e: ErrorResponse) -> bool {
    &&& opt_str_matches(e.error_code, opt_str_val(j, "error_code"@))
    &&& opt_str_matches(e.message, opt_str_val(j, "message"@))
}

pub fn decode_statement_error(j: &Json) -> (r: Option<ErrorResponse>)
    ensures
        r is Some <==> statement_error_decodable(*j),
        r matches Some(e) ==> statement_error_decodes(*j, e),
{
    if !j.is_obj() {
        return None;
    }
    let error_code = match take_opt_str(j, "error_code") {
        Some(v) => v,
        None => {
            return None;
        },
    };
    let message = match take_opt_str(j, "message") {
        Some(v) => v,
        None => {
            return None;
        },
    };
    Some(ErrorResponse { error_code, message })
}

pub open spec fn status_decodable(j: Json) -> bool {
    &&& j is Obj
    &&& req_str_ok(j, "state"@)
    &&& match obj_get(j, "error"@) {
        None => true,
        Some(Json::Null) => true,
        Some(e) => statement_error_decodable(e),
    }
}

pub open spec fn status_decodes(j: Json, s: StatementStatus) -> bool {
    &&& s.state@ == req_str_val(j, "state"@)
    &&& match obj_get(j, "error"@) {
        None => s.error is None,
        Some(Json::Null) => s.error is None,
        Some(e) => (s.error matches Some(er) && statement_error_decodes(e, er)),
    }
}

pub fn decode_statement_status(j: &Json) -> (r: Option<StatementStatus>)
    ensures
        r is Some <==> status_decodable(*j),
        r matches Some(s) ==> status_decodes(*j, s),
{
    if !j.is_obj() {
        return None;
    }
    let state = match take_req_str(j, "state") {
        Some(v) => v,
        None => {
            return None;
        },
    };
    let error: Option<ErrorResponse> = match get_field(j, "error") {
        None => None,
        Some(Json::Null) => None,
        Some(e) => match decode_statement_error(e) {
            Some(v) => Some(v),
            None => {
                return None;
            },
        },
    };
    Some(StatementStatus { state, error })
}

pub open spec fn column_decodable(j: Json) -> bool {
    &&& j is Obj
    &&& req_str_ok(j, "name"@)
    &&& req_str_ok(j, "type_name"@)
    &&& req_i32_ok(j, "position"@)
}

pub open spec fn column_decodes(j: Json, c: ColumnDescription) -> bool {
    &&& c.name@ == req_str_val(j, "name"@)
    &&& c.data_type@ == req_str_val(j, "type_name"@)
    &&& c.position == req_i32_val(j, "position"@)
}

pub fn decode_column(j: &Json) -> (r: Option<ColumnDescription>)
    ensures
        r is Some <==> column_decodable(*j),
        r matches Some(c) ==> column_decodes(*j, c),
{
    if !j.is_obj() {
        return None;
    }
    let name = match take_req_str(j, "name") {
        Some(v) => v,
        None => {
            return None;
        },
    };
    let data_type = match take_req_str(j, "type_name") {
        Some(v) => v,
        None => {
            return None;
        },
    };
    let position = match take_req_i32(j, "position") {
        Some(v) => v,
        None => {
            return None;
        },
    };
    Some(ColumnDescription { name, data_type, position })
}

pub open spec fn column_list_decodable(items: Seq<Json>) -> bool {
    forall|i: int| 0 <= i < items.len() ==> column_decodable(#[trigger] items[i])
}

pub open spec fn column_list_decodes(items: Seq<Json>, out: Seq<ColumnDescription>) -> bool {
    &&& out.len() == items.len()
    &&& forall|i: int| 0 <= i < items.len() ==> column_decodes(items[i], #[trigger] out[i])
}

fn decode_column_list(items: &Vec<Json>) -> (r: Option<Vec<ColumnDescription>>)
    ensures
        r is Some <==> column_list_decodable(items@),
        r matches Some(v) ==> column_list_decodes(items@, v@),
{
    let mut out: Vec<ColumnDescription> = Vec::new();
    let mut i: usize = 0;
    while i < items.len()
        invariant
            i <= items@.len(),
            out@.len() == i,
            forall|k: int| 0 <= k < i ==> column_decodable(#[trigger] items@[k]),
            forall|k: int| 0 <= k < i ==> column_decodes(items@[k], #[trigger] out@[k]),
        decreases items@.len() - i,
    {
        match decode_column(&items[i]) {
            Some(c) => out.push(c),
            None => {
                return None;
            },
        }
        i += 1;
    }
    Some(out)
}

/// A schema's `columns` field defaults to an empty list when absent.
pub open spec fn schema_decodable(j: Json) -> bool {
    &&& j is Obj
    &&& match obj_get(j, "columns"@) {
        None => true,
        Some(Json::Arr(items)) => column_list_decodable(items@),
        Some(_) => false,
    }
}

pub open spec fn schema_decodes(j: Json, s: Schema) -> bool {
    match obj_get(j, "columns"@) {
        None => s.columns@.len() == 0,
        Some(Json::Arr(items)) => column_list_decodes(items@, s.columns@),
        Some(_) => false,
    }
}

pub fn decode_schema(j: &Json) -> (r: Option<Schema>)
    ensures
        r is Some <==> schema_decodable(*j),
        r matches Some(s) ==> schema_decodes(*j, s),
{
    if !j.is_obj() {
        return None;
    }
    let columns: Vec<ColumnDescription> = match get_field(j, "columns") {
        None => Vec::new(),
        Some(Json::Arr(items)) => match decode_column_list(items) {
            Some(v) => v,
            None => {
                return None;
            },
        },
        Some(_) => {
            return None;
        },
    };
    Some(Schema { columns })
}

pub open spec fn chunk_decodable(j: Json) -> bool {
    &&& j is Obj
    &&& req_i32_ok(j, "chunk_index"@)
    &&& req_i64_ok(j, "row_offset"@)
    &&& req_i64_ok(j, "row_count"@)
    &&& opt_i64_ok(j, "byte_count"@)
    &&& opt_i32_ok(j, "next_chunk_index"@)
    &&& opt_str_ok(j, "next_chunk_internal_link"@)
}

pub open spec fn chunk_decodes(j: Json, c: ChunkMetadata) -> bool {
    &&& c.chunk_index == req_i32_val(j, "chunk_index"@)
    &&& c.row_offset == req_i64_val(j, "row_offset"@)
    &&& c.row_count == req_i64_val(j, "row_count"@)
    &&& c.byte_count == opt_i64_val(j, "byte_count"@)
    &&& c.next_chunk_index == opt_i32_val(j, "next_chunk_index"@)
    &&& opt_str_matches(c.next_chunk_internal_link, opt_str_val(j, "next_chunk_internal_link"@))
}

pub fn decode_chunk_metadata(j: &Json) -> (r: Option<ChunkMetadata>)
    ensures
        r is Some <==> chunk_decodable(*j),
        r matches Some(c) ==> chunk_decodes(*j, c),
{
    if !j.is_obj() {
        return None;
    }
    let chunk_index = match take_req_i32(j, "chunk_index") {
        Some(v) => v,
        None => {
            return None;
        },
    };
    let row_offset = match take_req_i64(j, "row_offset") {
        Some(v) => v,
        None => {
            return None;
        },
    };
    let row_count = match take_req_i64(j, "row_count") {
        Some(v) => v,
        None => {
            return None;
        },
    };
    let byte_count = match take_opt_i64(j, "byte_count") {
        Some(v) => v,
        None => {
            return None;
        },
    };
    let next_chunk_index = match take_opt_i32(j, "next_chunk_index") {
        Some(v) => v,
        None => {
            return None;
        },
    };
    let next_chunk_internal_link = match take_opt_str(j, "next_chunk_internal_link") {
        Some(v) => v,
        None => {
            return None;
        },
    };
    Some(
        ChunkMetadata {
            chunk_index,
            row_offset,
            row_count,
            byte_count,
            next_chunk_index,
            next_chunk_internal_link,
        },
    )
}

pub open spec fn chunk_list_decodable(items: Seq<Json>) -> bool {
    forall|i: int| 0 <= i < items.len() ==> chunk_decodable(#[trigger] items[i])
}

pub open spec fn chunk_list_decodes(items: Seq<Json>, out: Seq<ChunkMetadata>) -> bool {
    &&& out.len() == items.len()
    &&& forall|i: int| 0 <= i < items.len() ==> chunk_decodes(items[i], #[trigger] out[i])
}

fn decode_chunk_list(items: &Vec<Json>) -> (r: Option<Vec<ChunkMetadata>>)
    ensures
        r is Some <==> chunk_list_decodable(items@),
        r matches Some(v) ==> chunk_list_decodes(items@, v@),
{
    let mut out: Vec<ChunkMetadata> = Vec::new();
    let mut i: usize = 0;
    while i < items.len()
        invariant
            i <= items@.len(),
            out@.len() == i,
            forall|k: int| 0 <= k < i ==> chunk_decodable(#[trigger] items@[k]),
            forall|k: int| 0 <= k < i ==> chunk_decodes(items@[k], #[trigger] out@[k]),
        decreases items@.len() - i,
    {
        match decode_chunk_metadata(&items[i]) {
            Some(c) => out.push(c),
            None => {
                return None;
            },
        }
        i += 1;
    }
    Some(out)
}

/// The expiration field must be present: `null` reads as "not present",
/// a text that parses as a timestamp reads as that instant, and anything
/// else — a missing field, an unparsable text, a non-text — fails the
/// whole decode.
pub open spec fn expiration_ok(j: Json) -> bool {
    match obj_get(j, "expiration"@) {
        Some(Json::Null) => true,
        Some(Json::Str(s)) => utc_epoch_millis_of(s@) is Some,
        _ => false,
    }
}

pub open spec fn expiration_val(j: Json) -> Option<i64> {
    match obj_get(j, "expiration"@) {
        Some(Json::Str(s)) => utc_epoch_millis_of(s@),
        _ => None,
    }
}

pub open spec fn link_decodable(j: Json) -> bool {
    &&& j is Obj
    &&& req_i32_ok(j, "chunk_index"@)
    &&& req_i64_ok(j, "row_offset"@)
    &&& req_i64_ok(j, "row_count"@)
    &&& req_i64_ok(j, "byte_count"@)
    &&& opt_i32_ok(j, "next_chunk_index"@)
    &&& opt_str_ok(j, "next_chunk_internal_link"@)
    &&& req_str_ok(j, "external_link"@)
    &&& expiration_ok(j)
}

pub open spec fn link_decodes(j: Json, l: ExternalLink) -> bool {
    &&& l.chunk_index == req_i32_val(j, "chunk_index"@)
    &&& l.row_offset == req_i64_val(j, "row_offset"@)
    &&& l.row_count == req_i64_val(j, "row_count"@)
    &&& l.byte_count == req_i64_val(j, "byte_count"@)
    &&& l.next_chunk_index == opt_i32_val(j, "next_chunk_index"@)
    &&& opt_str_matches(l.next_chunk_internal_link, opt_str_val(j, "next_chunk_internal_link"@))
    &&& l.external_link@ == req_str_val(j, "external_link"@)
    &&& l.expiration == expiration_val(j)
}

pub fn decode_external_link(j: &Json) -> (r: Option<ExternalLink>)
    ensures
        r is Some <==> link_decodable(*j),
        r matches Some(l) ==> link_decodes(*j, l),
{
    if !j.is_obj() {
        return None;
    }
    let chunk_index = match take_req_i32(j, "chunk_index") {
        Some(v) => v,
        None => {
            return None;
        },
    };
    let row_offset = match take_req_i64(j, "row_offset") {
        Some(v) => v,
        None => {
            return None;
        },
    };
    let row_count = match take_req_i64(j, "row_count") {
        Some(v) => v,
        None => {
            return None;
        },
    };
    let byte_count = match take_req_i64(j, "byte_count") {
        Some(v) => v,
        None => {
            return None;
        },
    };
    let next_chunk_index = match take_opt_i32(j, "next_chunk_index") {
        Some(v) => v,
        None => {
            return None;
        },
    };
    let next_chunk_internal_link = match take_opt_str(j, "next_chunk_internal_link") {
        Some(v) => v,
        None => {
            return None;
        },
    };
    let external_link = match take_req_str(j, "external_link") {
        Some(v) => v,
        None => {
            return None;
        },
    };
    let expiration: Option<i64> = match get_field(j, "expiration") {
        Some(Json::Null) => None,
        Some(Json::Str(s)) => match parse_datetime_utc(s.as_str()) {
            Some(t) => Some(t),
            None => {
                return None;
            },
        },
        _ => {
            return None;
        },
    };
    Some(
        ExternalLink {
            chunk_index,
            row_offset,
            row_count,
            byte_count,
            next_chunk_index,
            next_chunk_internal_link,
            external_link,
            expiration,
        },
    )
}

pub open spec fn link_list_decodable(items: Seq<Json>) -> bool {
    forall|i: int| 0 <= i < items.len() ==> link_decodable(#[trigger] items[i])
}

pub open spec fn link_list_decodes(items: Seq<Json>, out: Seq<ExternalLink>) -> bool {
    &&& out.len() == items.len()
    &&& forall|i: int| 0 <= i < items.len() ==> link_decodes(items[i], #[trigger] out[i])
}

fn decode_link_list(items: &Vec<Json>) -> (r: Option<Vec<ExternalLink>>)
    ensures
        r is Some <==> link_list_decodable(items@),
        r matches Some(v) ==> link_list_decodes(items@, v@),
{
    let mut out: Vec<ExternalLink> = Vec::new();
    let mut i: usize = 0;
    while i < items.len()
        invariant
            i <= items@.len(),
            out@.len() == i,
            forall|k: int| 0 <= k < i ==> link_decodable(#[trigger] items@[k]),
            forall|k: int| 0 <= k < i ==> link_decodes(items@[k], #[trigger] out@[k]),
        decreases items@.len() - i,
    {
        match decode_external_link(&items[i]) {
            Some(l) => out.push(l),
            None => {
                return None;
            },
        }
        i += 1;
    }
    Some(out)
}

pub open spec fn cell_decodable(c: Json) -> bool {
    c is Null || c is Str
}

pub open spec fn cell_decodes(c: Json, o: Option<String>) -> bool {
    match c {
        Json::Null => o is None,
        Json::Str(s) => (o matches Some(t) && t@ == s@),
        _ => false,
    }
}

pub open spec fn cell_seq_decodable(cells: Seq<Json>) -> bool {
    forall|i: int| 0 <= i < cells.len() ==> cell_decodable(#[trigger] cells[i])
}

pub open spec fn cell_seq_decodes(cells: Seq<Json>, out: Seq<Option<String>>) -> bool {
    &&& out.len() == cells.len()
    &&& forall|i: int| 0 <= i < cells.len() ==> cell_decodes(cells[i], #[trigger] out[i])
}

pub open spec fn row_decodable(r: Json) -> bool {
    r is Arr && cell_seq_decodable(arr_items(r))
}

pub open spec fn row_decodes(r: Json, out: Seq<Option<String>>) -> bool {
    r is Arr && cell_seq_decodes(arr_items(r), out)
}

fn decode_row(r: &Json) -> (res: Option<Vec<Option<String>>>)
    ensures
        res is Some <==> row_decodable(*r),
        res matches Some(v) ==> row_decodes(*r, v@),
{
    match r {
        Json::Arr(cells) => {
            proof {
                assert(arr_items(*r) == cells@);
            }
            let mut out: Vec<Option<String>> = Vec::new();
            let mut i: usize = 0;
            while i < cells.len()
                invariant
                    arr_items(*r) == cells@,
                    *r is Arr,
                    i <= cells@.len(),
                    out@.len() == i,
                    forall|k: int| 0 <= k < i ==> cell_decodable(#[trigger] cells@[k]),
                    forall|k: int| 0 <= k < i ==> cell_decodes(cells@[k], #[trigger] out@[k]),
                decreases cells@.len() - i,
            {
                match &cells[i] {
                    Json::Null => out.push(None),
                    Json::Str(s) => out.push(Some(s.clone())),
                    _ => {
                        proof {
                            assert(!cell_seq_decodable(cells@));
                        }
                        return None;
                    },
                }
                i += 1;
            }
            Some(out)
        },
        _ => None,
    }
}

pub open spec fn row_seq_decodable(rows: Seq<Json>) -> bool {
    forall|i: int| 0 <= i < rows.len() ==> row_decodable(#[trigger] rows[i])
}

pub open spec fn row_seq_decodes(rows: Seq<Json>, out: Seq<Vec<Option<String>>>) -> bool {
    &&& out.len() == rows.len()
    &&& forall|i: int| 0 <= i < rows.len() ==> row_decodes(rows[i], #[trigger] out[i]@)
}

pub open spec fn rows_decodable(v: Json) -> bool {
    v is Arr && row_seq_decodable(arr_items(v))
}

pub open spec fn rows_decodes(v: Json, out: Seq<Vec<Option<String>>>) -> bool {
    v is Arr && row_seq_decodes(arr_items(v), out)
}

fn decode_rows(v: &Json) -> (res: Option<Vec<Vec<Option<String>>>>)
    ensures
        res is Some <==> rows_decodable(*v),
        res matches Some(rs) ==> rows_decodes(*v, rs@),
{
    match v {
        Json::Arr(rows) => {
            proof {
                assert(arr_items(*v) == rows@);
            }
            let mut out: Vec<Vec<Option<String>>> = Vec::new();
            let mut i: usize = 0;
            while i < rows.len()
                invariant
                    arr_items(*v) == rows@,
                    *v is Arr,
                    i <= rows@.len(),
                    out@.len() == i,
                    forall|k: int| 0 <= k < i ==> row_decodable(#[trigger] rows@[k]),
                    forall|k: int| 0 <= k < i ==> row_decodes(rows@[k], #[trigger] out@[k]@),
                decreases rows@.len() - i,
            {
                match decode_row(&rows[i]) {
                    Some(row) => out.push(row),
                    None => {
                        proof {
                            assert(!row_seq_decodable(rows@));
                        }
                        return None;
                    },
                }
                i += 1;
            }
            Some(out)
        },
        _ => None,
    }
}

/// A result's inline rows and external links both read as "not present"
/// from an absent field or `null`.
pub open spec fn result_data_decodable(j: Json) -> bool {
    &&& j is Obj
    &&& match obj_get(j, "data_array"@) {
        None => true,
        Some(Json::Null) => true,
        Some(v) => rows_decodable(v),
    }
    &&& match obj_get(j, "external_links"@) {
        None => true,
        Some(Json::Null) => true,
        Some(Json::Arr(items)) => link_list_decodable(items@),
        Some(_) => false,
    }
}

pub open spec fn result_data_decodes(j: Json, rd: ResultData) -> bool {
    &&& match obj_get(j, "data_array"@) {
        None => rd.data_array is None,
        Some(Json::Null) => rd.data_array is None,
        Some(v) => (rd.data_array matches Some(rows) && rows_decodes(v, rows@)),
    }
    &&& match obj_get(j, "external_links"@) {
        None => rd.external_links is None,
        Some(Json::Null) => rd.external_links is None,
        Some(Json::Arr(items)) => (rd.external_links matches Some(ls) && link_list_decodes(
            items@,
            ls@,
        )),
        Some(_) => false,
    }
}

pub fn decode_result_data(j: &Json) -> (r: Option<ResultData>)
    ensures
        r is Some <==> result_data_decodable(*j),
        r matches Some(rd) ==> result_data_decodes(*j, rd),
{
    if !j.is_obj() {
        return None;
    }
    let data_array: Option<Vec<Vec<Option<String>>>> = match get_field(j, "data_array") {
        None => None,
        Some(Json::Null) => None,
        Some(v) => match decode_rows(v) {
            Some(rows) => Some(rows),
            None => {
                return None;
            },
        },
    };
    let external_links: Option<Vec<ExternalLink>> = match get_field(j, "external_links") {
        None => None,
        Some(Json::Null) => None,
        Some(Json::Arr(items)) => match decode_link_list(items) {
            Some(ls) => Some(ls),
            None => {
                return None;
            },
        },
        Some(_) => {
            return None;
        },
    };
    Some(ResultData { data_array, external_links })
}

/// A manifest's `chunks` field defaults to an empty list when absent.
pub open spec fn manifest_decodable(j: Json) -> bool {
    &&& j is Obj
    &&& req_str_ok(j, "format"@)
    &&& match obj_get(j, "schema"@) {
        None => true,
        Some(Json::Null) => true,
        Some(s) => schema_decodable(s),
    }
    &&& match obj_get(j, "chunks"@) {
        None => true,
        Some(Json::Arr(items)) => chunk_list_decodable(items@),
        Some(_) => false,
    }
    &&& req_i32_ok(j, "total_chunk_count"@)
    &&& req_i64_ok(j, "total_row_count"@)
    &&& opt_i64_ok(j, "total_byte_count"@)
    &&& req_bool_ok(j, "truncated"@)
}

pub open spec fn manifest_decodes(j: Json, m: Manifest) -> bool {
    &&& m.format@ == req_str_val(j, "format"@)
    &&& match obj_get(j, "schema"@) {
        None => m.schema is None,
        Some(Json::Null) => m.schema is None,
        Some(s) => (m.schema matches Some(sc) && schema_decodes(s, sc)),
    }
    &&& match obj_get(j, "chunks"@) {
        None => m.chunks@.len() == 0,
        Some(Json::Arr(items)) => chunk_list_decodes(items@, m.chunks@),
        Some(_) => false,
    }
    &&& m.total_chunk_count == req_i32_val(j, "total_chunk_count"@)
    &&& m.total_row_count == req_i64_val(j, "total_row_count"@)
    &&& m.total_byte_count == opt_i64_val(j, "total_byte_count"@)
    &&& m.truncated == req_bool_val(j, "truncated"@)
}

pub fn decode_manifest(j: &Json) -> (r: Option<Manifest>)
    ensures
        r is Some <==> manifest_decodable(*j),
        r matches Some(m) ==> manifest_decodes(*j, m),
{
    if !j.is_obj() {
        return None;
    }
    let format = match take_req_str(j, "format") {
        Some(v) => v,
        None => {
            return None;
        },
    };
    let schema: Option<Schema> = match get_field(j, "schema") {
        None => None,
        Some(Json::Null) => None,
        Some(s) => match decode_schema(s) {
            Some(sc) => Some(sc),
            None => {
                return None;
            },
        },
    };
    let chunks: Vec<ChunkMetadata> = match get_field(j, "chunks") {
        None => Vec::new(),
        Some(Json::Arr(items)) => match decode_chunk_list(items) {
            Some(v) => v,
            None => {
                return None;
            },
        },
        Some(_) => {
            return None;
        },
    };
    let total_chunk_count = match take_req_i32(j, "total_chunk_count") {
        Some(v) => v,
        None => {
            return None;
        },
    };
    let total_row_count = match take_req_i64(j, "total_row_count") {
        Some(v) => v,
        None => {
            return None;
        },
    };
    let total_byte_count = match take_opt_i64(j, "total_byte_count") {
        Some(v) => v,
        None => {
            return None;
        },
    };
    let truncated = match take_req_bool(j, "truncated") {
        Some(v) => v,
        None => {
            return None;
        },
    };
    Some(
        Manifest {
            format,
            schema,
            chunks,
            total_chunk_count,
            total_row_count,
            total_byte_count,
            truncated,
        },
    )
}

pub open spec fn statement_response_decodable(j: Json) -> bool {
    &&& j is Obj
    &&& opt_str_ok(j, "statement_id"@)
    &&& match obj_get(j, "status"@) {
        None => true,
        Some(Json::Null) => true,
        Some(s) => status_decodable(s),
    }
    &&& match obj_get(j, "manifest"@) {
        None => true,
        Some(Json::Null) => true,
        Some(m) => manifest_decodable(m),
    }
    &&& match obj_get(j, "result"@) {
        None => true,
        Some(Json::Null) => true,
        Some(r) => result_data_decodable(r),
    }
    &&& match obj_get(j, "external_links"@) {
        None => true,
        Some(Json::Null) => true,
        Some(Json::Arr(items)) => link_list_decodable(items@),
        Some(_) => false,
    }
    &&& opt_str_ok(j, "error"@)
}

pub open spec fn statement_response_decodes(j: Json, v: SqlStatementResponse) -> bool {
    &&& opt_str_matches(v.statement_id, opt_str_val(j, "statement_id"@))
    &&& match obj_get(j, "status"@) {
        None => v.status is None,
        Some(Json::Null) => v.status is None,
        Some(s) => (v.status matches Some(st) && status_decodes(s, st)),
    }
    &&& match obj_get(j, "manifest"@) {
        None => v.manifest is None,
        Some(Json::Null) => v.manifest is None,
        Some(m) => (v.manifest matches Some(mf) && manifest_decodes(m, mf)),
    }
    &&& match obj_get(j, "result"@) {
        None => v.result is None,
        Some(Json::Null) => v.result is None,
        Some(r) => (v.result matches Some(rd) && result_data_decodes(r, rd)),
    }
    &&& match obj_get(j, "external_links"@) {
        None => v.external_links is None,
        Some(Json::Null) => v.external_links is None,
        Some(Json::Arr(items)) => (v.external_links matches Some(ls) && link_list_decodes(
            items@,
            ls@,
        )),
        Some(_) => false,
    }
    &&& opt_str_matches(v.error, opt_str_val(j, "error"@))
}

pub fn decode_statement_response(j: &Json) -> (r: Option<SqlStatementResponse>)
    ensures
        r is Some <==> statement_response_decodable(*j),
        r matches Some(v) ==> statement_response_decodes(*j, v),
{
    if !j.is_obj() {
        return None;
    }
    let statement_id = match take_opt_str(j, "statement_id") {
        Some(v) => v,
        None => {
            return None;
        },
    };
    let status: Option<StatementStatus> = match get_field(j, "status") {
        None => None,
        Some(Json::Null) => None,
        Some(s) => match decode_statement_status(s) {
            Some(st) => Some(st),
            None => {
                return None;
            },
        },
    };
    let manifest: Option<Manifest> = match get_field(j, "manifest") {
        None => None,
        Some(Json::Null) => None,
        Some(m) => match decode_manifest(m) {
            Some(mf) => Some(mf),
            None => {
                return None;
            },
        },
    };
    let result: Option<ResultData> = match get_field(j, "result") {
        None => None,
        Some(Json::Null) => None,
        Some(r) => match decode_result_data(r) {
            Some(rd) => Some(rd),
            None => {
                return None;
            },
        },
    };
    let external_links: Option<Vec<ExternalLink>> = match get_field(j, "external_links") {
        None => None,
        Some(Json::Null) => None,
        Some(Json::Arr(items)) => match decode_link_list(items) {
            Some(ls) => Some(ls),
            None => {
                return None;
            },
        },
        Some(_) => {
            return None;
        },
    };
    let error = match take_opt_str(j, "error") {
        Some(v) => v,
        None => {
            return None;
        },
    };
    Some(
        SqlStatementResponse { statement_id, status, manifest, result, external_links, error },
    )
}

// ---------------------------------------------------------------------------
// Writing the remote JSON shapes. Requests carry a fixed set of fields and
// write an absent option as `null`; a result value instead omits a field
// that is not present entirely (the asymmetric write policy).
// ---------------------------------------------------------------------------

pub open spec fn encodes_sql_parameter(p: SqlParameter, j: Json) -> bool {
    match j {
        Json::Obj(ps) => {
            &&& ps@.len() == 3
            &&& ps@[0].0@ == "name"@ && ps@[0].1 == Json::Str(p.name)
            &&& ps@[1].0@ == "value"@ && ps@[1].1 == opt_str_json(p.value)
            &&& ps@[2].0@ == "type"@ && ps@[2].1 == opt_str_json(p.sql_type)
        },
        _ => false,
    }
}

pub open spec fn param_seq_encodes(list: Seq<SqlParameter>, items: Seq<Json>) -> bool {
    &&& items.len() == list.len()
    &&& forall|i: int| 0 <= i < list.len() ==> encodes_sql_parameter(list[i], #[trigger] items[i])
}

pub open spec fn encodes_parameters_field(o: Option<Vec<SqlParameter>>, v: Json) -> bool {
    match o {
        None => v is Null,
        Some(list) => v is Arr && param_seq_encodes(list@, arr_items(v)),
    }
}

pub open spec fn encodes_sql_statement_request(q: SqlStatementRequest, j: Json) -> bool {
    match j {
        Json::Obj(ps) => {
            &&& ps@.len() == 11
            &&& ps@[0].0@ == "statement"@ && ps@[0].1 == Json::Str(q.statement)
            &&& ps@[1].0@ == "warehouse_id"@ && ps@[1].1 == Json::Str(q.warehouse_id)
            &&& ps@[2].0@ == "catalog"@ && ps@[2].1 == opt_str_json(q.catalog)
            &&& ps@[3].0@ == "schema"@ && ps@[3].1 == opt_str_json(q.schema)
            &&& ps@[4].0@ == "parameters"@ && encodes_parameters_field(q.parameters, ps@[4].1)
            &&& ps@[5].0@ == "row_limit"@ && ps@[5].1 == opt_i64_json(q.row_limit)
            &&& ps@[6].0@ == "byte_limit"@ && ps@[6].1 == opt_i64_json(q.byte_limit)
            &&& ps@[7].0@ == "disposition"@ && ps@[7].1 == Json::Str(q.disposition)
            &&& ps@[8].0@ == "format"@ && ps@[8].1 == Json::Str(q.format)
            &&& ps@[9].0@ == "wait_timeout"@ && ps@[9].1 == opt_str_json(q.wait_timeout)
            &&& ps@[10].0@ == "on_wait_timeout"@ && ps@[10].1 == opt_str_json(q.on_wait_timeout)
        },
        _ => false,
    }
}

fn encode_sql_parameter(p: &SqlParameter) -> (r: Json)
    ensures
        encodes_sql_parameter(*p, r),
{
    let mut ps: Vec<(String, Json)> = Vec::new();
    ps.push((String::from_str("name"), Json::Str(p.name.clone())));
    ps.push((String::from_str("value"), opt_str_to_json(&p.value)));
    ps.push((String::from_str("type"), opt_str_to_json(&p.sql_type)));
    Json::Obj(ps)
}

fn encode_parameters_field(o: &Option<Vec<SqlParameter>>) -> (r: Json)
    ensures
        encodes_parameters_field(*o, r),
{
    match o {
        None => Json::Null,
        Some(list) => {
            let mut items: Vec<Json> = Vec::new();
            let mut i: usize = 0;
            while i < list.len()
                invariant
                    i <= list@.len(),
                    items@.len() == i,
                    forall|k: int|
                        0 <= k < i ==> encodes_sql_parameter(list@[k], #[trigger] items@[k]),
                decreases list@.len() - i,
            {
                items.push(encode_sql_parameter(&list[i]));
                i += 1;
            }
            let r = Json::Arr(items);
            proof {
                assert(arr_items(r) == items@);
            }
            r
        },
    }
}

impl SqlStatementRequest {
    /// Writes this request in the remote wire shape: every field is
    /// present, an absent option as `null`, the type tag of a parameter
    /// under the wire field `type`.
    pub fn to_json(&self) -> (r: Json)
        ensures
            encodes_sql_statement_request(*self, r),
    {
        let mut ps: Vec<(String, Json)> = Vec::new();
        ps.push((String::from_str("statement"), Json::Str(self.statement.clone())));
        ps.push((String::from_str("warehouse_id"), Json::Str(self.warehouse_id.clone())));
        ps.push((String::from_str("catalog"), opt_str_to_json(&self.catalog)));
        ps.push((String::from_str("schema"), opt_str_to_json(&self.schema)));
        ps.push((String::from_str("parameters"), encode_parameters_field(&self.parameters)));
        ps.push((String::from_str("row_limit"), opt_i64_to_json(&self.row_limit)));
        ps.push((String::from_str("byte_limit"), opt_i64_to_json(&self.byte_limit)));
        ps.push((String::from_str("disposition"), Json::Str(self.disposition.clone())));
        ps.push((String::from_str("format"), Json::Str(self.format.clone())));
        ps.push((String::from_str("wait_timeout"), opt_str_to_json(&self.wait_timeout)));
        ps.push((String::from_str("on_wait_timeout"), opt_str_to_json(&self.on_wait_timeout)));
        Json::Obj(ps)
    }
}

pub open spec fn encodes_external_link(l: ExternalLink, j: Json) -> bool {
    match j {
        Json::Obj(ps) => {
            let a = if l.next_chunk_index is Some {
                1int
            } else {
                0int
            };
            let b = if l.next_chunk_internal_link is Some {
                1int
            } else {
                0int
            };
            &&& ps@.len() == 6 + a + b
            &&& ps@[0].0@ == "chunk_index"@ && ps@[0].1 == Json::Int(l.chunk_index as i64)
            &&& ps@[1].0@ == "row_offset"@ && ps@[1].1 == Json::Int(l.row_offset)
            &&& ps@[2].0@ == "row_count"@ && ps@[2].1 == Json::Int(l.row_count)
            &&& ps@[3].0@ == "byte_count"@ && ps@[3].1 == Json::Int(l.byte_count)
            &&& (l.next_chunk_index matches Some(n) ==> ps@[4].0@ == "next_chunk_index"@
                && ps@[4].1 == Json::Int(n as i64))
            &&& (l.next_chunk_internal_link matches Some(s) ==> ps@[4 + a].0@
                == "next_chunk_internal_link"@ && ps@[4 + a].1 == Json::Str(s))
            &&& ps@[4 + a + b].0@ == "external_link"@ && ps@[4 + a + b].1 == Json::Str(
                l.external_link,
            )
            &&& ps@[5 + a + b].0@ == "expiration"@
            &&& match l.expiration {
                None => ps@[5 + a + b].1 == Json::Null,
                Some(t) => (ps@[5 + a + b].1 matches Json::Str(x) && x@ == rfc3339_text_of(t)),
            }
        },
        _ => false,
    }
}

impl ExternalLink {
    /// Writes this link in the remote wire shape: the two next-chunk
    /// fields are omitted when not present, the expiration instant is
    /// written back as an RFC 3339 timestamp.
    pub fn to_json(&self) -> (r: Json)
        ensures
            encodes_external_link(*self, r),
    {
        let mut ps: Vec<(String, Json)> = Vec::new();
        ps.push((String::from_str("chunk_index"), Json::Int(self.chunk_index as i64)));
        ps.push((String::from_str("row_offset"), Json::Int(self.row_offset)));
        ps.push((String::from_str("row_count"), Json::Int(self.row_count)));
        ps.push((String::from_str("byte_count"), Json::Int(self.byte_count)));
        if let Some(n) = self.next_chunk_index {
            ps.push((String::from_str("next_chunk_index"), Json::Int(n as i64)));
        }
        if let Some(s) = &self.next_chunk_internal_link {
            ps.push((String::from_str("next_chunk_internal_link"), Json::Str(s.clone())));
        }
        ps.push((String::from_str("external_link"), Json::Str(self.external_link.clone())));
        let expiration_json = match self.expiration {
            None => Json::Null,
            Some(t) => Json::Str(format_datetime_utc(t)),
        };
        ps.push((String::from_str("expiration"), expiration_json));
        Json::Obj(ps)
    }
}

pub open spec fn link_seq_encodes(ls: Seq<ExternalLink>, items: Seq<Json>) -> bool {
    &&& items.len() == ls.len()
    &&& forall|i: int| 0 <= i < ls.len() ==> encodes_external_link(ls[i], #[trigger] items[i])
}

pub open spec fn cell_seq_encodes(row: Seq<Option<String>>, cells: Seq<Json>) -> bool {
    &&& cells.len() == row.len()
    &&& forall|i: int| 0 <= i < row.len() ==> (#[trigger] cells[i]) == opt_str_json(row[i])
}

pub open spec fn row_seq_encodes(rows: Seq<Vec<Option<String>>>, items: Seq<Json>) -> bool {
    &&& items.len() == rows.len()
    &&& forall|i: int|
        0 <= i < rows.len() ==> (#[trigger] items[i]) is Arr && cell_seq_encodes(
            rows[i]@,
            arr_items(items[i]),
        )
}

/// The asymmetric write policy of a result value: a field that is not
/// present is omitted entirely, never written as `null`.
pub open spec fn encodes_result_data(rd: ResultData, j: Json) -> bool {
    match j {
        Json::Obj(ps) => match (rd.data_array, rd.external_links) {
            (None, None) => ps@.len() == 0,
            (Some(rows), None) => {
                &&& ps@.len() == 1
                &&& ps@[0].0@ == "data_array"@
                &&& ps@[0].1 is Arr
                &&& row_seq_encodes(rows@, arr_items(ps@[0].1))
            },
            (None, Some(ls)) => {
                &&& ps@.len() == 1
                &&& ps@[0].0@ == "external_links"@
                &&& ps@[0].1 is Arr
                &&& link_seq_encodes(ls@, arr_items(ps@[0].1))
            },
            (Some(rows), Some(ls)) => {
                &&& ps@.len() == 2
                &&& ps@[0].0@ == "data_array"@
                &&& ps@[0].1 is Arr
                &&& row_seq_encodes(rows@, arr_items(ps@[0].1))
                &&& ps@[1].0@ == "external_links"@
                &&& ps@[1].1 is Arr
                &&& link_seq_encodes(ls@, arr_items(ps@[1].1))
            },
        },
        _ => false,
    }
}

fn encode_row(row: &Vec<Option<String>>) -> (r: Json)
    ensures
        r is Arr,
        cell_seq_encodes(row@, arr_items(r)),
{
    let mut cells: Vec<Json> = Vec::new();
    let mut i: usize = 0;
    while i < row.len()
        invariant
            i <= row@.len(),
            cells@.len() == i,
            forall|k: int| 0 <= k < i ==> (#[trigger] cells@[k]) == opt_str_json(row@[k]),
        decreases row@.len() - i,
    {
        cells.push(opt_str_to_json(&row[i]));
        i += 1;
    }
    let r = Json::Arr(cells);
    proof {
        assert(arr_items(r) == cells@);
    }
    r
}

fn encode_rows(rows: &Vec<Vec<Option<String>>>) -> (r: Json)
    ensures
        r is Arr,
        row_seq_encodes(rows@, arr_items(r)),
{
    let mut items: Vec<Json> = Vec::new();
    let mut i: usize = 0;
    while i < rows.len()
        invariant
            i <= rows@.len(),
            items@.len() == i,
            forall|k: int|
                0 <= k < i ==> (#[trigger] items@[k]) is Arr && cell_seq_encodes(
                    rows@[k]@,
                    arr_items(items@[k]),
                ),
        decreases rows@.len() - i,
    {
        items.push(encode_row(&rows[i]));
        i += 1;
    }
    let r = Json::Arr(items);
    proof {
        assert(arr_items(r) == items@);
    }
    r
}

fn encode_links(ls: &Vec<ExternalLink>) -> (r: Json)
    ensures
        r is Arr,
        link_seq_encodes(ls@, arr_items(r)),
{
    let mut items: Vec<Json> = Vec::new();
    let mut i: usize = 0;
    while i < ls.len()
        invariant
            i <= ls@.len(),
            items@.len() == i,
            forall|k: int| 0 <= k < i ==> encodes_external_link(ls@[k], #[trigger] items@[k]),
        decreases ls@.len() - i,
    {
        items.push(ls[i].to_json());
        i += 1;
    }
    let r = Json::Arr(items);
    proof {
        assert(arr_items(r) == items@);
    }
    r
}

impl ResultData {
    /// Writes this result in the remote wire shape, omitting a field that
    /// is not present entirely.
    pub fn to_json(&self) -> (r: Json)
        ensures
            encodes_result_data(*self, r),
    {
        let mut ps: Vec<(String, Json)> = Vec::new();
        if let Some(rows) = &self.data_array {
            ps.push((String::from_str("data_array"), encode_rows(rows)));
        }
        if let Some(ls) = &self.external_links {
            ps.push((String::from_str("external_links"), encode_links(ls)));
        }
        Json::Obj(ps)
    }
}

/// A result holding no external links writes as an object with no
/// `external_links` key at all, not as one bound to `null`; its inline
/// rows, when present, are the object's only field.
pub proof fn lemma_inline_result_omits_external_links(rd: ResultData, j: Json)
    requires
        encodes_result_data(rd, j),
        rd.external_links is None,
    ensures
        !obj_has_key(j, "external_links"@),
        rd.data_array is Some ==> obj_has_key(j, "data_array"@),
{
    reveal_strlit("data_array");
    reveal_strlit("external_links");
    assert("data_array"@.len() == 10);
    assert("external_links"@.len() == 14);
    match j {
        Json::Obj(ps) => {
            if rd.data_array is Some {
                assert(lookup_pairs(ps@, "external_links"@) == lookup_pairs(
                    ps@.drop_first(),
                    "external_links"@,
                ));
                assert(ps@.drop_first().len() == 0);
            }
        },
        _ => {},
    }
}

/// Symmetrically, a result holding no inline rows writes with no
/// `data_array` key at all.
pub proof fn lemma_links_result_omits_data_array(rd: ResultData, j: Json)
    requires
        encodes_result_data(rd, j),
        rd.data_array is None,
    ensures
        !obj_has_key(j, "data_array"@),
        rd.external_links is Some ==> obj_has_key(j, "external_links"@),
{
    reveal_strlit("data_array");
    reveal_strlit("external_links");
    assert("data_array"@.len() == 10);
    assert("external_links"@.len() == 14);
    match j {
        Json::Obj(ps) => {
            if rd.external_links is Some {
                assert(lookup_pairs(ps@, "data_array"@) == lookup_pairs(
                    ps@.drop_first(),
                    "data_array"@,
                ));
                assert(ps@.drop_first().len() == 0);
            }
        },
        _ => {},
    }
}

/// The terminal states of a submitted statement; only re-fetching, never
/// local mutation, moves a statement toward one of them.
pub open spec fn is_terminal_state_spec(state: Seq<char>) -> bool {
    ||| state == "SUCCEEDED"@
    ||| state == "FAILED"@
    ||| state == "CANCELED"@
    ||| state == "CLOSED"@
}

/// Whether a statement's lifecycle state is terminal, so that polling
/// may stop.
pub fn is_terminal_state(state: &str) -> (r: bool)
    ensures
        r == is_terminal_state_spec(state@),
{
    crate::text::str_eq(state, "SUCCEEDED") || crate::text::str_eq(state, "FAILED")
        || crate::text::str_eq(state, "CANCELED") || crate::text::str_eq(state, "CLOSED")
}

} // verus!
