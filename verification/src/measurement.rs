//! Operations on measurements: the line that creates one, the steps that gather what is
//! known of one, and the envelopes they answer with.

use vstd::prelude::*;
use vstd::string::StringExecFns;
use crate::database::{asks, request_for, settle, settles, states};
use crate::error::{kind_label, AppError, ErrorKind};
use crate::influxdb::{v1_read_request, v1_write_request, InfluxDBService, ServiceModel};
use crate::json::{JsonModel, JsonValue};
use crate::models::{
    ApiResponse, FieldKey, FieldKeyModel, Measurement, MeasurementModel, QueryResult, SeriesModel,
    V1ConfigModel,
};
use crate::normalize::{names_from_result, names_in};
use crate::statement::{
    framed, insert_payload, is_insert, law_payload_after_bare_name_with_into,
    lemma_into_has_insert, InsertFault,
};
use crate::text::{
    chars_of, is_blank, is_space, push_char, push_signed_decimal, same_letter, same_text,
    signed_decimal,
};
use crate::transport::{HttpOutcome, HttpRequest, RequestModel};

verus! {

/// A field of a measurement to create: its name, the type it is declared with, and its
/// first value.
#[derive(Debug)]
pub struct MeasurementField {
    pub name: String,
    /// `string`, `float`, `integer` or `boolean`; any other type is taken as `string`.
    pub field_type: String,
    pub value: JsonValue,
    /// The value read as a floating-point number and written in decimal: what a field of
    /// type `float` is written with. The caller supplies it, `0` for a value that is no
    /// number.
    pub float_text: String,
}

/// The model of a [`MeasurementField`].
pub struct FieldModel {
    pub name: Seq<char>,
    pub field_type: Seq<char>,
    pub value: JsonModel,
    pub float_text: Seq<char>,
}

impl DeepView for MeasurementField {
    type V = FieldModel;

    open spec fn deep_view(&self) -> FieldModel {
        FieldModel {
            name: self.name@,
            field_type: self.field_type@,
            value: self.value.deep_view(),
            float_text: self.float_text@,
        }
    }
}

/// `s` with a backslash put before each double quote.
pub open spec fn escape_quotes(s: Seq<char>) -> Seq<char>
    decreases s.len(),
{
    if s.len() == 0 {
        Seq::empty()
    } else if s.last() == '"' {
        escape_quotes(s.drop_last()) + seq!['\\', '"']
    } else {
        escape_quotes(s.drop_last()).push(s.last())
    }
}

/// How the value of a field is written in line protocol, by the type of the field. A float
/// is written as the caller rendered it, an integer in decimal with an `i` behind it, a
/// boolean as `true` or `false`, and a string, like a value of any other type, between
/// double quotes with its own quotes escaped. A value that does not fit the type is written
/// as zero, `false` or the empty string.
pub open spec fn field_value_text(field: FieldModel) -> Seq<char> {
    if field.field_type == "float"@ {
        field.float_text
    } else if field.field_type == "integer"@ {
        signed_decimal(
            match field.value.as_i64() {
                Some(n) => n as int,
                None => 0,
            },
        ) + "i"@
    } else if field.field_type == "boolean"@ {
        if field.value.as_bool() == Some(true) {
            "true"@
        } else {
            "false"@
        }
    } else {
        "\""@ + escape_quotes(
            match field.value.as_str() {
                Some(s) => s,
                None => Seq::empty(),
            },
        ) + "\""@
    }
}

/// A field in line protocol: its name, `=`, and its value.
pub open spec fn field_text(field: FieldModel) -> Seq<char> {
    field.name + "="@ + field_value_text(field)
}

/// The fields in line protocol, with a comma between one and the next.
pub open spec fn fields_text(fields: Seq<FieldModel>) -> Seq<char>
    decreases fields.len(),
{
    if fields.len() == 0 {
        Seq::empty()
    } else if fields.len() == 1 {
        field_text(fields[0])
    } else {
        fields_text(fields.drop_last()) + ","@ + field_text(fields.last())
    }
}

/// The tags in line protocol: for each a comma, its name, `=`, and its value.
pub open spec fn tags_text(tags: Seq<(Seq<char>, Seq<char>)>) -> Seq<char>
    decreases tags.len(),
{
    if tags.len() == 0 {
        Seq::empty()
    } else {
        tags_text(tags.drop_last()) + ","@ + tags.last().0 + "="@ + tags.last().1
    }
}

/// The line that writes one point of `measurement`: the name, the tags, a space, and the
/// fields.
pub open spec fn line_protocol(
    measurement: Seq<char>,
    tags: Option<Seq<(Seq<char>, Seq<char>)>>,
    fields: Seq<FieldModel>,
) -> Seq<char> {
    measurement + match tags {
        Some(tags) => tags_text(tags),
        None => Seq::empty(),
    } + " "@ + fields_text(fields)
}

/// The statement that inserts `line` into `database`.
pub open spec fn insert_statement(database: Seq<char>, line: Seq<char>) -> Seq<char> {
    "INSERT INTO "@ + database + " "@ + line
}

/// The statement that drops `measurement`.
pub open spec fn drop_measurement_statement(measurement: Seq<char>) -> Seq<char> {
    "DROP MEASUREMENT \""@ + measurement + "\""@
}

/// The statement that lists the fields of `measurement`.
pub open spec fn field_keys_statement(measurement: Seq<char>) -> Seq<char> {
    "SHOW FIELD KEYS FROM \""@ + measurement + "\""@
}

/// The statement that lists the tags of `measurement`.
pub open spec fn tag_keys_statement(measurement: Seq<char>) -> Seq<char> {
    "SHOW TAG KEYS FROM \""@ + measurement + "\""@
}

/// The fields among `rows`: one for each row whose first two cells are strings, the name
/// and the type.
pub open spec fn field_keys_among(rows: Seq<Seq<JsonModel>>) -> Seq<FieldKeyModel>
    decreases rows.len(),
{
    if rows.len() == 0 {
        Seq::empty()
    } else {
        let before = field_keys_among(rows.drop_last());
        let row = rows.last();
        if row.len() >= 2 && row[0].as_str() is Some && row[1].as_str() is Some {
            before.push(
                FieldKeyModel {
                    name: row[0].as_str()->Some_0,
                    field_type: row[1].as_str()->Some_0,
                },
            )
        } else {
            before
        }
    }
}

/// The fields that `series` list, series by series and row by row.
pub open spec fn field_keys_in(series: Seq<SeriesModel>) -> Seq<FieldKeyModel>
    decreases series.len(),
{
    if series.len() == 0 {
        Seq::empty()
    } else {
        field_keys_in(series.drop_last()) + field_keys_among(series.last().values)
    }
}

/// How the failure to find `measurement` in `database` reads.
pub open spec fn not_found_text(measurement: Seq<char>, database: Seq<char>) -> Seq<char> {
    "Measurement '"@ + measurement + "' not found in database '"@ + database + "'"@
}

/// How far the gathering of what is known of a measurement has come, with the outcome of
/// the request that was asked for last.
#[derive(Debug)]
pub enum InfoProgress {
    /// Nothing has been asked yet.
    Begin,
    /// The request that lists the measurements ended in `outcome`.
    Listed { outcome: HttpOutcome, elapsed: u64 },
    /// The request that lists the fields ended in `outcome`.
    FieldKeysRead { outcome: HttpOutcome, elapsed: u64 },
    /// The request that lists the tags ended in `outcome`; the fields are known.
    TagKeysRead { field_keys: Vec<FieldKey>, outcome: HttpOutcome, elapsed: u64 },
}

/// What to do next in gathering what is known of a measurement.
#[derive(Debug)]
pub enum InfoNext {
    /// Send the request, and come back with `Listed`.
    ListMeasurements(HttpRequest),
    /// Send the request, and come back with `FieldKeysRead`.
    ReadFieldKeys(HttpRequest),
    /// Send the request, and come back with `TagKeysRead` and the fields.
    ReadTagKeys { request: HttpRequest, field_keys: Vec<FieldKey> },
    /// Answer with the envelope.
    Finish(ApiResponse<Measurement>),
}

/// Whether `next` ends the gathering with the failure of the given kind and detail, as
/// text and without data.
pub open spec fn ends_in(next: InfoNext, failure: (ErrorKind, Seq<char>)) -> bool {
    next matches InfoNext::Finish(response) && response.failed_with(
        None,
        kind_label(failure.0) + failure.1,
    )
}

/// Whether `next` is the step that follows `progress` in gathering what is known of
/// `measurement` in `database`.
///
/// First the measurements are listed. A measurement that is not among them is not found.
/// Then its fields are read, then its tags, each by a request that goes to `database`, and
/// the answer holds both. A step that failed ends the gathering with its failure, and
/// nothing more is asked.
pub open spec fn follows(
    next: InfoNext,
    service: ServiceModel,
    database: Seq<char>,
    measurement: Seq<char>,
    progress: InfoProgress,
) -> bool {
    match progress {
        InfoProgress::Begin => match service.measurements_request(database) {
            Ok(needed) => next matches InfoNext::ListMeasurements(request) && request.deep_view()
                == needed,
            Err(failure) => ends_in(next, failure),
        },
        InfoProgress::Listed { outcome, elapsed } => match service.measurements_result(
            database,
            outcome.deep_view(),
            elapsed,
        ) {
            Err(failure) => ends_in(next, failure),
            Ok(names) => if names.contains(measurement) {
                match service.query_request(field_keys_statement(measurement), database) {
                    Ok(needed) => next matches InfoNext::ReadFieldKeys(request)
                        && request.deep_view() == needed,
                    Err(failure) => ends_in(next, failure),
                }
            } else {
                next matches InfoNext::Finish(response) && response.failed_with(
                    None,
                    not_found_text(measurement, database),
                )
            },
        },
        InfoProgress::FieldKeysRead { outcome, elapsed } => match service.query_result(
            field_keys_statement(measurement),
            outcome.deep_view(),
            elapsed,
        ) {
            Err(failure) => ends_in(next, failure),
            Ok(result) => match service.query_request(tag_keys_statement(measurement), database) {
                Ok(needed) => next matches InfoNext::ReadTagKeys { request, field_keys }
                    && request.deep_view() == needed && field_keys.deep_view() == field_keys_in(
                    result.series,
                ),
                Err(failure) => ends_in(next, failure),
            },
        },
        InfoProgress::TagKeysRead { field_keys, outcome, elapsed } => match service.query_result(
            tag_keys_statement(measurement),
            outcome.deep_view(),
            elapsed,
        ) {
            Err(failure) => ends_in(next, failure),
            Ok(result) => next matches InfoNext::Finish(response) && response.carries(
                MeasurementModel {
                    name: measurement,
                    tag_keys: names_in(result.series),
                    field_keys: field_keys.deep_view(),
                    series_count: 0,
                },
            ),
        },
    }
}

/// Whether `r` is the answer to a request for the line that creates a measurement: a
/// refusal for an empty name, a refusal for an empty list of fields, and the insert
/// statement with the line otherwise.
pub open spec fn states_creation(
    r: Result<String, ApiResponse<bool>>,
    database: Seq<char>,
    measurement: Seq<char>,
    fields: Seq<FieldModel>,
    tags: Option<Seq<(Seq<char>, Seq<char>)>>,
) -> bool {
    match creation_refusal(measurement, fields.len()) {
        Some(refusal) => r matches Err(response) && response.failed_with(Some(false), refusal),
        None => r matches Ok(statement) && statement@ == insert_statement(
            database,
            line_protocol(measurement, tags, fields),
        ),
    }
}

/// Why a measurement cannot be created: it has no name, or no field.
pub open spec fn creation_refusal(measurement: Seq<char>, fields: nat) -> Option<Seq<char>> {
    if measurement.len() == 0 {
        Some("Measurement name cannot be empty"@)
    } else if fields == 0 {
        Some("At least one field must be specified"@)
    } else {
        None
    }
}

/// Appends `s` to `out`, with a backslash before each double quote.
fn push_escaped(out: &mut String, s: &str)
    ensures
        final(out)@ == old(out)@ + escape_quotes(s@),
{
    let chars = chars_of(s);
    let ghost all = chars@;
    let mut i: usize = 0;
    proof {
        assert(out@ =~= old(out)@ + escape_quotes(all.take(0)));
    }
    while i < chars.len()
        invariant
            i <= chars@.len(),
            all == chars@,
            out@ == old(out)@ + escape_quotes(all.take(i as int)),
        decreases chars@.len() - i,
    {
        proof {
            assert(all.take(i + 1).drop_last() =~= all.take(i as int));
            assert(all.take(i + 1).last() == chars@[i as int]);
        }
        let ghost before = out@;
        let c = chars[i];
        if c == '"' {
            push_char(out, '\\');
            push_char(out, '"');
            proof {
                assert(out@ =~= before + seq!['\\', '"']);
                assert(out@ =~= old(out)@ + (escape_quotes(all.take(i as int)) + seq!['\\', '"']));
            }
        } else {
            push_char(out, c);
            proof {
                assert(out@ =~= old(out)@ + escape_quotes(all.take(i as int)).push(c));
            }
        }
        i = i + 1;
    }
    proof {
        assert(all.take(i as int) =~= all);
    }
}

/// Appends `field` to `out` as line protocol writes it.
fn push_field(out: &mut String, field: &MeasurementField)
    ensures
        final(out)@ == old(out)@ + field_text(field.deep_view()),
{
    let ghost start = out@;
    let ghost model = field.deep_view();
    out.append(field.name.as_str());
    out.append("=");
    let ghost named = out@;
    let kind = field.field_type.as_str();
    if same_text(kind, "float") {
        out.append(field.float_text.as_str());
    } else if same_text(kind, "integer") {
        let n: i64 = match field.value.as_i64() {
            Some(n) => n,
            None => 0,
        };
        push_signed_decimal(out, n);
        out.append("i");
        proof {
            assert(out@ =~= named + field_value_text(model));
        }
    } else if same_text(kind, "boolean") {
        let b = match field.value.as_bool() {
            Some(b) => b,
            None => false,
        };
        if b {
            out.append("true");
        } else {
            out.append("false");
        }
    } else {
        out.append("\"");
        match field.value.as_str() {
            Some(s) => push_escaped(out, s),
            None => {
                proof {
                    assert(out@ =~= named + "\""@ + escape_quotes(Seq::empty()));
                }
            },
        }
        out.append("\"");
        proof {
            assert(out@ =~= named + field_value_text(model));
        }
    }
    proof {
        assert(out@ =~= start + field_text(model));
    }
}

/// Writes the line that creates one point of `measurement`.
pub fn line_protocol_text(
    measurement: &str,
    tags: Option<&Vec<(String, String)>>,
    fields: &Vec<MeasurementField>,
) -> (r: String)
    ensures
        r@ == line_protocol(measurement@, tags.deep_view(), fields.deep_view()),
{
    let mut r = measurement.to_owned();
    match tags {
        Some(tags) => {
            let ghost all = tags.deep_view();
            let mut i: usize = 0;
            proof {
                assert(r@ =~= measurement@ + tags_text(all.take(0)));
            }
            while i < tags.len()
                invariant
                    i <= tags@.len(),
                    all == tags.deep_view(),
                    r@ == measurement@ + tags_text(all.take(i as int)),
                decreases tags@.len() - i,
            {
                proof {
                    assert(all.take(i + 1).drop_last() =~= all.take(i as int));
                    assert(all.take(i + 1).last() == tags@[i as int].deep_view());
                }
                r.append(",");
                r.append(tags[i].0.as_str());
                r.append("=");
                r.append(tags[i].1.as_str());
                proof {
                    assert(r@ =~= measurement@ + tags_text(all.take(i + 1)));
                }
                i = i + 1;
            }
            proof {
                assert(all.take(i as int) =~= all);
            }
        },
        None => {
            proof {
                assert(r@ =~= measurement@ + Seq::<char>::empty());
            }
        },
    }
    r.append(" ");
    let ghost head = r@;
    let ghost listed = fields.deep_view();
    let mut j: usize = 0;
    proof {
        assert(r@ =~= head + fields_text(listed.take(0)));
    }
    while j < fields.len()
        invariant
            j <= fields@.len(),
            listed == fields.deep_view(),
            r@ == head + fields_text(listed.take(j as int)),
        decreases fields@.len() - j,
    {
        proof {
            assert(listed.take(j + 1).drop_last() =~= listed.take(j as int));
            assert(listed.take(j + 1).last() == fields@[j as int].deep_view());
            assert(listed.take(j + 1)[0] == listed[0]);
        }
        if j > 0 {
            r.append(",");
        }
        push_field(&mut r, &fields[j]);
        proof {
            if j > 0 {
                assert(r@ =~= head + (fields_text(listed.take(j as int)) + ","@ + field_text(
                    listed[j as int],
                )));
            } else {
                assert(r@ =~= head + field_text(listed[0]));
            }
        }
        j = j + 1;
    }
    proof {
        assert(listed.take(j as int) =~= listed);
    }
    r
}

/// Reads the fields that a result lists: one for each row whose first two cells are
/// strings, in the order of the rows.
pub fn field_keys_from_result(result: &QueryResult) -> (r: Vec<FieldKey>)
    ensures
        r.deep_view() == field_keys_in(result.deep_view().series),
{
    let ghost all = result.series.deep_view();
    let mut r: Vec<FieldKey> = Vec::new();
    let mut i: usize = 0;
    proof {
        assert(r.deep_view() =~= field_keys_in(all.take(0)));
    }
    while i < result.series.len()
        invariant
            i <= result.series@.len(),
            all == result.series.deep_view(),
            r.deep_view() == field_keys_in(all.take(i as int)),
        decreases result.series@.len() - i,
    {
        proof {
            assert(all.take(i + 1).drop_last() =~= all.take(i as int));
            assert(all.take(i + 1).last() == result.series@[i as int].deep_view());
        }
        let ghost before = r.deep_view();
        let rows = &result.series[i].values;
        let ghost listed = rows.deep_view();
        let mut j: usize = 0;
        proof {
            assert(r.deep_view() =~= before + field_keys_among(listed.take(0)));
        }
        while j < rows.len()
            invariant
                j <= rows@.len(),
                listed == rows.deep_view(),
                r.deep_view() == before + field_keys_among(listed.take(j as int)),
            decreases rows@.len() - j,
        {
            proof {
                assert(listed.take(j + 1).drop_last() =~= listed.take(j as int));
                assert(listed.take(j + 1).last() == rows@[j as int].deep_view());
            }
            let ghost sofar = r.deep_view();
            let row = &rows[j];
            if row.len() >= 2 {
                proof {
                    assert(row.deep_view()[0] == row@[0].deep_view());
                    assert(row.deep_view()[1] == row@[1].deep_view());
                }
                match (row[0].as_str(), row[1].as_str()) {
                    (Some(name), Some(field_type)) => {
                        r.push(FieldKey { name: name.to_owned(), field_type: field_type.to_owned() });
                        proof {
                            let key = FieldKeyModel { name: name@, field_type: field_type@ };
                            assert(r.deep_view() =~= sofar.push(key));
                            assert(before + field_keys_among(listed.take(j as int)).push(key)
                                =~= sofar.push(key));
                        }
                    },
                    _ => {},
                }
            }
            j = j + 1;
        }
        proof {
            assert(listed.take(j as int) =~= listed);
        }
        i = i + 1;
    }
    proof {
        assert(all.take(i as int) =~= all);
    }
    r
}

/// Tells whether `name` is among `names`.
fn lists(names: &Vec<String>, name: &str) -> (found: bool)
    ensures
        found == names.deep_view().contains(name@),
{
    let mut i: usize = 0;
    while i < names.len()
        invariant
            i <= names@.len(),
            forall|j: int| 0 <= j < i ==> names.deep_view()[j] != name@,
        decreases names@.len() - i,
    {
        if same_text(names[i].as_str(), name) {
            proof {
                assert(names.deep_view()[i as int] == name@);
            }
            return true;
        }
        i = i + 1;
    }
    false
}

/// Answers a request for the list of measurements with what the adapter found.
pub fn list_measurements(found: Result<Vec<String>, AppError>) -> (r: Result<
    ApiResponse<Vec<String>>,
    String,
>)
    ensures
        r matches Ok(response) && response.reports(found, None),
{
    Ok(ApiResponse::from_result(found))
}

/// The statement that lists the fields of `measurement`.
pub fn get_field_keys(measurement: &str) -> (r: String)
    ensures
        r@ == field_keys_statement(measurement@),
{
    framed("SHOW FIELD KEYS FROM \"", measurement, "\"")
}

/// The statement that lists the tags of `measurement`.
pub fn get_tag_keys(measurement: &str) -> (r: String)
    ensures
        r@ == tag_keys_statement(measurement@),
{
    framed("SHOW TAG KEYS FROM \"", measurement, "\"")
}

/// The end of the gathering in the failure `e`.
fn end_in(e: AppError) -> (next: InfoNext)
    ensures
        ends_in(next, (e.kind(), e.detail())),
{
    InfoNext::Finish(ApiResponse::fail(None, e.to_string()))
}

/// Decides the next step in gathering what is known of `measurement` in `database`.
///
/// The caller begins with `Begin`, sends the request that the answer holds, and comes back
/// with its outcome, until the answer is an envelope.
pub fn get_measurement_info(
    service: &InfluxDBService,
    database: &str,
    measurement: &str,
    progress: InfoProgress,
) -> (next: InfoNext)
    ensures
        follows(next, service.deep_view(), database@, measurement@, progress),
{
    match progress {
        InfoProgress::Begin => match service.get_measurements_request(database) {
            Ok(request) => InfoNext::ListMeasurements(request),
            Err(e) => end_in(e),
        },
        InfoProgress::Listed { outcome, elapsed } => match service.get_measurements(
            database,
            outcome,
            elapsed,
        ) {
            Err(e) => end_in(e),
            Ok(names) => {
                if lists(&names, measurement) {
                    let statement = get_field_keys(measurement);
                    match service.query_with_database_request(statement.as_str(), database) {
                        Ok(request) => InfoNext::ReadFieldKeys(request),
                        Err(e) => end_in(e),
                    }
                } else {
                    let mut text = framed("Measurement '", measurement, "' not found in database '");
                    text.append(database);
                    text.append("'");
                    InfoNext::Finish(ApiResponse::fail(None, text))
                }
            },
        },
        InfoProgress::FieldKeysRead { outcome, elapsed } => {
            let statement = get_field_keys(measurement);
            match service.query(statement.as_str(), outcome, elapsed) {
                Err(e) => end_in(e),
                Ok(result) => {
                    let statement = get_tag_keys(measurement);
                    match service.query_with_database_request(statement.as_str(), database) {
                        Ok(request) => InfoNext::ReadTagKeys {
                            request,
                            field_keys: field_keys_from_result(&result),
                        },
                        Err(e) => end_in(e),
                    }
                },
            }
        },
        InfoProgress::TagKeysRead { field_keys, outcome, elapsed } => {
            let statement = get_tag_keys(measurement);
            match service.query(statement.as_str(), outcome, elapsed) {
                Err(e) => end_in(e),
                Ok(result) => {
                    let info = Measurement {
                        name: measurement.to_owned(),
                        tag_keys: names_from_result(&result),
                        field_keys,
                        series_count: 0,
                    };
                    InfoNext::Finish(ApiResponse::ok(info))
                },
            }
        },
    }
}

/// The statement that creates `measurement` in `database` by one point of the given fields
/// and tags, or the refusal of an empty name or an empty list of fields.
pub fn create_measurement_query(
    database: &str,
    measurement: &str,
    fields: &Vec<MeasurementField>,
    tags: Option<&Vec<(String, String)>>,
) -> (r: Result<String, ApiResponse<bool>>)
    ensures
        states_creation(r, database@, measurement@, fields.deep_view(), tags.deep_view()),
{
    if measurement.is_empty() {
        return Err(ApiResponse::refuse("Measurement name cannot be empty"));
    }
    if fields.len() == 0 {
        return Err(ApiResponse::refuse("At least one field must be specified"));
    }
    let line = line_protocol_text(measurement, tags, fields);
    let mut statement = framed("INSERT INTO ", database, " ");
    statement.append(line.as_str());
    Ok(statement)
}

/// The request that creates `measurement` in `database` by one point of the given fields
/// and tags, or the refusal of an empty name or an empty list of fields. The request goes
/// to `database`, whatever database the service is configured with.
pub fn create_measurement_request(
    service: &InfluxDBService,
    database: &str,
    measurement: &str,
    fields: &Vec<MeasurementField>,
    tags: Option<&Vec<(String, String)>>,
) -> (r: Result<HttpRequest, ApiResponse<bool>>)
    ensures
        match creation_refusal(measurement@, fields@.len()) {
            Some(refusal) => r matches Err(response) && response.failed_with(Some(false), refusal),
            None => asks(
                r,
                service.deep_view().query_request(
                    insert_statement(
                        database@,
                        line_protocol(measurement@, tags.deep_view(), fields.deep_view()),
                    ),
                    database@,
                ),
            ),
        },
{
    match create_measurement_query(database, measurement, fields, tags) {
        Err(refusal) => Err(refusal),
        Ok(statement) => request_for(service, statement.as_str(), database),
    }
}

/// Answers a request to create `measurement`, given the outcome of its request. A
/// measurement without a name or without fields is refused whatever the outcome.
pub fn create_measurement(
    service: &InfluxDBService,
    database: &str,
    measurement: &str,
    fields: &Vec<MeasurementField>,
    tags: Option<&Vec<(String, String)>>,
    outcome: HttpOutcome,
    elapsed: u64,
) -> (r: Result<ApiResponse<bool>, String>)
    ensures
        r is Ok,
        match creation_refusal(measurement@, fields@.len()) {
            Some(refusal) => r->Ok_0.failed_with(Some(false), refusal),
            None => settles(
                r->Ok_0,
                service.deep_view().query_result(
                    insert_statement(
                        database@,
                        line_protocol(measurement@, tags.deep_view(), fields.deep_view()),
                    ),
                    outcome.deep_view(),
                    elapsed,
                ),
            ),
        },
{
    match create_measurement_query(database, measurement, fields, tags) {
        Err(refusal) => Ok(refusal),
        Ok(statement) => Ok(settle(service, statement.as_str(), outcome, elapsed)),
    }
}

/// The statement that drops `measurement`, or the refusal of an empty name.
pub fn delete_measurement_query(measurement: &str) -> (r: Result<String, ApiResponse<bool>>)
    ensures
        states(
            r,
            measurement@,
            drop_measurement_statement(measurement@),
            "Measurement name cannot be empty"@,
        ),
{
    if measurement.is_empty() {
        return Err(ApiResponse::refuse("Measurement name cannot be empty"));
    }
    Ok(framed("DROP MEASUREMENT \"", measurement, "\""))
}

/// The request that drops `measurement` in `database`, or the refusal of an empty name. The
/// request goes to `database`, whatever database the service is configured with.
pub fn delete_measurement_request(service: &InfluxDBService, database: &str, measurement: &str) -> (r:
    Result<HttpRequest, ApiResponse<bool>>)
    ensures
        measurement@.len() == 0 ==> (r matches Err(response) && response.failed_with(
            Some(false),
            "Measurement name cannot be empty"@,
        )),
        measurement@.len() > 0 ==> asks(
            r,
            service.deep_view().query_request(drop_measurement_statement(measurement@), database@),
        ),
{
    match delete_measurement_query(measurement) {
        Err(refusal) => Err(refusal),
        Ok(statement) => request_for(service, statement.as_str(), database),
    }
}

/// Answers a request to drop `measurement`, given the outcome of its request. An empty name
/// is refused whatever the outcome.
pub fn delete_measurement(
    service: &InfluxDBService,
    measurement: &str,
    outcome: HttpOutcome,
    elapsed: u64,
) -> (r: Result<ApiResponse<bool>, String>)
    ensures
        r is Ok,
        measurement@.len() == 0 ==> r->Ok_0.failed_with(
            Some(false),
            "Measurement name cannot be empty"@,
        ),
        measurement@.len() > 0 ==> settles(
            r->Ok_0,
            service.deep_view().query_result(
                drop_measurement_statement(measurement@),
                outcome.deep_view(),
                elapsed,
            ),
        ),
{
    match delete_measurement_query(measurement) {
        Err(refusal) => Ok(refusal),
        Ok(statement) => Ok(settle(service, statement.as_str(), outcome, elapsed)),
    }
}

/// The statement that inserts a line carries the line as its payload: what the legacy
/// adapter takes out of `INSERT INTO database line` is `line` as it stands. The database
/// name is not empty, holds no white space and does not begin with a quote; the line
/// neither begins nor ends with white space.
pub proof fn law_insert_statement_carries_line(database: Seq<char>, line: Seq<char>)
    requires
        database.len() > 0,
        database[0] != '"',
        forall|j: int| 0 <= j < database.len() ==> !is_space(#[trigger] database[j]),
        line.len() > 0,
        !is_space(line[0]),
        !is_space(line.last()),
    ensures
        is_insert(insert_statement(database, line)),
        insert_payload(insert_statement(database, line)) == Ok::<Seq<char>, InsertFault>(line),
{
    reveal_strlit("INSERT INTO ");
    reveal_strlit("INSERT INTO");
    reveal_strlit(" ");
    let q = insert_statement(database, line);
    assert forall|i: int| 0 <= i < "INSERT INTO"@.len() implies same_letter(
        #[trigger] q[i],
        "INSERT INTO"@[i],
    ) by {
        assert(q[i] == "INSERT INTO "@[i]);
    }
    lemma_into_has_insert(q);
    assert(q.skip(11) =~= seq![' '] + database + seq![' '] + line);
    assert(is_blank(seq![' ']));
    law_payload_after_bare_name_with_into(q, seq![' '], database, seq![' '], line);
}

/// A new measurement is written to the database that the caller names: for a legacy
/// service the request that creates it is the write of the line to `database`, whatever
/// database the service is configured with. The conditions are those under which the
/// insert statement carries the line.
pub proof fn law_measurement_is_written_to_the_named_database(
    config: V1ConfigModel,
    database: Seq<char>,
    line: Seq<char>,
)
    requires
        database.len() > 0,
        database[0] != '"',
        forall|j: int| 0 <= j < database.len() ==> !is_space(#[trigger] database[j]),
        line.len() > 0,
        !is_space(line[0]),
        !is_space(line.last()),
    ensures
        ServiceModel::V1(config).query_request(insert_statement(database, line), database) == Ok::<
            RequestModel,
            (ErrorKind, Seq<char>),
        >(v1_write_request(config, line, database)),
{
    law_insert_statement_carries_line(database, line);
}

/// A measurement is dropped in the database that the caller names: for a legacy service
/// the request is the read with the drop statement against `database`.
pub proof fn law_measurement_is_dropped_in_the_named_database(
    config: V1ConfigModel,
    database: Seq<char>,
    measurement: Seq<char>,
)
    ensures
        ServiceModel::V1(config).query_request(drop_measurement_statement(measurement), database)
            == Ok::<RequestModel, (ErrorKind, Seq<char>)>(
            v1_read_request(config, drop_measurement_statement(measurement), database),
        ),
{
    reveal_strlit("DROP MEASUREMENT \"");
    reveal_strlit("INSERT");
    let q = drop_measurement_statement(measurement);
    assert(q[0] == 'D');
    assert(!same_letter(q[0], "INSERT"@[0]));
}

} // verus!
