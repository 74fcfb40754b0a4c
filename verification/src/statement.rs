//! Statements of the legacy query dialect: what an insert statement carries, and the texts of
//! the statements that the adapter issues itself.

use vstd::prelude::*;
use vstd::string::StringExecFns;
use crate::error::{AppError, ErrorKind};
use crate::text::{
    char_is_space, chars_of, find_char, find_space, has_keyword, index_of, index_of_space, is_blank, is_space,
    lemma_index_of, lemma_index_of_bounds, lemma_index_of_space, lemma_index_of_space_bounds,
    lemma_trim_end, lemma_trim_start, same_letter, starts_with_keyword, tail_from, text_of,
    trim_bounds, trimmed,
};

verus! {

/// Why an insert statement yields no payload.
#[derive(Clone, Copy, Debug, PartialEq, Eq, Structural)]
pub enum InsertFault {
    /// The statement does not begin with the insert keyword.
    NotInsert,
    /// The database name opens a quotation that is never closed.
    UnbalancedQuotes,
    /// Nothing is left for the payload.
    MissingData,
}

/// The detail of the validation failure for each fault.
pub open spec fn insert_fault_text(fault: InsertFault) -> Seq<char> {
    match fault {
        InsertFault::NotInsert => "INSERT 语句必须以 'INSERT' 开头"@,
        InsertFault::UnbalancedQuotes => "数据库名引号不匹配"@,
        InsertFault::MissingData => "INSERT 语句缺少数据行"@,
    }
}

/// The payload behind a quoted database name. `rest` begins with the opening quote; the name
/// ends at the next quote, and the payload is what follows it, without the white space
/// around it.
pub open spec fn payload_after_quoted(rest: Seq<char>) -> Result<Seq<char>, InsertFault> {
    let close = 1 + index_of(rest.skip(1), '"');
    if close >= rest.len() {
        Err(InsertFault::UnbalancedQuotes)
    } else {
        let payload = trimmed(rest.skip(close + 1));
        if payload.len() == 0 {
            Err(InsertFault::MissingData)
        } else {
            Ok(payload)
        }
    }
}

/// The payload behind a bare database name: the name ends at the first white space.
pub open spec fn payload_after_bare(rest: Seq<char>) -> Result<Seq<char>, InsertFault> {
    let payload = trimmed(rest.skip(index_of_space(rest)));
    if payload.len() == 0 {
        Err(InsertFault::MissingData)
    } else {
        Ok(payload)
    }
}

/// The payload of a statement without `INTO` and without a quoted name. Its first word is a
/// database name where more words follow and the word holds no `=`; otherwise all of `rest`
/// is the payload.
pub open spec fn payload_after_keyword(rest: Seq<char>) -> Seq<char> {
    let word = index_of_space(rest);
    if word < rest.len() && index_of(rest.take(word), '=') == word {
        trimmed(rest.skip(word))
    } else {
        rest
    }
}

/// Whether `q` begins with `INSERT INTO` as whole words, in any ASCII case: behind `INTO`
/// the text ends, or white space or a quote follows.
pub open spec fn has_into(q: Seq<char>) -> bool {
    has_keyword(q, "INSERT INTO"@) && (q.len() == 11 || is_space(q[11]) || q[11] == '"')
}

/// What an insert statement carries: the line-protocol payload, or the reason why there is
/// none.
///
/// The statement begins with `INSERT` or `INSERT INTO`, in any ASCII case. After
/// `INSERT INTO` a database name follows, quoted or bare. Without `INTO` the name may be
/// left out. The payload is the text behind the name, taken as it stands but for the white
/// space around it.
pub open spec fn insert_payload(q: Seq<char>) -> Result<Seq<char>, InsertFault> {
    if !has_keyword(q, "INSERT"@) {
        Err(InsertFault::NotInsert)
    } else if has_into(q) {
        let rest = trimmed(tail_from(q, 11));
        if rest.len() > 0 && rest[0] == '"' {
            payload_after_quoted(rest)
        } else {
            payload_after_bare(rest)
        }
    } else {
        let rest = trimmed(tail_from(q, 6));
        if rest.len() == 0 {
            Err(InsertFault::MissingData)
        } else if rest[0] == '"' {
            payload_after_quoted(rest)
        } else {
            Ok(payload_after_keyword(rest))
        }
    }
}

/// Whether `r` is what `expected` asks for: the payload itself, or a validation failure with
/// the text of the fault.
pub open spec fn reports_payload(
    r: Result<String, AppError>,
    expected: Result<Seq<char>, InsertFault>,
) -> bool {
    match expected {
        Ok(payload) => r matches Ok(s) && s@ == payload,
        Err(fault) => r matches Err(e) && e.is(ErrorKind::Validation, insert_fault_text(fault)),
    }
}

/// The validation failure for `fault`.
fn insert_failure(fault: InsertFault) -> (r: Result<String, AppError>)
    ensures
        reports_payload(r, Err(fault)),
{
    let text = match fault {
        InsertFault::NotInsert => "INSERT 语句必须以 'INSERT' 开头",
        InsertFault::UnbalancedQuotes => "数据库名引号不匹配",
        InsertFault::MissingData => "INSERT 语句缺少数据行",
    };
    Err(AppError::Validation(String::from_str(text)))
}

/// The payload among the characters from `from` up to `to`, which begin with a quote.
fn quoted_payload(chars: &Vec<char>, from: usize, to: usize) -> (r: Result<String, AppError>)
    requires
        from < to <= chars@.len(),
    ensures
        reports_payload(r, payload_after_quoted(chars@.subrange(from as int, to as int))),
{
    let ghost rest = chars@.subrange(from as int, to as int);
    proof {
        assert(rest.skip(1) =~= chars@.subrange(from + 1, to as int));
    }
    let close = 1 + find_char(chars, from + 1, to, '"');
    if close >= to - from {
        insert_failure(InsertFault::UnbalancedQuotes)
    } else {
        proof {
            assert(rest.skip(close + 1) =~= chars@.subrange(from + close + 1, to as int));
        }
        let (a, b) = trim_bounds(chars, from + close + 1, to);
        if a == b {
            proof {
                assert(chars@.subrange(a as int, b as int).len() == 0);
            }
            insert_failure(InsertFault::MissingData)
        } else {
            Ok(text_of(chars, a, b))
        }
    }
}

/// Takes the line-protocol payload out of an insert statement.
///
/// Returns the payload where the statement has one, and otherwise a validation failure
/// that says what is wrong: the keyword is missing, the quotation of the database name is
/// not closed, or no payload is left.
pub fn parse_insert_statement(insert_query: &str) -> (r: Result<String, AppError>)
    ensures
        reports_payload(r, insert_payload(insert_query@)),
        !is_insert(insert_query@) ==> (r matches Err(e) && e.is(
            ErrorKind::Validation,
            insert_fault_text(InsertFault::NotInsert),
        )),
{
    let chars = chars_of(insert_query);
    let n = chars.len();
    if !starts_with_keyword(&chars, "INSERT") {
        return insert_failure(InsertFault::NotInsert);
    }
    proof {
        reveal_strlit("INSERT INTO");
    }
    let into = starts_with_keyword(&chars, "INSERT INTO") && (n == 11 || char_is_space(chars[11])
        || chars[11] == '"');
    let skip: usize = if into {
        11
    } else {
        6
    };
    let start: usize = if skip <= n {
        skip
    } else {
        n
    };
    proof {
        assert(tail_from(chars@, skip as int) =~= chars@.subrange(start as int, n as int));
    }
    let (a, b) = trim_bounds(&chars, start, n);
    let ghost rest = chars@.subrange(a as int, b as int);
    if a < b && chars[a] == '"' {
        quoted_payload(&chars, a, b)
    } else if into {
        let k = find_space(&chars, a, b);
        proof {
            assert(rest.skip(k as int) =~= chars@.subrange(a + k, b as int));
        }
        let (c, d) = trim_bounds(&chars, a + k, b);
        if c == d {
            proof {
                assert(chars@.subrange(c as int, d as int).len() == 0);
            }
            insert_failure(InsertFault::MissingData)
        } else {
            Ok(text_of(&chars, c, d))
        }
    } else if a == b {
        insert_failure(InsertFault::MissingData)
    } else {
        let word = find_space(&chars, a, b);
        proof {
            assert(rest.take(word as int) =~= chars@.subrange(a as int, a + word));
            assert(rest.skip(word as int) =~= chars@.subrange(a + word, b as int));
        }
        if word < b - a && find_char(&chars, a, a + word, '=') == word {
            let (c, d) = trim_bounds(&chars, a + word, b);
            Ok(text_of(&chars, c, d))
        } else {
            Ok(text_of(&chars, a, b))
        }
    }
}

/// `before` and `after` as one text.
pub fn joined(before: &str, after: &str) -> (r: String)
    ensures
        r@ == before@ + after@,
{
    let mut r = String::from_str(before);
    r.append(after);
    r
}

/// `before`, `middle` and `after` as one text.
pub fn framed(before: &str, middle: &str, after: &str) -> (r: String)
    ensures
        r@ == before@ + middle@ + after@,
{
    let mut r = String::from_str(before);
    r.append(middle);
    r.append(after);
    r
}

/// Whether `query` is an insert statement: it begins with `INSERT`, in any ASCII case.
pub open spec fn is_insert(query: Seq<char>) -> bool {
    has_keyword(query, "INSERT"@)
}

/// The expression of the newer dialect that lists the buckets by name.
pub open spec fn buckets_listing() -> Seq<char> {
    "buckets() |> rename(columns: {name: \"name\"}) |> keep(columns: [\"name\"])"@
}

/// The expression of the newer dialect that lists the measurements of `bucket`.
pub open spec fn measurements_listing(bucket: Seq<char>) -> Seq<char> {
    "import \"influxdata/influxdb/schema\"\nschema.measurements(bucket: \""@ + bucket + "\")"@
}

/// What is sent to a backend of the newer dialect for `query`: the bucket listing for a
/// statement that begins with `SHOW DATABASES`, the measurement listing of `bucket` for one
/// that begins with `SHOW MEASUREMENTS`, each in any ASCII case, and `query` itself otherwise.
pub open spec fn flux_for(query: Seq<char>, bucket: Seq<char>) -> Seq<char> {
    if has_keyword(query, "SHOW DATABASES"@) {
        buckets_listing()
    } else if has_keyword(query, "SHOW MEASUREMENTS"@) {
        measurements_listing(bucket)
    } else {
        query
    }
}

/// The statement of the legacy dialect that lists the retention policies of `database`.
pub open spec fn retention_policies_statement(database: Seq<char>) -> Seq<char> {
    "SHOW RETENTION POLICIES ON "@ + database
}

/// The statement of the legacy dialect that lists the measurements of `database`.
pub open spec fn measurements_statement(database: Seq<char>) -> Seq<char> {
    "SHOW MEASUREMENTS ON "@ + database
}

/// Tells whether `query` is an insert statement.
pub fn is_insert_statement(query: &str) -> (b: bool)
    ensures
        b == is_insert(query@),
{
    let chars = chars_of(query);
    starts_with_keyword(&chars, "INSERT")
}

/// Writes the expression that lists the measurements of `bucket`.
pub fn measurements_listing_text(bucket: &str) -> (r: String)
    ensures
        r@ == measurements_listing(bucket@),
{
    framed("import \"influxdata/influxdb/schema\"\nschema.measurements(bucket: \"", bucket, "\")")
}

/// Rewrites a statement for a backend of the newer dialect: the two listing statements of
/// the legacy dialect become expressions of the newer one, and anything else passes
/// unchanged.
pub fn to_flux(query: &str, bucket: &str) -> (r: String)
    ensures
        r@ == flux_for(query@, bucket@),
{
    let chars = chars_of(query);
    if starts_with_keyword(&chars, "SHOW DATABASES") {
        String::from_str(
            "buckets() |> rename(columns: {name: \"name\"}) |> keep(columns: [\"name\"])",
        )
    } else if starts_with_keyword(&chars, "SHOW MEASUREMENTS") {
        measurements_listing_text(bucket)
    } else {
        query.to_owned()
    }
}

/// A text between two stretches of white space is what trimming leaves of the whole, where
/// the text itself neither begins nor ends with white space.
pub proof fn lemma_trimmed_between(before: Seq<char>, text: Seq<char>, after: Seq<char>)
    requires
        is_blank(before),
        is_blank(after),
        text.len() > 0,
        !is_space(text[0]),
        !is_space(text.last()),
    ensures
        trimmed(before + text + after) == text,
{
    let whole = before + text + after;
    assert forall|j: int| 0 <= j < before.len() implies is_space(whole[j]) by {
        assert(whole[j] == before[j]);
    }
    assert(whole[before.len() as int] == text[0]);
    lemma_trim_start(whole, before.len() as int);
    let rest = whole.skip(before.len() as int);
    assert(rest =~= text + after);
    assert forall|j: int| text.len() <= j < rest.len() implies is_space(rest[j]) by {
        assert(rest[j] == after[j - text.len()]);
    }
    assert(rest[text.len() - 1] == text.last());
    lemma_trim_end(rest, text.len() as int);
    assert(rest.take(text.len() as int) =~= text);
}

/// A statement that begins with `INSERT INTO` begins with `INSERT`.
pub proof fn lemma_into_has_insert(q: Seq<char>)
    requires
        has_keyword(q, "INSERT INTO"@),
    ensures
        has_keyword(q, "INSERT"@),
        q.len() >= 11,
{
    reveal_strlit("INSERT INTO");
    reveal_strlit("INSERT");
    assert forall|i: int| 0 <= i < "INSERT"@.len() implies same_letter(
        #[trigger] q[i],
        "INSERT"@[i],
    ) by {
        assert(same_letter(q[i], "INSERT INTO"@[i]));
    }
}

/// A statement is not in the form with `INTO` where the character behind `INSERT` is a
/// quote, or the one after that is white space or a quote or is missing.
pub proof fn lemma_no_into(q: Seq<char>)
    requires
        q.len() >= 6,
        q.len() < 8 || is_space(q[7]) || q[7] == '"' || q[6] == '"',
    ensures
        !has_into(q),
{
    reveal_strlit("INSERT INTO");
    if has_keyword(q, "INSERT INTO"@) {
        assert(same_letter(q[6], "INSERT INTO"@[6]));
        assert(same_letter(q[7], "INSERT INTO"@[7]));
    }
}

/// The payload behind a quoted name: where `rest` is a quote, a name without quotes, a
/// quote, white space, and a payload that neither begins nor ends with white space, the
/// payload is returned as it stands.
pub proof fn lemma_quoted_payload(
    rest: Seq<char>,
    database: Seq<char>,
    gap: Seq<char>,
    payload: Seq<char>,
)
    requires
        rest == seq!['"'] + database + seq!['"'] + gap + payload,
        !database.contains('"'),
        is_blank(gap),
        payload.len() > 0,
        !is_space(payload[0]),
        !is_space(payload.last()),
    ensures
        payload_after_quoted(rest) == Ok::<Seq<char>, InsertFault>(payload),
{
    let inner = rest.skip(1);
    assert(inner =~= database + seq!['"'] + gap + payload);
    assert forall|j: int| 0 <= j < database.len() implies inner[j] != '"' by {
        assert(inner[j] == database[j]);
        assert(database.contains(database[j]));
    }
    assert(inner[database.len() as int] == '"');
    lemma_index_of(inner, '"', database.len() as int);
    let close = (1 + database.len()) as int;
    assert(rest.skip(close + 1) =~= Seq::<char>::empty() + gap + payload);
    assert(Seq::<char>::empty() + gap + payload =~= gap + payload + Seq::<char>::empty());
    lemma_trimmed_between(gap, payload, Seq::empty());
}

/// The payload behind a bare name: where `rest` is a name without white space, white
/// space, and a payload that neither begins nor ends with white space, the payload is
/// returned as it stands.
pub proof fn lemma_bare_payload(rest: Seq<char>, database: Seq<char>, gap: Seq<char>, payload: Seq<char>)
    requires
        rest == database + gap + payload,
        forall|j: int| 0 <= j < database.len() ==> !is_space(#[trigger] database[j]),
        is_blank(gap),
        gap.len() > 0,
        payload.len() > 0,
        !is_space(payload[0]),
        !is_space(payload.last()),
    ensures
        index_of_space(rest) == database.len(),
        trimmed(rest.skip(database.len() as int)) == payload,
        payload_after_bare(rest) == Ok::<Seq<char>, InsertFault>(payload),
{
    let word = database.len() as int;
    assert forall|j: int| 0 <= j < word implies !is_space(rest[j]) by {
        assert(rest[j] == database[j]);
    }
    assert(rest[word] == gap[0]);
    lemma_index_of_space(rest, word);
    assert(rest.skip(word) =~= gap + payload + Seq::<char>::empty());
    lemma_trimmed_between(gap, payload, Seq::empty());
}

/// The quoted form with `INTO`: in `INSERT INTO "db" payload`, whatever the case of the
/// keywords and however much white space stands around the name, the payload is returned
/// as it stands. The name holds no quote; the payload neither begins nor ends with white
/// space.
pub proof fn law_payload_after_quoted_name_with_into(
    q: Seq<char>,
    lead: Seq<char>,
    database: Seq<char>,
    gap: Seq<char>,
    payload: Seq<char>,
)
    requires
        has_keyword(q, "INSERT INTO"@),
        tail_from(q, 11) == lead + seq!['"'] + database + seq!['"'] + gap + payload,
        is_blank(lead),
        is_blank(gap),
        !database.contains('"'),
        payload.len() > 0,
        !is_space(payload[0]),
        !is_space(payload.last()),
    ensures
        insert_payload(q) == Ok::<Seq<char>, InsertFault>(payload),
{
    lemma_into_has_insert(q);
    let rest = seq!['"'] + database + seq!['"'] + gap + payload;
    let behind = q.skip(11);
    assert(behind[0] == q[11]);
    if lead.len() > 0 {
        assert(behind[0] == lead[0]);
    } else {
        assert(behind[0] == '"');
    }
    assert(rest[0] == '"');
    assert(rest.last() == payload.last());
    assert(!is_space('"'));
    assert(behind =~= lead + rest + Seq::<char>::empty());
    lemma_trimmed_between(lead, rest, Seq::empty());
    lemma_quoted_payload(rest, database, gap, payload);
}

/// The quoted form without `INTO`: in `INSERT "db" payload` the payload is returned as it
/// stands, under the same conditions as with `INTO`.
pub proof fn law_payload_after_quoted_name(
    q: Seq<char>,
    lead: Seq<char>,
    database: Seq<char>,
    gap: Seq<char>,
    payload: Seq<char>,
)
    requires
        has_keyword(q, "INSERT"@),
        q.len() >= 6,
        q.skip(6) == lead + seq!['"'] + database + seq!['"'] + gap + payload,
        is_blank(lead),
        is_blank(gap),
        !database.contains('"'),
        payload.len() > 0,
        !is_space(payload[0]),
        !is_space(payload.last()),
    ensures
        insert_payload(q) == Ok::<Seq<char>, InsertFault>(payload),
{
    let rest = seq!['"'] + database + seq!['"'] + gap + payload;
    let behind = q.skip(6);
    assert(behind[0] == q[6]);
    assert(behind[1] == q[7]);
    if lead.len() == 0 {
        assert(behind[0] == '"');
    } else if lead.len() == 1 {
        assert(behind[1] == '"');
    } else {
        assert(behind[1] == lead[1]);
    }
    lemma_no_into(q);
    assert(rest[0] == '"');
    assert(rest.last() == payload.last());
    assert(!is_space('"'));
    assert(behind =~= lead + rest + Seq::<char>::empty());
    lemma_trimmed_between(lead, rest, Seq::empty());
    lemma_quoted_payload(rest, database, gap, payload);
}

/// The bare form with `INTO`: in `INSERT INTO db payload` the payload is returned as it
/// stands. White space stands before the name; the name is not empty, holds no white space
/// and does not begin with a quote; white space ends it; the payload neither begins nor
/// ends with white space.
pub proof fn law_payload_after_bare_name_with_into(
    q: Seq<char>,
    lead: Seq<char>,
    database: Seq<char>,
    gap: Seq<char>,
    payload: Seq<char>,
)
    requires
        has_keyword(q, "INSERT INTO"@),
        tail_from(q, 11) == lead + database + gap + payload,
        is_blank(lead),
        lead.len() > 0,
        is_blank(gap),
        gap.len() > 0,
        database.len() > 0,
        database[0] != '"',
        forall|j: int| 0 <= j < database.len() ==> !is_space(#[trigger] database[j]),
        payload.len() > 0,
        !is_space(payload[0]),
        !is_space(payload.last()),
    ensures
        insert_payload(q) == Ok::<Seq<char>, InsertFault>(payload),
{
    lemma_into_has_insert(q);
    let rest = database + gap + payload;
    let behind = q.skip(11);
    assert(behind[0] == q[11]);
    assert(behind[0] == lead[0]);
    assert(rest[0] == database[0]);
    assert(rest.last() == payload.last());
    assert(behind =~= lead + rest + Seq::<char>::empty());
    lemma_trimmed_between(lead, rest, Seq::empty());
    lemma_bare_payload(rest, database, gap, payload);
}

/// The bare form without `INTO`: in `INSERT db payload` the payload is returned as it
/// stands. The name is not the word `INTO`; it is not empty, holds neither white space nor
/// `=`, and does not begin with a quote; white space ends it; the payload neither begins
/// nor ends with white space.
pub proof fn law_payload_after_bare_name(
    q: Seq<char>,
    lead: Seq<char>,
    database: Seq<char>,
    gap: Seq<char>,
    payload: Seq<char>,
)
    requires
        has_keyword(q, "INSERT"@),
        !has_into(q),
        q.len() >= 6,
        q.skip(6) == lead + database + gap + payload,
        is_blank(lead),
        is_blank(gap),
        gap.len() > 0,
        database.len() > 0,
        database[0] != '"',
        forall|j: int| 0 <= j < database.len() ==> !is_space(#[trigger] database[j]),
        !database.contains('='),
        payload.len() > 0,
        !is_space(payload[0]),
        !is_space(payload.last()),
    ensures
        insert_payload(q) == Ok::<Seq<char>, InsertFault>(payload),
{
    let rest = database + gap + payload;
    assert(rest[0] == database[0]);
    assert(rest.last() == payload.last());
    assert(q.skip(6) =~= lead + rest + Seq::<char>::empty());
    lemma_trimmed_between(lead, rest, Seq::empty());
    let word = database.len() as int;
    lemma_bare_payload(rest, database, gap, payload);
    assert(rest.take(word) =~= database);
    assert forall|j: int| 0 <= j < word implies database[j] != '=' by {
        assert(database.contains(database[j]));
    }
    lemma_index_of(database, '=', word);
}

/// The form without a name: in `INSERT payload` the payload is returned as it stands,
/// where its first word holds a `=` or it is a single word. The payload is not the word
/// `INTO` with more behind it; it neither begins nor ends with white space and does not
/// begin with a quote.
pub proof fn law_payload_without_name(q: Seq<char>, lead: Seq<char>, payload: Seq<char>)
    requires
        has_keyword(q, "INSERT"@),
        !has_into(q),
        q.len() >= 6,
        q.skip(6) == lead + payload,
        is_blank(lead),
        payload.len() > 0,
        payload[0] != '"',
        !is_space(payload[0]),
        !is_space(payload.last()),
        index_of_space(payload) == payload.len() || payload.take(index_of_space(payload)).contains(
            '=',
        ),
    ensures
        insert_payload(q) == Ok::<Seq<char>, InsertFault>(payload),
{
    assert(q.skip(6) =~= lead + payload + Seq::<char>::empty());
    lemma_trimmed_between(lead, payload, Seq::empty());
    let word = index_of_space(payload);
    if word < payload.len() {
        let first = payload.take(word);
        lemma_index_of_bounds(first, '=');
        if index_of(first, '=') == first.len() {
            let k = choose|k: int| 0 <= k < first.len() && first[k] == '=';
            assert(first[k] != '=');
        }
        lemma_index_of_space_bounds(payload);
    }
}

} // verus!
