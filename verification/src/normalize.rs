//! The response normalizer: turns what either dialect answers into the one tabular shape,
//! and reads names out of that shape. Order is kept as received; nothing is sorted or
//! dropped but what is said here.

use vstd::prelude::*;
use vstd::string::StringExecFns;
use crate::json::{JsonModel, JsonValue};
use crate::models::{QueryResult, Series, SeriesModel};
use crate::text::{
    chars_of, fields_of, is_blank, line_ranges, lines_of, pieces, range_is_blank,
    ranges_within, split_fields,
};

verus! {

/// The texts among `items`, in their order; what is no string is passed over.
pub open spec fn texts_among(items: Seq<JsonModel>) -> Seq<Seq<char>>
    decreases items.len(),
{
    if items.len() == 0 {
        Seq::empty()
    } else {
        let before = texts_among(items.drop_last());
        match items.last().as_str() {
            Some(s) => before.push(s),
            None => before,
        }
    }
}

/// The rows among `items`, in their order; what is no array is passed over. A row keeps its
/// cells as they are, however many.
pub open spec fn rows_among(items: Seq<JsonModel>) -> Seq<Seq<JsonModel>>
    decreases items.len(),
{
    if items.len() == 0 {
        Seq::empty()
    } else {
        let before = rows_among(items.drop_last());
        match items.last().as_array() {
            Some(row) => before.push(row),
            None => before,
        }
    }
}

/// The position of the first of `tags` whose key is `key`, or `tags.len()` where there is
/// none.
pub open spec fn tag_position(tags: Seq<(Seq<char>, Seq<char>)>, key: Seq<char>) -> int
    decreases tags.len(),
{
    if tags.len() == 0 || tags[0].0 == key {
        0
    } else {
        1 + tag_position(tags.drop_first(), key)
    }
}

/// `tags` with `value` under `key`: in the place of the value that the key had, or at the
/// end where the key is new.
pub open spec fn with_tag(
    tags: Seq<(Seq<char>, Seq<char>)>,
    key: Seq<char>,
    value: Seq<char>,
) -> Seq<(Seq<char>, Seq<char>)> {
    let at = tag_position(tags, key);
    if 0 <= at < tags.len() {
        tags.update(at, (key, value))
    } else {
        tags.push((key, value))
    }
}

/// Whether no key occurs twice among `tags`.
pub open spec fn keys_distinct(tags: Seq<(Seq<char>, Seq<char>)>) -> bool {
    forall|i: int, j: int| 0 <= i < j < tags.len() ==> tags[i].0 != tags[j].0
}

/// The tags among `entries`: each entry whose value is a string, as a map keeps them. A key
/// stands where it first occurred, with the value that it had last; an entry whose value
/// is no string is passed over.
pub open spec fn tags_among(entries: Seq<(Seq<char>, JsonModel)>) -> Seq<(Seq<char>, Seq<char>)>
    decreases entries.len(),
{
    if entries.len() == 0 {
        Seq::empty()
    } else {
        let before = tags_among(entries.drop_last());
        match entries.last().1.as_str() {
            Some(s) => with_tag(before, entries.last().0, s),
            None => before,
        }
    }
}

/// Where `tag_position` points: within bounds, at `key` unless at the end, with no `key`
/// before.
pub proof fn lemma_tag_position(tags: Seq<(Seq<char>, Seq<char>)>, key: Seq<char>)
    ensures
        0 <= tag_position(tags, key) <= tags.len(),
        tag_position(tags, key) < tags.len() ==> tags[tag_position(tags, key)].0 == key,
        forall|j: int| 0 <= j < tag_position(tags, key) ==> tags[j].0 != key,
    decreases tags.len(),
{
    if tags.len() == 0 || tags[0].0 == key {
    } else {
        let rest = tags.drop_first();
        lemma_tag_position(rest, key);
        assert forall|j: int| 0 <= j < tag_position(tags, key) implies tags[j].0 != key by {
            if j > 0 {
                assert(rest[j - 1] == tags[j]);
            }
        }
    }
}

/// The first of `tags` with `key` is at the position before which the key does not occur.
pub proof fn lemma_tag_found(tags: Seq<(Seq<char>, Seq<char>)>, key: Seq<char>, at: int)
    requires
        0 <= at <= tags.len(),
        forall|j: int| 0 <= j < at ==> tags[j].0 != key,
        at < tags.len() ==> tags[at].0 == key,
    ensures
        tag_position(tags, key) == at,
    decreases tags.len(),
{
    if tags.len() == 0 || tags[0].0 == key {
    } else {
        let rest = tags.drop_first();
        assert forall|j: int| 0 <= j < at - 1 implies rest[j].0 != key by {
            assert(rest[j] == tags[j + 1]);
        }
        lemma_tag_found(rest, key, at - 1);
    }
}

/// Setting a tag keeps every key single.
pub proof fn lemma_with_tag_distinct(
    tags: Seq<(Seq<char>, Seq<char>)>,
    key: Seq<char>,
    value: Seq<char>,
)
    requires
        keys_distinct(tags),
    ensures
        keys_distinct(with_tag(tags, key, value)),
{
    lemma_tag_position(tags, key);
}

/// No key occurs twice among the tags that are read out of an object, whatever the object
/// holds.
pub proof fn law_tags_hold_each_key_once(entries: Seq<(Seq<char>, JsonModel)>)
    ensures
        keys_distinct(tags_among(entries)),
    decreases entries.len(),
{
    if entries.len() > 0 {
        law_tags_hold_each_key_once(entries.drop_last());
        match entries.last().1.as_str() {
            Some(s) => lemma_with_tag_distinct(
                tags_among(entries.drop_last()),
                entries.last().0,
                s,
            ),
            None => {},
        }
    }
}

/// The items of the array under `key` in `data`, where there is one.
pub open spec fn member_array(data: JsonModel, key: Seq<char>) -> Option<Seq<JsonModel>> {
    match data.get(key) {
        Some(v) => v.as_array(),
        None => None,
    }
}

/// The series that `data` describes. A missing or ill-typed name is empty, missing columns
/// and rows are none, and tags are present only where `data` has an object of them.
pub open spec fn series_of(data: JsonModel) -> SeriesModel {
    SeriesModel {
        name: match data.get("name"@) {
            Some(v) => match v.as_str() {
                Some(s) => s,
                None => Seq::empty(),
            },
            None => Seq::empty(),
        },
        columns: match member_array(data, "columns"@) {
            Some(items) => texts_among(items),
            None => Seq::empty(),
        },
        values: match member_array(data, "values"@) {
            Some(items) => rows_among(items),
            None => Seq::empty(),
        },
        tags: match data.get("tags"@) {
            Some(v) => match v.as_object() {
                Some(entries) => Some(tags_among(entries)),
                None => None,
            },
            None => None,
        },
    }
}

/// The series of the results `results`, those of one result after those of the one before.
/// A result without an array of series has none.
pub open spec fn series_in_results(results: Seq<JsonModel>) -> Seq<SeriesModel>
    decreases results.len(),
{
    if results.len() == 0 {
        Seq::empty()
    } else {
        let before = series_in_results(results.drop_last());
        match member_array(results.last(), "series"@) {
            Some(items) => before + items.map_values(|data: JsonModel| series_of(data)),
            None => before,
        }
    }
}

/// The series that a response document of the legacy dialect holds. A document without an
/// array of results holds none.
pub open spec fn response_series(document: JsonModel) -> Seq<SeriesModel> {
    match member_array(document, "results"@) {
        Some(results) => series_in_results(results),
        None => Seq::empty(),
    }
}

/// The texts at the head of `rows`: of each row its first cell, where the row has one and
/// it is a string.
pub open spec fn first_texts(rows: Seq<Seq<JsonModel>>) -> Seq<Seq<char>>
    decreases rows.len(),
{
    if rows.len() == 0 {
        Seq::empty()
    } else {
        let before = first_texts(rows.drop_last());
        let row = rows.last();
        if row.len() > 0 && row[0].as_str() is Some {
            before.push(row[0].as_str()->Some_0)
        } else {
            before
        }
    }
}

/// The names that `series` list in their first column, series by series and row by row.
pub open spec fn names_in(series: Seq<SeriesModel>) -> Seq<Seq<char>>
    decreases series.len(),
{
    if series.len() == 0 {
        Seq::empty()
    } else {
        names_in(series.drop_last()) + first_texts(series.last().values)
    }
}

/// The lines of `lines` that belong to the table: those that are not blank and, where
/// `skip_comments` is set, do not begin with `#`.
pub open spec fn table_lines(lines: Seq<Seq<char>>, skip_comments: bool) -> Seq<Seq<char>>
    decreases lines.len(),
{
    if lines.len() == 0 {
        Seq::empty()
    } else {
        let before = table_lines(lines.drop_last(), skip_comments);
        if belongs_to_table(lines.last(), skip_comments) {
            before.push(lines.last())
        } else {
            before
        }
    }
}

/// Whether `line` belongs to the table.
pub open spec fn belongs_to_table(line: Seq<char>, skip_comments: bool) -> bool {
    !is_blank(line) && !(skip_comments && line.len() > 0 && line[0] == '#')
}

/// The cells of a data line: its fields, each kept as a string.
pub open spec fn cells_of(line: Seq<char>) -> Seq<JsonModel> {
    fields_of(line, ',').map_values(|field: Seq<char>| JsonModel::String(field))
}

/// The series that a CSV response of the newer dialect holds. The first line of the table
/// names the columns, each further line is a row; a response without such a line holds no
/// series.
pub open spec fn flux_series(text: Seq<char>, skip_comments: bool) -> Seq<SeriesModel> {
    let table = table_lines(lines_of(text), skip_comments);
    if table.len() == 0 {
        Seq::empty()
    } else {
        seq![
            SeriesModel {
                name: "flux_result"@,
                columns: fields_of(table[0], ','),
                values: table.skip(1).map_values(|line: Seq<char>| cells_of(line)),
                tags: None,
            },
        ]
    }
}

/// The texts among `items`.
fn collect_texts(items: &Vec<JsonValue>) -> (r: Vec<String>)
    ensures
        r.deep_view() == texts_among(items.deep_view()),
{
    let ghost all = items.deep_view();
    let mut r: Vec<String> = Vec::new();
    let mut i: usize = 0;
    proof {
        assert(r.deep_view() =~= texts_among(all.take(0)));
    }
    while i < items.len()
        invariant
            i <= items@.len(),
            all == items.deep_view(),
            r.deep_view() == texts_among(all.take(i as int)),
        decreases items@.len() - i,
    {
        let ghost before = r.deep_view();
        proof {
            assert(all.take(i + 1).drop_last() =~= all.take(i as int));
            assert(all.take(i + 1).last() == items@[i as int].deep_view());
        }
        match items[i].as_str() {
            Some(s) => {
                r.push(s.to_owned());
                proof {
                    assert(r.deep_view() =~= before.push(s@));
                }
            },
            None => {},
        }
        i = i + 1;
    }
    proof {
        assert(all.take(i as int) =~= all);
    }
    r
}

/// A copy of `row`.
fn copy_row(row: &Vec<JsonValue>) -> (r: Vec<JsonValue>)
    ensures
        r.deep_view() == row.deep_view(),
{
    let mut r: Vec<JsonValue> = Vec::new();
    let mut i: usize = 0;
    while i < row.len()
        invariant
            i <= row@.len(),
            r@.len() == i,
            forall|j: int| 0 <= j < i ==> (#[trigger] r@[j]).deep_view() == row@[j].deep_view(),
        decreases row@.len() - i,
    {
        r.push(row[i].duplicate());
        i = i + 1;
    }
    proof {
        assert(r.deep_view() =~= row.deep_view());
    }
    r
}

/// The rows among `items`.
fn collect_rows(items: &Vec<JsonValue>) -> (r: Vec<Vec<JsonValue>>)
    ensures
        r.deep_view() == rows_among(items.deep_view()),
{
    let ghost all = items.deep_view();
    let mut r: Vec<Vec<JsonValue>> = Vec::new();
    let mut i: usize = 0;
    proof {
        assert(r.deep_view() =~= rows_among(all.take(0)));
    }
    while i < items.len()
        invariant
            i <= items@.len(),
            all == items.deep_view(),
            r.deep_view() == rows_among(all.take(i as int)),
        decreases items@.len() - i,
    {
        let ghost before = r.deep_view();
        proof {
            assert(all.take(i + 1).drop_last() =~= all.take(i as int));
            assert(all.take(i + 1).last() == items@[i as int].deep_view());
        }
        match items[i].as_array() {
            Some(row) => {
                let copy = copy_row(row);
                r.push(copy);
                proof {
                    assert(r.deep_view() =~= before.push(row.deep_view()));
                }
            },
            None => {},
        }
        i = i + 1;
    }
    proof {
        assert(all.take(i as int) =~= all);
    }
    r
}

/// Puts `value` under `key` among `tags`.
fn set_tag(tags: &mut Vec<(String, String)>, key: String, value: String)
    ensures
        final(tags).deep_view() == with_tag(old(tags).deep_view(), key@, value@),
{
    let ghost before = tags.deep_view();
    let mut i: usize = 0;
    while i < tags.len()
        invariant
            i <= tags@.len(),
            tags@ == old(tags)@,
            before == tags.deep_view(),
            forall|j: int| 0 <= j < i ==> before[j].0 != key@,
        decreases tags@.len() - i,
    {
        if tags[i].0 == key {
            proof {
                assert(before[i as int].0 == key@);
                lemma_tag_found(before, key@, i as int);
            }
            tags.set(i, (key, value));
            proof {
                assert(tags.deep_view() =~= before.update(i as int, (key@, value@)));
            }
            return ;
        }
        i = i + 1;
    }
    proof {
        lemma_tag_found(before, key@, before.len() as int);
    }
    tags.push((key, value));
    proof {
        assert(tags.deep_view() =~= before.push((key@, value@)));
    }
}

/// The tags among `entries`.
fn collect_tags(entries: &Vec<(String, JsonValue)>) -> (r: Vec<(String, String)>)
    ensures
        r.deep_view() == tags_among(entries.deep_view()),
{
    let ghost all = entries.deep_view();
    let mut r: Vec<(String, String)> = Vec::new();
    let mut i: usize = 0;
    proof {
        assert(r.deep_view() =~= tags_among(all.take(0)));
    }
    while i < entries.len()
        invariant
            i <= entries@.len(),
            all == entries.deep_view(),
            r.deep_view() == tags_among(all.take(i as int)),
        decreases entries@.len() - i,
    {
        proof {
            assert(all.take(i + 1).drop_last() =~= all.take(i as int));
            assert(all.take(i + 1).last() == entries@[i as int].deep_view());
        }
        match entries[i].1.as_str() {
            Some(s) => {
                set_tag(&mut r, entries[i].0.clone(), s.to_owned());
            },
            None => {},
        }
        i = i + 1;
    }
    proof {
        assert(all.take(i as int) =~= all);
    }
    r
}

/// Reads one series out of its description in a response document.
///
/// Never fails: a missing or ill-typed part is empty, and tags are absent unless the
/// description holds an object of them.
pub fn series_from_json(data: &JsonValue) -> (r: Series)
    ensures
        r.deep_view() == series_of(data.deep_view()),
        r.deep_view().tags matches Some(tags) ==> keys_distinct(tags),
{
    let name = match data.get("name") {
        Some(v) => match v.as_str() {
            Some(s) => s.to_owned(),
            None => String::new(),
        },
        None => String::new(),
    };
    let columns = match data.get("columns") {
        Some(v) => match v.as_array() {
            Some(items) => collect_texts(items),
            None => Vec::new(),
        },
        None => Vec::new(),
    };
    let values = match data.get("values") {
        Some(v) => match v.as_array() {
            Some(items) => collect_rows(items),
            None => Vec::new(),
        },
        None => Vec::new(),
    };
    let tags = match data.get("tags") {
        Some(v) => match v.as_object() {
            Some(entries) => Some(collect_tags(entries)),
            None => None,
        },
        None => None,
    };
    let r = Series { name, columns, values, tags };
    proof {
        let model = series_of(data.deep_view());
        match data.deep_view().get("tags"@) {
            Some(v) => match v.as_object() {
                Some(entries) => law_tags_hold_each_key_once(entries),
                None => {},
            },
            None => {},
        }
        assert(r.name@ == model.name);
        assert(r.columns.deep_view() =~= model.columns);
        assert(r.values.deep_view() =~= model.values);
        assert(r.tags.deep_view() == model.tags);
    }
    r
}

/// Reads the series out of a response document of the legacy dialect: those of each result
/// in turn. A document without results, or a result without series, adds none.
pub fn series_from_document(document: &JsonValue) -> (r: Vec<Series>)
    ensures
        r.deep_view() == response_series(document.deep_view()),
{
    let mut r: Vec<Series> = Vec::new();
    let results = match document.get("results") {
        Some(v) => match v.as_array() {
            Some(results) => results,
            None => {
                proof {
                    assert(r.deep_view() =~= Seq::<SeriesModel>::empty());
                }
                return r;
            },
        },
        None => {
            proof {
                assert(r.deep_view() =~= Seq::<SeriesModel>::empty());
            }
            return r;
        },
    };
    let ghost all = results.deep_view();
    let mut i: usize = 0;
    proof {
        assert(r.deep_view() =~= series_in_results(all.take(0)));
    }
    while i < results.len()
        invariant
            i <= results@.len(),
            all == results.deep_view(),
            r.deep_view() == series_in_results(all.take(i as int)),
        decreases results@.len() - i,
    {
        proof {
            assert(all.take(i + 1).drop_last() =~= all.take(i as int));
            assert(all.take(i + 1).last() == results@[i as int].deep_view());
        }
        let ghost before = r.deep_view();
        let items = match results[i].get("series") {
            Some(v) => v.as_array(),
            None => None,
        };
        match items {
            Some(items) => {
                let ghost described = items.deep_view();
                let ghost wanted = described.map_values(|data: JsonModel| series_of(data));
                let mut j: usize = 0;
                proof {
                    assert(r.deep_view() =~= before + wanted.take(0));
                }
                while j < items.len()
                    invariant
                        j <= items@.len(),
                        described == items.deep_view(),
                        wanted == described.map_values(|data: JsonModel| series_of(data)),
                        r.deep_view() == before + wanted.take(j as int),
                    decreases items@.len() - j,
                {
                    let ghost sofar = r.deep_view();
                    let one = series_from_json(&items[j]);
                    r.push(one);
                    proof {
                        assert(wanted[j as int] == series_of(items@[j as int].deep_view()));
                        assert(r.deep_view() =~= sofar.push(wanted[j as int]));
                        assert(before + wanted.take(j + 1) =~= (before + wanted.take(
                            j as int,
                        )).push(wanted[j as int]));
                    }
                    j = j + 1;
                }
                proof {
                    assert(wanted.take(j as int) =~= wanted);
                }
            },
            None => {},
        }
        i = i + 1;
    }
    proof {
        assert(all.take(i as int) =~= all);
    }
    r
}

/// Reads the names that a result lists in its first column: of each row of each series the
/// first cell, where the row has one and it is a string.
pub fn names_from_result(result: &QueryResult) -> (r: Vec<String>)
    ensures
        r.deep_view() == names_in(result.deep_view().series),
{
    let ghost all = result.series.deep_view();
    let mut r: Vec<String> = Vec::new();
    let mut i: usize = 0;
    proof {
        assert(r.deep_view() =~= names_in(all.take(0)));
    }
    while i < result.series.len()
        invariant
            i <= result.series@.len(),
            all == result.series.deep_view(),
            r.deep_view() == names_in(all.take(i as int)),
        decreases result.series@.len() - i,
    {
        proof {
            assert(all.take(i + 1).drop_last() =~= all.take(i as int));
            assert(all.take(i + 1).last() == result.series@[i as int].deep_view());
        }
        let ghost before = r.deep_view();
        let rows = &result.series[i].values;
        let ghost listed = rows.deep_view();
        let mut j: usize = 0;
        proof {
            assert(r.deep_view() =~= before + first_texts(listed.take(0)));
        }
        while j < rows.len()
            invariant
                j <= rows@.len(),
                listed == rows.deep_view(),
                r.deep_view() == before + first_texts(listed.take(j as int)),
            decreases rows@.len() - j,
        {
            proof {
                assert(listed.take(j + 1).drop_last() =~= listed.take(j as int));
                assert(listed.take(j + 1).last() == rows@[j as int].deep_view());
            }
            let ghost sofar = r.deep_view();
            let row = &rows[j];
            if row.len() > 0 {
                proof {
                    assert(row.deep_view()[0] == row@[0].deep_view());
                }
                match row[0].as_str() {
                    Some(s) => {
                        r.push(s.to_owned());
                        proof {
                            assert(r.deep_view() =~= sofar.push(s@));
                            assert(before + first_texts(listed.take(j as int)).push(s@)
                                =~= sofar.push(s@));
                        }
                    },
                    None => {},
                }
            }
            j = j + 1;
        }
        proof {
            assert(listed.take(j as int) =~= listed);
        }
        i = i + 1;
    }
    proof {
        assert(all.take(i as int) =~= all);
    }
    r
}

/// The cells of a data line whose fields are `fields`.
fn string_cells(fields: &Vec<String>) -> (r: Vec<JsonValue>)
    ensures
        r.deep_view() == fields.deep_view().map_values(|field: Seq<char>| JsonModel::String(field)),
{
    let mut r: Vec<JsonValue> = Vec::new();
    let mut i: usize = 0;
    while i < fields.len()
        invariant
            i <= fields@.len(),
            r@.len() == i,
            forall|j: int|
                0 <= j < i ==> (#[trigger] r@[j]).deep_view() == JsonModel::String(fields@[j]@),
        decreases fields@.len() - i,
    {
        r.push(JsonValue::String(fields[i].clone()));
        i = i + 1;
    }
    proof {
        assert(r.deep_view() =~= fields.deep_view().map_values(
            |field: Seq<char>| JsonModel::String(field),
        ));
    }
    r
}

/// Reads the series out of a CSV response of the newer dialect.
///
/// The first line that belongs to the table names the columns; each further such line is a
/// row, cell by cell as a string, with as many cells as the line has fields. Blank lines
/// belong to no table, and neither do lines that begin with `#` where `skip_comments` is
/// set. A response without a table line holds no series.
pub fn series_from_csv(text: &str, skip_comments: bool) -> (r: Vec<Series>)
    ensures
        r.deep_view() == flux_series(text@, skip_comments),
{
    let chars = chars_of(text);
    let lines = line_ranges(&chars);
    let ghost all = lines_of(chars@);
    let mut header: Option<Vec<String>> = None;
    let mut rows: Vec<Vec<JsonValue>> = Vec::new();
    let mut i: usize = 0;
    proof {
        assert(all.take(0) =~= Seq::<Seq<char>>::empty());
    }
    while i < lines.len()
        invariant
            i <= lines@.len(),
            text@ == chars@,
            ranges_within(lines@, chars@.len()),
            all == pieces(chars@, lines@),
            header is None <==> table_lines(all.take(i as int), skip_comments).len() == 0,
            header is None ==> rows@.len() == 0,
            header matches Some(h) ==> {
                let table = table_lines(all.take(i as int), skip_comments);
                &&& h.deep_view() == fields_of(table[0], ',')
                &&& rows.deep_view() == table.skip(1).map_values(|line: Seq<char>| cells_of(line))
            },
        decreases lines@.len() - i,
    {
        let (a, b) = lines[i];
        let ghost line = chars@.subrange(a as int, b as int);
        let ghost table = table_lines(all.take(i as int), skip_comments);
        proof {
            assert(all.take(i + 1).drop_last() =~= all.take(i as int));
            assert(all.take(i + 1).last() == line);
        }
        let blank = range_is_blank(&chars, a, b);
        let comment = skip_comments && a < b && chars[a] == '#';
        if !blank && !comment {
            let fields = split_fields(&chars, a, b, ',');
            match header {
                None => {
                    header = Some(fields);
                    proof {
                        assert(table.push(line).skip(1) =~= Seq::<Seq<char>>::empty());
                        assert(rows.deep_view() =~= table.push(line).skip(1).map_values(
                            |line: Seq<char>| cells_of(line),
                        ));
                    }
                },
                Some(_) => {
                    let ghost before = rows.deep_view();
                    let cells = string_cells(&fields);
                    rows.push(cells);
                    proof {
                        assert(table.push(line).skip(1) =~= table.skip(1).push(line));
                        assert(rows.deep_view() =~= before.push(cells_of(line)));
                        assert(table.skip(1).push(line).map_values(
                            |line: Seq<char>| cells_of(line),
                        ) =~= before.push(cells_of(line)));
                    }
                },
            }
        }
        i = i + 1;
    }
    proof {
        assert(all.take(i as int) =~= all);
    }
    let mut r: Vec<Series> = Vec::new();
    match header {
        None => {
            proof {
                assert(r.deep_view() =~= flux_series(text@, skip_comments));
            }
        },
        Some(columns) => {
            let series = Series {
                name: String::from_str("flux_result"),
                columns,
                values: rows,
                tags: None,
            };
            r.push(series);
            proof {
                assert(r.deep_view() =~= flux_series(text@, skip_comments));
            }
        },
    }
    r
}

/// A table comes out of a CSV response row by row: one series whose columns are the fields
/// of the first table line and whose rows are the further table lines in their order, each
/// with as many cells as the line has fields, whatever the number of columns, and each cell
/// the field as a string.
pub proof fn law_csv_rows_preserved(text: Seq<char>, skip_comments: bool)
    requires
        table_lines(lines_of(text), skip_comments).len() > 0,
    ensures
        ({
            let table = table_lines(lines_of(text), skip_comments);
            let series = flux_series(text, skip_comments);
            &&& series.len() == 1
            &&& series[0].columns == fields_of(table[0], ',')
            &&& series[0].values.len() == table.len() - 1
            &&& forall|i: int|
                0 <= i < table.len() - 1 ==> {
                    &&& (#[trigger] series[0].values[i]).len() == fields_of(table[i + 1], ',').len()
                    &&& forall|j: int|
                        0 <= j < series[0].values[i].len() ==> #[trigger] series[0].values[i][j]
                            == JsonModel::String(fields_of(table[i + 1], ',')[j])
                }
        }),
{
}

/// Rows come out of a JSON response as they went in: where every item of `values` is an
/// array, there is one row for each item, in the same order and with the same cells,
/// however many.
pub proof fn law_json_rows_preserved(items: Seq<JsonModel>)
    requires
        forall|i: int| 0 <= i < items.len() ==> #[trigger] items[i] is Array,
    ensures
        rows_among(items).len() == items.len(),
        forall|i: int| 0 <= i < items.len() ==> #[trigger] rows_among(items)[i] == items[i]->Array_0,
    decreases items.len(),
{
    if items.len() > 0 {
        let before = items.drop_last();
        assert forall|i: int| 0 <= i < before.len() implies #[trigger] before[i] is Array by {
            assert(before[i] == items[i]);
        }
        law_json_rows_preserved(before);
        assert(items.last() is Array);
        assert forall|i: int| 0 <= i < items.len() implies #[trigger] rows_among(items)[i]
            == items[i]->Array_0 by {
            if i < before.len() {
                assert(rows_among(before)[i] == before[i]->Array_0);
                assert(before[i] == items[i]);
            }
        }
    }
}

} // verus!
