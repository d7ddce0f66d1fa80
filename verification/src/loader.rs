use vstd::prelude::*;

use crate::city::City;
use crate::error::Error;
use crate::text::str_eq;

verus! {

/// What the CSV reader yields for a given table text: `None` where the crate
/// cannot decode the text, and otherwise the header row's fields and each
/// data row's fields, in input order.
pub uninterp spec fn csv_table(s: Seq<char>) -> Option<(Seq<Seq<char>>, Seq<Seq<Seq<char>>>)>;

/// Relies on `csv::Reader`: parses comma-separated text with a leading header
/// row into the header's fields and each record's fields, in input order, and
/// rejects text it cannot decode (for example a row whose field count differs
/// from the header's).
#[verifier::external_body]
fn parse_csv(text: &str) -> (r: Option<(Vec<String>, Vec<Vec<String>>)>)
    ensures
        r is Some <==> csv_table(text@) is Some,
        (r matches Some(t) ==> t.0.deep_view() == csv_table(text@).unwrap().0
            && t.1.deep_view() == csv_table(text@).unwrap().1),
{
    let mut reader = csv::Reader::from_reader(text.as_bytes());
    let header: Vec<String> = match reader.headers() {
        Ok(h) => h.iter().map(|f| f.to_owned()).collect(),
        Err(_) => return None,
    };
    let mut rows: Vec<Vec<String>> = Vec::new();
    for record in reader.records() {
        match record {
            Ok(rec) => rows.push(rec.iter().map(|f| f.to_owned()).collect()),
            Err(_) => return None,
        }
    }
    Some((header, rows))
}

/// The index of the first header field equal to `name`, if any.
pub open spec fn col_index(header: Seq<Seq<char>>, name: Seq<char>) -> Option<int>
    decreases header.len(),
{
    if header.len() == 0 {
        None
    } else if header[0] == name {
        Some(0int)
    } else {
        match col_index(header.drop_first(), name) {
            Some(i) => Some(i + 1),
            None => None,
        }
    }
}

proof fn lemma_col_index_of_first_match(header: Seq<Seq<char>>, name: Seq<char>, i: int)
    requires
        0 <= i < header.len(),
        header[i] == name,
        forall|j: int| 0 <= j < i ==> header[j] != name,
    ensures
        col_index(header, name) == Some(i),
    decreases i,
{
    if i > 0 {
        assert forall|j: int| 0 <= j < i - 1 implies header.drop_first()[j] != name by {
            assert(header.drop_first()[j] == header[j + 1]);
        }
        assert(header.drop_first()[i - 1] == header[i]);
        lemma_col_index_of_first_match(header.drop_first(), name, i - 1);
    }
}

proof fn lemma_col_index_of_no_match(header: Seq<Seq<char>>, name: Seq<char>)
    requires
        forall|j: int| 0 <= j < header.len() ==> header[j] != name,
    ensures
        col_index(header, name) is None,
    decreases header.len(),
{
    if header.len() > 0 {
        assert forall|j: int| 0 <= j < header.len() - 1 implies header.drop_first()[j] != name by {
            assert(header.drop_first()[j] == header[j + 1]);
        }
        lemma_col_index_of_no_match(header.drop_first(), name);
    }
}

/// Find the first header field equal to `name`.
fn find_column(header: &Vec<String>, name: &str) -> (r: Option<usize>)
    ensures
        (r matches Some(i) ==> i < header@.len() && col_index(header.deep_view(), name@) == Some(
            i as int,
        )),
        (r is None ==> col_index(header.deep_view(), name@) is None),
{
    let ghost h = header.deep_view();
    let mut i: usize = 0;
    while i < header.len()
        invariant
            0 <= i <= header@.len(),
            h == header.deep_view(),
            forall|j: int| 0 <= j < i ==> h[j] != name@,
        decreases header@.len() - i,
    {
        proof {
            assert(h[i as int] == header@[i as int]@);
        }
        if str_eq(header[i].as_str(), name) {
            proof {
                lemma_col_index_of_first_match(h, name@, i as int);
            }
            return Some(i);
        }
        i += 1;
    }
    proof {
        lemma_col_index_of_no_match(h, name@);
    }
    None
}

/// Whether a table header holds every column a city row needs: `City`,
/// `Country`, `State` and `uuid`, exactly and case-sensitively.
pub open spec fn header_ok(h: Seq<Seq<char>>) -> bool {
    &&& col_index(h, "City"@) is Some
    &&& col_index(h, "Country"@) is Some
    &&& col_index(h, "State"@) is Some
    &&& col_index(h, "uuid"@) is Some
}

/// Whether every row of a table has exactly as many fields as its header.
pub open spec fn rows_ok(h: Seq<Seq<char>>, rows: Seq<Seq<Seq<char>>>) -> bool {
    forall|i: int| 0 <= i < rows.len() ==> (#[trigger] rows[i]).len() == h.len()
}

/// The city fields a table row yields: name, country, state and uuid, each
/// drawn from the column the header names; an empty state field is replaced
/// by the row's country.
pub open spec fn city_fields_of_row(h: Seq<Seq<char>>, row: Seq<Seq<char>>) -> (
    Seq<char>,
    Seq<char>,
    Seq<char>,
    Seq<char>,
)
    recommends
        header_ok(h),
{
    let name = row[col_index(h, "City"@).unwrap()];
    let country = row[col_index(h, "Country"@).unwrap()];
    let state_raw = row[col_index(h, "State"@).unwrap()];
    let uuid = row[col_index(h, "uuid"@).unwrap()];
    (
        name,
        country,
        if state_raw.len() == 0 {
            country
        } else {
            state_raw
        },
        uuid,
    )
}

/// Whether a city record carries exactly the fields a table row yields.
pub open spec fn city_matches_row(c: City, h: Seq<Seq<char>>, row: Seq<Seq<char>>) -> bool {
    let f = city_fields_of_row(h, row);
    &&& c.name@ == f.0
    &&& c.country@ == f.1
    &&& c.state@ == f.2
    &&& c.uuid@ == f.3
}

/// Build the city records of a parsed table: one per data row, in row order.
/// Fails with `MalformedInput` where the header misses one of the columns
/// `City`, `Country`, `State` and `uuid`, or where a row's field count
/// differs from the header's; no cities are handed out on failure.
pub fn cities_from_fields(header: &Vec<String>, rows: &Vec<Vec<String>>) -> (r: Result<
    Vec<City>,
    Error,
>)
    ensures
        r is Ok <==> (header_ok(header.deep_view()) && rows_ok(header.deep_view(), rows.deep_view())),
        (r matches Ok(cs) ==> cs@.len() == rows@.len() && forall|i: int|
            0 <= i < cs@.len() ==> city_matches_row(
                #[trigger] cs@[i],
                header.deep_view(),
                rows.deep_view()[i],
            )),
        (r matches Err(e) ==> e == Error::MalformedInput),
{
    let ghost h = header.deep_view();
    let ghost rs = rows.deep_view();
    let name_col = match find_column(header, "City") {
        Some(i) => i,
        None => {
            return Err(Error::MalformedInput);
        },
    };
    let country_col = match find_column(header, "Country") {
        Some(i) => i,
        None => {
            return Err(Error::MalformedInput);
        },
    };
    let state_col = match find_column(header, "State") {
        Some(i) => i,
        None => {
            return Err(Error::MalformedInput);
        },
    };
    let uuid_col = match find_column(header, "uuid") {
        Some(i) => i,
        None => {
            return Err(Error::MalformedInput);
        },
    };
    let mut cities: Vec<City> = Vec::new();
    let mut k: usize = 0;
    while k < rows.len()
        invariant
            0 <= k <= rows@.len(),
            h == header.deep_view(),
            rs == rows.deep_view(),
            rs.len() == rows@.len(),
            header_ok(h),
            name_col < header@.len() && col_index(h, "City"@) == Some(name_col as int),
            country_col < header@.len() && col_index(h, "Country"@) == Some(country_col as int),
            state_col < header@.len() && col_index(h, "State"@) == Some(state_col as int),
            uuid_col < header@.len() && col_index(h, "uuid"@) == Some(uuid_col as int),
            forall|i: int| 0 <= i < k ==> (#[trigger] rs[i]).len() == h.len(),
            cities@.len() == k,
            forall|i: int| 0 <= i < k ==> city_matches_row(#[trigger] cities@[i], h, rs[i]),
        decreases rows@.len() - k,
    {
        let row = &rows[k];
        proof {
            assert(rs[k as int] == rows@[k as int].deep_view());
            assert(h.len() == header@.len());
            assert(rs[k as int].len() == row@.len());
        }
        if row.len() != header.len() {
            return Err(Error::MalformedInput);
        }
        let state_field = &row[state_col];
        let state_opt: Option<&str> = if state_field.as_str().is_empty() {
            None
        } else {
            Some(state_field.as_str())
        };
        let city = City::new(
            row[name_col].as_str(),
            row[country_col].as_str(),
            state_opt,
            row[uuid_col].as_str(),
        );
        proof {
            assert(rs[k as int][name_col as int] == row@[name_col as int]@);
            assert(rs[k as int][country_col as int] == row@[country_col as int]@);
            assert(rs[k as int][state_col as int] == row@[state_col as int]@);
            assert(rs[k as int][uuid_col as int] == row@[uuid_col as int]@);
            assert(city_matches_row(city, h, rs[k as int]));
        }
        cities.push(city);
        k += 1;
    }
    Ok(cities)
}

impl City {
    /// Read the text of a CSV city table and populate a vector of cities.
    ///
    /// The table's header row must hold the fields (case sensitive): `City`,
    /// `Country`, `State` and `uuid`. Each data row yields one city, in row
    /// order; an absent or empty state falls back to the row's country.
    /// Fails with `MalformedInput` where the text cannot be decoded, the
    /// header misses a required column, or a row's field count is wrong; no
    /// cities are handed out on failure.
    pub fn from_csv(text: &str) -> (r: Result<Vec<City>, Error>)
        ensures
            (r matches Err(e) ==> e == Error::MalformedInput),
            csv_table(text@) is None ==> r is Err,
            (csv_table(text@) matches Some(t) ==> (r is Ok <==> header_ok(t.0) && rows_ok(
                t.0,
                t.1,
            ))),
            (csv_table(text@) matches Some(t) ==> (r matches Ok(cs) ==> cs@.len() == t.1.len()
                && forall|i: int|
                0 <= i < cs@.len() ==> city_matches_row(#[trigger] cs@[i], t.0, t.1[i]))),
    {
        match parse_csv(text) {
            Some(table) => {
                proof {
                    assert(table.1.deep_view().len() == table.1@.len());
                }
                cities_from_fields(&table.0, &table.1)
            },
            None => Err(Error::MalformedInput),
        }
    }
}

/// Where a row's state field is present (non-empty), the city built from the
/// row keeps it as given: the country fallback is not applied.
pub proof fn lemma_present_state_kept(h: Seq<Seq<char>>, row: Seq<Seq<char>>)
    requires
        header_ok(h),
        row[col_index(h, "State"@).unwrap()].len() > 0,
    ensures
        city_fields_of_row(h, row).2 == row[col_index(h, "State"@).unwrap()],
{
}

/// Where a row's state field is empty, the city built from the row carries
/// the row's country as its state.
pub proof fn lemma_empty_state_falls_back_to_country(h: Seq<Seq<char>>, row: Seq<Seq<char>>)
    requires
        header_ok(h),
        row[col_index(h, "State"@).unwrap()].len() == 0,
    ensures
        city_fields_of_row(h, row).2 == row[col_index(h, "Country"@).unwrap()],
{
}

} // verus!
