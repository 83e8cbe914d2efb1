//! Layout of the input tables: the DPS reference tables (one per damage
//! category) and the phase-definition table. Both are comma-separated with
//! a header record; the numbers in their fields are read by the caller.
use vstd::prelude::*;

verus! {

#[verifier::external_type_specification]
#[verifier::external_body]
pub struct ExCsvError(csv::Error);

/// The damage categories, each with its own reference DPS table.
#[derive(Clone, Copy, Debug, PartialEq, Eq, Structural)]
pub enum Category {
    Power,
    Semi,
    Condi,
}

/// Where the reference table of a category is read from.
pub open spec fn source_spec(c: Category) -> Seq<char> {
    match c {
        Category::Power => "dps/power.csv"@,
        Category::Semi => "dps/semi.csv"@,
        Category::Condi => "dps/condi.csv"@,
    }
}

/// The name of a category, as shown in reports.
pub open spec fn name_spec(c: Category) -> Seq<char> {
    match c {
        Category::Power => "power"@,
        Category::Semi => "semi"@,
        Category::Condi => "condi"@,
    }
}

impl Category {
    pub fn name(&self) -> (r: &'static str)
        ensures
            r@ == name_spec(*self),
    {
        match self {
            Category::Power => "power",
            Category::Semi => "semi",
            Category::Condi => "condi",
        }
    }

    pub fn source(&self) -> (r: &'static str)
        ensures
            r@ == source_spec(*self),
    {
        match self {
            Category::Power => "dps/power.csv",
            Category::Semi => "dps/semi.csv",
            Category::Condi => "dps/condi.csv",
        }
    }
}

/// Faults while loading a table.
#[derive(Debug, PartialEq, Eq)]
pub enum LoadError {
    /// The table named `source` is absent.
    SourceNotFound { source: String },
    /// The csv reader rejects the text (for one, where it is not UTF-8).
    MalformedTable,
    /// Field `field` of data record `row` (counted from 0, header excluded)
    /// is missing or does not hold a number.
    MalformedRecord { row: usize, field: usize },
}

/// The data records that the csv reader yields for `input`, or `None` where
/// it reports an error.
pub uninterp spec fn csv_records(input: Seq<u8>) -> Option<Seq<Seq<Seq<char>>>>;

/// The text of each field of each record.
pub open spec fn records_view(rows: Seq<Vec<String>>) -> Seq<Seq<Seq<char>>> {
    rows.map_values(|row: Vec<String>| row@.map_values(|f: String| f@))
}

/// Relies on csv::ReaderBuilder with its default settings (comma separated,
/// first record a header) but flexible (records may differ in length), and
/// on the reader's `records` iterator: the data records of `input` after the
/// header, each as its fields, or the first error it reports.
#[verifier::external_body]
fn read_records(input: &[u8]) -> (r: Result<Vec<Vec<String>>, csv::Error>)
    ensures
        r is Ok <==> csv_records(input@) is Some,
        r is Ok ==> records_view(r->Ok_0@) == csv_records(input@)->Some_0,
{
    let mut reader = csv::ReaderBuilder::new().flexible(true).from_reader(input);
    let mut rows: Vec<Vec<String>> = Vec::new();
    for record in reader.records() {
        rows.push(record?.iter().map(|f| f.to_string()).collect());
    }
    Ok(rows)
}

/// The records of the table `source`, whose bytes are `contents` when it
/// exists.
pub fn table_records(source: &str, contents: Option<&[u8]>) -> (r: Result<
    Vec<Vec<String>>,
    LoadError,
>)
    ensures
        contents is None <==> r matches Err(LoadError::SourceNotFound { source: s }),
        r matches Err(LoadError::SourceNotFound { source: s }) ==> s@ == source@,
        contents is Some && csv_records(contents->Some_0@) is None ==> r == Err::<
            Vec<Vec<String>>,
            LoadError,
        >(LoadError::MalformedTable),
        contents is Some && csv_records(contents->Some_0@) is Some ==> r is Ok && records_view(
            r->Ok_0@,
        ) == csv_records(contents->Some_0@)->Some_0,
{
    match contents {
        None => Err(LoadError::SourceNotFound { source: source.to_owned() }),
        Some(bytes) => match read_records(bytes) {
            Ok(rows) => Ok(rows),
            Err(_) => Err(LoadError::MalformedTable),
        },
    }
}

/// Every record holds at least `width` fields.
pub open spec fn all_wide(recs: Seq<Seq<Seq<char>>>, width: nat) -> bool {
    forall|i: int| 0 <= i < recs.len() ==> (#[trigger] recs[i]).len() >= width
}

/// `row` is the first record that holds fewer than `width` fields.
pub open spec fn is_first_short(recs: Seq<Seq<Seq<char>>>, width: nat, row: int) -> bool {
    &&& 0 <= row < recs.len()
    &&& recs[row].len() < width
    &&& forall|i: int| 0 <= i < row ==> (#[trigger] recs[i]).len() >= width
}

/// The error for a table whose records must hold `width` fields: `Ok` when
/// they all do, else the first missing field of the first short record.
pub open spec fn width_error(recs: Seq<Seq<Seq<char>>>, width: nat, r: Result<(), LoadError>) -> bool {
    match r {
        Ok(_) => all_wide(recs, width),
        Err(LoadError::MalformedRecord { row, field }) => {
            &&& is_first_short(recs, width, row as int)
            &&& field == recs[row as int].len()
        },
        Err(_) => false,
    }
}

/// Checks that every record holds at least `width` fields.
fn check_width(records: &Vec<Vec<String>>, width: usize) -> (r: Result<(), LoadError>)
    ensures
        width_error(records_view(records@), width as nat, r),
{
    let ghost recs = records_view(records@);
    let mut i: usize = 0;
    while i < records.len()
        invariant
            i <= records@.len(),
            recs == records_view(records@),
            forall|k: int| 0 <= k < i ==> (#[trigger] recs[k]).len() >= width,
        decreases records@.len() - i,
    {
        let n = records[i].len();
        assert(recs[i as int].len() == n);
        if n < width {
            return Err(LoadError::MalformedRecord { row: i, field: n });
        }
        i = i + 1;
    }
    Ok(())
}

/// The text of the two fields of a DPS reference record: elapsed time, then
/// DPS (the average rate from time 0 to that time).
#[derive(Debug, PartialEq, Eq)]
pub struct DpsFields {
    pub time: String,
    pub dps: String,
}

/// The text of the five fields of a phase-definition record.
#[derive(Debug, PartialEq, Eq)]
pub struct PhaseFields {
    pub label: String,
    pub health: String,
    pub coeff: String,
    pub power_coeff: String,
    pub participants: String,
}

/// What `dps_fields` yields: the first two fields of each record, or the
/// first missing field.
pub open spec fn dps_fields_spec(recs: Seq<Seq<Seq<char>>>, r: Result<Vec<DpsFields>, LoadError>) -> bool {
    match r {
        Ok(rows) => {
            &&& all_wide(recs, 2)
            &&& rows@.len() == recs.len()
            &&& forall|i: int|
                0 <= i < recs.len() ==> (#[trigger] rows@[i]).time@ == recs[i][0] && rows@[i].dps@
                    == recs[i][1]
        },
        Err(e) => width_error(recs, 2, Err(e)),
    }
}

/// Reads the records of a DPS reference table: time in the first field, DPS
/// in the second; further fields are ignored.
pub fn dps_fields(records: &Vec<Vec<String>>) -> (r: Result<Vec<DpsFields>, LoadError>)
    ensures
        dps_fields_spec(records_view(records@), r),
{
    let ghost recs = records_view(records@);
    match check_width(records, 2) {
        Err(e) => return Err(e),
        Ok(_) => {},
    }
    let mut rows: Vec<DpsFields> = Vec::new();
    let mut i: usize = 0;
    while i < records.len()
        invariant
            i <= records@.len(),
            recs == records_view(records@),
            all_wide(recs, 2),
            rows@.len() == i,
            forall|k: int|
                0 <= k < i ==> (#[trigger] rows@[k]).time@ == recs[k][0] && rows@[k].dps@
                    == recs[k][1],
        decreases records@.len() - i,
    {
        assert(recs[i as int].len() >= 2);
        let rec = &records[i];
        rows.push(DpsFields { time: rec[0].clone(), dps: rec[1].clone() });
        i = i + 1;
    }
    Ok(rows)
}

/// What `phase_fields` yields: the first five fields of each record, or the
/// first missing field.
pub open spec fn phase_fields_spec(recs: Seq<Seq<Seq<char>>>, r: Result<Vec<PhaseFields>, LoadError>) -> bool {
    match r {
        Ok(rows) => {
            &&& all_wide(recs, 5)
            &&& rows@.len() == recs.len()
            &&& forall|i: int|
                0 <= i < recs.len() ==> {
                    &&& (#[trigger] rows@[i]).label@ == recs[i][0]
                    &&& rows@[i].health@ == recs[i][1]
                    &&& rows@[i].coeff@ == recs[i][2]
                    &&& rows@[i].power_coeff@ == recs[i][3]
                    &&& rows@[i].participants@ == recs[i][4]
                }
        },
        Err(e) => width_error(recs, 5, Err(e)),
    }
}

/// Reads the records of a phase-definition table: label, health, difficulty
/// coefficient, power coefficient and number of participants, in that
/// order; further fields are ignored.
pub fn phase_fields(records: &Vec<Vec<String>>) -> (r: Result<Vec<PhaseFields>, LoadError>)
    ensures
        phase_fields_spec(records_view(records@), r),
{
    let ghost recs = records_view(records@);
    match check_width(records, 5) {
        Err(e) => return Err(e),
        Ok(_) => {},
    }
    let mut rows: Vec<PhaseFields> = Vec::new();
    let mut i: usize = 0;
    while i < records.len()
        invariant
            i <= records@.len(),
            recs == records_view(records@),
            all_wide(recs, 5),
            rows@.len() == i,
            forall|k: int|
                0 <= k < i ==> {
                    &&& (#[trigger] rows@[k]).label@ == recs[k][0]
                    &&& rows@[k].health@ == recs[k][1]
                    &&& rows@[k].coeff@ == recs[k][2]
                    &&& rows@[k].power_coeff@ == recs[k][3]
                    &&& rows@[k].participants@ == recs[k][4]
                },
        decreases records@.len() - i,
    {
        assert(recs[i as int].len() >= 5);
        let rec = &records[i];
        rows.push(
            PhaseFields {
                label: rec[0].clone(),
                health: rec[1].clone(),
                coeff: rec[2].clone(),
                power_coeff: rec[3].clone(),
                participants: rec[4].clone(),
            },
        );
        i = i + 1;
    }
    Ok(rows)
}

/// Loads the fields of the reference table of `category`, whose bytes are
/// `contents` when the table exists. An absent table is reported under the
/// category's source name.
pub fn load_profile_fields(category: Category, contents: Option<&[u8]>) -> (r: Result<
    Vec<DpsFields>,
    LoadError,
>)
    ensures
        contents is None ==> (r matches Err(LoadError::SourceNotFound { source: s }) && s@
            == source_spec(category)),
        contents is Some && csv_records(contents->Some_0@) is None ==> r == Err::<
            Vec<DpsFields>,
            LoadError,
        >(LoadError::MalformedTable),
        contents is Some && csv_records(contents->Some_0@) is Some ==> dps_fields_spec(
            csv_records(contents->Some_0@)->Some_0,
            r,
        ),
{
    let records = table_records(category.source(), contents)?;
    dps_fields(&records)
}

/// Loads the fields of the phase-definition table `source`, whose bytes are
/// `contents` when the table exists.
pub fn load_phase_fields(source: &str, contents: Option<&[u8]>) -> (r: Result<
    Vec<PhaseFields>,
    LoadError,
>)
    ensures
        contents is None ==> (r matches Err(LoadError::SourceNotFound { source: s }) && s@
            == source@),
        contents is Some && csv_records(contents->Some_0@) is None ==> r == Err::<
            Vec<PhaseFields>,
            LoadError,
        >(LoadError::MalformedTable),
        contents is Some && csv_records(contents->Some_0@) is Some ==> phase_fields_spec(
            csv_records(contents->Some_0@)->Some_0,
            r,
        ),
{
    let records = table_records(source, contents)?;
    phase_fields(&records)
}

/// Every cell holds a value.
pub open spec fn all_present<T>(cells: Seq<Vec<Option<T>>>) -> bool {
    forall|i: int, j: int|
        0 <= i < cells.len() && 0 <= j < cells[i]@.len() ==> (#[trigger] cells[i]@[j]) is Some
}

/// `(row, col)` is the first empty cell, row by row.
pub open spec fn is_first_empty<T>(cells: Seq<Vec<Option<T>>>, row: int, col: int) -> bool {
    &&& 0 <= row < cells.len()
    &&& 0 <= col < cells[row]@.len()
    &&& cells[row]@[col] is None
    &&& forall|i: int, j: int|
        0 <= i < row && 0 <= j < cells[i]@.len() ==> (#[trigger] cells[i]@[j]) is Some
    &&& forall|j: int| 0 <= j < col ==> (#[trigger] cells[row]@[j]) is Some
}

/// Collects the values read from a table's numeric fields, all or nothing.
/// `cells[i][j]` is the value read from field `first_column + j` of record
/// `i`, or `None` where it is not a number. Either every value comes back,
/// in place, or the first malformed field is reported and none does.
pub fn gather<T: Copy>(cells: &Vec<Vec<Option<T>>>, first_column: usize) -> (r: Result<
    Vec<Vec<T>>,
    LoadError,
>)
    requires
        forall|i: int|
            0 <= i < cells@.len() ==> (#[trigger] cells@[i])@.len() + first_column <= usize::MAX,
    ensures
        match r {
            Ok(rows) => {
                &&& all_present(cells@)
                &&& rows@.len() == cells@.len()
                &&& forall|i: int|
                    0 <= i < cells@.len() ==> (#[trigger] rows@[i])@.len() == cells@[i]@.len()
                &&& forall|i: int, j: int|
                    0 <= i < cells@.len() && 0 <= j < cells@[i]@.len() ==> (#[trigger] rows@[i]@[j])
                        == cells@[i]@[j]->Some_0
            },
            Err(LoadError::MalformedRecord { row, field }) => {
                &&& field >= first_column
                &&& is_first_empty(cells@, row as int, field - first_column)
            },
            Err(_) => false,
        },
{
    let mut rows: Vec<Vec<T>> = Vec::new();
    let mut i: usize = 0;
    while i < cells.len()
        invariant
            i <= cells@.len(),
            forall|k: int|
                0 <= k < cells@.len() ==> (#[trigger] cells@[k])@.len() + first_column
                    <= usize::MAX,
            forall|a: int, b: int|
                0 <= a < i && 0 <= b < cells@[a]@.len() ==> (#[trigger] cells@[a]@[b]) is Some,
            rows@.len() == i,
            forall|a: int| 0 <= a < i ==> (#[trigger] rows@[a])@.len() == cells@[a]@.len(),
            forall|a: int, b: int|
                0 <= a < i && 0 <= b < cells@[a]@.len() ==> (#[trigger] rows@[a]@[b])
                    == cells@[a]@[b]->Some_0,
        decreases cells@.len() - i,
    {
        let line = &cells[i];
        let mut values: Vec<T> = Vec::new();
        let mut j: usize = 0;
        while j < line.len()
            invariant
                i < cells@.len(),
                line == cells@[i as int],
                j <= line@.len(),
                line@.len() + first_column <= usize::MAX,
                forall|a: int, b: int|
                    0 <= a < i && 0 <= b < cells@[a]@.len() ==> (#[trigger] cells@[a]@[b]) is Some,
                values@.len() == j,
                forall|b: int| 0 <= b < j ==> (#[trigger] line@[b]) is Some,
                forall|b: int| 0 <= b < j ==> (#[trigger] values@[b]) == line@[b]->Some_0,
            decreases line@.len() - j,
        {
            match line[j] {
                Some(v) => values.push(v),
                None => {
                    return Err(LoadError::MalformedRecord { row: i, field: first_column + j });
                },
            }
            j = j + 1;
        }
        rows.push(values);
        i = i + 1;
    }
    Ok(rows)
}

} // verus!
