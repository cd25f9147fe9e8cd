//! Classification and assembly of the delimited seismograph format.
//!
//! The input file is a sequence of delimited rows. A row whose first field
//! carries one of four marker prefixes names a metadata line, captured
//! verbatim; past the seven-row header, any other non-empty row is a data
//! row whose first three fields are the acceleration samples of the three
//! axes. Each axis channel is seeded with three zero samples before the
//! data rows are appended. Reading the file itself is left to the caller,
//! which hands the rows over as plain strings.

use vstd::prelude::*;
use vstd::string::StrSliceExecFns;

use crate::fp::parse64;
use crate::fp::parse_bits;
use crate::fp::POS_ZERO_BITS;
use crate::record::ParseData;

verus! {

/// `p` is an initial run of `s`.
pub open spec fn has_prefix(s: Seq<char>, p: Seq<char>) -> bool {
    p.len() <= s.len() && s.subrange(0, p.len() as int) == p
}

/// The marker prefix of the site metadata line.
pub open spec fn site_marker() -> Seq<char> {
    "SITE CODE="@
}

/// The marker prefix of the sampling-rate metadata line.
pub open spec fn rate_marker() -> Seq<char> {
    "SAMPLING RATE ="@
}

/// The marker prefix of the unit metadata line.
pub open spec fn unit_marker() -> Seq<char> {
    " UNIT  ="@
}

/// The marker prefix of the initial-time metadata line.
pub open spec fn time_marker() -> Seq<char> {
    "INITIAL TIME ="@
}

/// What one row of the file is taken for.
pub enum RowKind {
    /// Metadata: the site line.
    Site,
    /// Metadata: the sampling-rate line.
    Rate,
    /// Metadata: the unit line.
    Unit,
    /// Metadata: the initial-time line.
    Time,
    /// A row of three acceleration samples.
    Data,
    /// A row that contributes nothing: empty, or part of the header.
    Skip,
}

/// How row `i` is classified: the four marker prefixes are tried on the
/// first field in order, and a non-marker row counts as data only past the
/// seven-row header.
pub open spec fn row_kind(rows: Seq<Vec<String>>, i: int) -> RowKind {
    if rows[i]@.len() == 0 {
        RowKind::Skip
    } else if has_prefix(rows[i]@[0]@, site_marker()) {
        RowKind::Site
    } else if has_prefix(rows[i]@[0]@, rate_marker()) {
        RowKind::Rate
    } else if has_prefix(rows[i]@[0]@, unit_marker()) {
        RowKind::Unit
    } else if has_prefix(rows[i]@[0]@, time_marker()) {
        RowKind::Time
    } else if i >= 7 {
        RowKind::Data
    } else {
        RowKind::Skip
    }
}

/// The first field of the last row among the first `n` that is classified
/// `k`, or the empty string when there is none: a later marker line
/// overwrites an earlier one.
pub open spec fn meta_value(rows: Seq<Vec<String>>, n: int, k: RowKind) -> Seq<char>
    decreases n,
{
    if n <= 0 {
        Seq::empty()
    } else if row_kind(rows, n - 1) == k {
        rows[n - 1]@[0]@
    } else {
        meta_value(rows, n - 1, k)
    }
}

/// The sample a data field denotes; meaningful only where `parse64` accepts
/// the field.
pub open spec fn sample_of(f: Seq<char>) -> u64 {
    match parse64(f) {
        Option::Some(b) => b,
        Option::None => POS_ZERO_BITS,
    }
}

/// The samples of column `col` over the data rows among the first `n` rows,
/// in row order.
pub open spec fn col_samples(rows: Seq<Vec<String>>, n: int, col: int) -> Seq<u64>
    decreases n,
{
    if n <= 0 {
        Seq::empty()
    } else if row_kind(rows, n - 1) == RowKind::Data {
        col_samples(rows, n - 1, col).push(sample_of(rows[n - 1]@[col]@))
    } else {
        col_samples(rows, n - 1, col)
    }
}

/// Field `c` of data row `i` reads as a number.
pub open spec fn cell_ok(rows: Seq<Vec<String>>, i: int, c: int) -> bool {
    parse64(rows[i]@[c]@) is Some
}

/// Every sample field of every data row among the first `n` rows reads as a
/// number.
pub open spec fn rows_ok(rows: Seq<Vec<String>>, n: int) -> bool {
    forall|i: int, c: int|
        0 <= i < n && 0 <= c < 3 && row_kind(rows, i) == RowKind::Data ==> cell_ok(rows, i, c)
}

/// A data field that does not read as a number: the record index and the
/// field index within it.
#[derive(Debug)]
pub struct CsvError {
    /// Index of the offending row.
    pub row: usize,
    /// Index of the offending field within that row: at most two.
    pub field: usize,
}

/// Whether `p` is an initial run of `s`, checked character by character.
fn str_has_prefix(s: &str, p: &str) -> (r: bool)
    ensures
        r == has_prefix(s@, p@),
{
    let sl = s.unicode_len();
    let pl = p.unicode_len();
    if pl > sl {
        return false;
    }
    let mut i: usize = 0;
    while i < pl
        invariant
            sl == s@.len(),
            pl == p@.len(),
            pl <= sl,
            i <= pl,
            forall|j: int| 0 <= j < i ==> s@[j] == p@[j],
        decreases pl - i,
    {
        let cs = s.get_char(i);
        let cp = p.get_char(i);
        if cs != cp {
            proof {
                assert(s@.subrange(0, p@.len() as int)[i as int] == s@[i as int]);
            }
            return false;
        }
        i += 1;
    }
    proof {
        assert(s@.subrange(0, p@.len() as int) =~= p@);
    }
    true
}

/// Classifies the rows of one file and assembles the parsed record: the
/// four metadata lines captured verbatim (the last of each kind winning),
/// and the three axis channels, each seeded with three zero samples and
/// extended with one sample per data row. The first data field that does
/// not read as a number is reported instead, with nothing of the rows after
/// it looked at.
pub fn build_record(file_name: &str, rows: &Vec<Vec<String>>) -> (r: Result<ParseData, CsvError>)
    requires
        forall|i: int|
            0 <= i < rows@.len() && row_kind(rows@, i) == RowKind::Data ==> rows@[i]@.len() >= 3,
    ensures
        match r {
            Ok(d) => {
                &&& rows_ok(rows@, rows@.len() as int)
                &&& d.file_name@ == file_name@
                &&& d.title@ == meta_value(rows@, rows@.len() as int, RowKind::Site)
                &&& d.rate@ == meta_value(rows@, rows@.len() as int, RowKind::Rate)
                &&& d.unit@ == meta_value(rows@, rows@.len() as int, RowKind::Unit)
                &&& d.time@ == meta_value(rows@, rows@.len() as int, RowKind::Time)
                &&& d.ns_acc@ == seq![0u64, 0u64, 0u64] + col_samples(
                    rows@,
                    rows@.len() as int,
                    0,
                )
                &&& d.ew_acc@ == seq![0u64, 0u64, 0u64] + col_samples(
                    rows@,
                    rows@.len() as int,
                    1,
                )
                &&& d.ud_acc@ == seq![0u64, 0u64, 0u64] + col_samples(
                    rows@,
                    rows@.len() as int,
                    2,
                )
                &&& d.well_formed()
            },
            Err(e) => {
                &&& !rows_ok(rows@, rows@.len() as int)
                &&& (e.row as int) < rows@.len()
                &&& e.field < 3
                &&& row_kind(rows@, e.row as int) == RowKind::Data
                &&& !cell_ok(rows@, e.row as int, e.field as int)
                &&& rows_ok(rows@, e.row as int)
                &&& forall|c: int| 0 <= c < e.field ==> cell_ok(rows@, e.row as int, c)
            },
        },
{
    let n = rows.len();
    let mut title = String::new();
    let mut rate = String::new();
    let mut unit = String::new();
    let mut time = String::new();
    let mut ns_acc: Vec<u64> = Vec::new();
    let mut ew_acc: Vec<u64> = Vec::new();
    let mut ud_acc: Vec<u64> = Vec::new();
    ns_acc.push(POS_ZERO_BITS);
    ns_acc.push(POS_ZERO_BITS);
    ns_acc.push(POS_ZERO_BITS);
    ew_acc.push(POS_ZERO_BITS);
    ew_acc.push(POS_ZERO_BITS);
    ew_acc.push(POS_ZERO_BITS);
    ud_acc.push(POS_ZERO_BITS);
    ud_acc.push(POS_ZERO_BITS);
    ud_acc.push(POS_ZERO_BITS);
    proof {
        assert(ns_acc@ =~= seq![0u64, 0u64, 0u64] + col_samples(rows@, 0, 0));
        assert(ew_acc@ =~= seq![0u64, 0u64, 0u64] + col_samples(rows@, 0, 1));
        assert(ud_acc@ =~= seq![0u64, 0u64, 0u64] + col_samples(rows@, 0, 2));
    }
    let mut i: usize = 0;
    while i < n
        invariant
            n == rows@.len(),
            i <= n,
            forall|k: int|
                0 <= k < rows@.len() && row_kind(rows@, k) == RowKind::Data ==> rows@[k]@.len()
                    >= 3,
            title@ == meta_value(rows@, i as int, RowKind::Site),
            rate@ == meta_value(rows@, i as int, RowKind::Rate),
            unit@ == meta_value(rows@, i as int, RowKind::Unit),
            time@ == meta_value(rows@, i as int, RowKind::Time),
            ns_acc@ == seq![0u64, 0u64, 0u64] + col_samples(rows@, i as int, 0),
            ew_acc@ == seq![0u64, 0u64, 0u64] + col_samples(rows@, i as int, 1),
            ud_acc@ == seq![0u64, 0u64, 0u64] + col_samples(rows@, i as int, 2),
            ns_acc@.len() == ew_acc@.len(),
            ns_acc@.len() == ud_acc@.len(),
            rows_ok(rows@, i as int),
        decreases n - i,
    {
        let row = &rows[i];
        if row.len() > 0 {
            if str_has_prefix(row[0].as_str(), "SITE CODE=") {
                title = row[0].clone();
            } else if str_has_prefix(row[0].as_str(), "SAMPLING RATE =") {
                rate = row[0].clone();
            } else if str_has_prefix(row[0].as_str(), " UNIT  =") {
                unit = row[0].clone();
            } else if str_has_prefix(row[0].as_str(), "INITIAL TIME =") {
                time = row[0].clone();
            } else if i >= 7 {
                proof {
                    assert(row_kind(rows@, i as int) == RowKind::Data);
                    assert(rows@[i as int]@.len() >= 3);
                }
                let b0 = match parse_bits(row[0].as_str()) {
                    Some(b) => b,
                    None => {
                        proof {
                            assert(!cell_ok(rows@, i as int, 0));
                            assert(!rows_ok(rows@, rows@.len() as int));
                        }
                        return Err(CsvError { row: i, field: 0 });
                    },
                };
                let b1 = match parse_bits(row[1].as_str()) {
                    Some(b) => b,
                    None => {
                        proof {
                            assert(!cell_ok(rows@, i as int, 1));
                            assert(!rows_ok(rows@, rows@.len() as int));
                        }
                        return Err(CsvError { row: i, field: 1 });
                    },
                };
                let b2 = match parse_bits(row[2].as_str()) {
                    Some(b) => b,
                    None => {
                        proof {
                            assert(!cell_ok(rows@, i as int, 2));
                            assert(!rows_ok(rows@, rows@.len() as int));
                        }
                        return Err(CsvError { row: i, field: 2 });
                    },
                };
                ns_acc.push(b0);
                ew_acc.push(b1);
                ud_acc.push(b2);
                proof {
                    assert(sample_of(rows@[i as int]@[0]@) == b0);
                    assert(sample_of(rows@[i as int]@[1]@) == b1);
                    assert(sample_of(rows@[i as int]@[2]@) == b2);
                    assert(ns_acc@ =~= seq![0u64, 0u64, 0u64] + col_samples(
                        rows@,
                        i as int + 1,
                        0,
                    ));
                    assert(ew_acc@ =~= seq![0u64, 0u64, 0u64] + col_samples(
                        rows@,
                        i as int + 1,
                        1,
                    ));
                    assert(ud_acc@ =~= seq![0u64, 0u64, 0u64] + col_samples(
                        rows@,
                        i as int + 1,
                        2,
                    ));
                }
            }
        }
        i += 1;
    }
    Ok(
        ParseData {
            file_name: file_name.to_owned(),
            title,
            rate,
            unit,
            time,
            ns_acc,
            ew_acc,
            ud_acc,
        },
    )
}

} // verus!
