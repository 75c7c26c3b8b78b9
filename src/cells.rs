use chrono::Datelike;
use std::num::ParseIntError;

use vstd::prelude::*;

use crate::error::SumsClientMembersError;
use crate::member::{CalendarDate, Member, MemberType};

verus! {

/// Format of the date column.
pub const DATE_FORMAT: &'static str = "%Y-%m-%d";

/// Number of cells a row needs: the ID, the name, a display-only column, the
/// subscription and the date joined.
pub const CELLS_PER_ROW: usize = 5;

pub open spec fn is_digit(c: char) -> bool {
    '0' <= c && c <= '9'
}

/// Value of a string of decimal digits.
pub open spec fn digits_value(s: Seq<char>) -> nat
    decreases s.len(),
{
    if s.len() == 0 {
        0
    } else {
        digits_value(s.drop_last()) * 10 + ((s.last() as int) - ('0' as int)) as nat
    }
}

/// The unsigned 64-bit integer written by `s`: an optional `+` sign followed
/// by at least one decimal digit, with nothing around them.
pub open spec fn unsigned_decimal(s: Seq<char>) -> Option<u64> {
    let d = if s.len() > 0 && s[0] == '+' { s.skip(1) } else { s };
    if d.len() > 0 && (forall|i: int| 0 <= i < d.len() ==> is_digit(#[trigger] d[i]))
        && digits_value(d) <= u64::MAX {
        Some(digits_value(d) as u64)
    } else {
        None
    }
}

/// The year, month and day that chrono reads from `text` under `format`, if
/// it reads a date at all.
pub uninterp spec fn parsed_ymd(text: Seq<char>, format: Seq<char>) -> Option<(int, int, int)>;

/// Relies on `str::parse::<u64>`, which accepts exactly an optional `+`
/// followed by decimal digits whose value fits in a `u64`.
#[verifier::external_body]
fn parse_u64(text: &str) -> (r: Result<u64, ParseIntError>)
    ensures
        r is Ok <==> unsigned_decimal(text@) is Some,
        r is Ok ==> r->Ok_0 == unsigned_decimal(text@)->Some_0,
{
    text.parse::<u64>()
}

/// Relies on chrono's `NaiveDate::parse_from_str`: it either fails or yields
/// a date that exists, whose parts are read back through `Datelike`.
#[verifier::external_body]
fn parse_date(text: &str, format: &str) -> (r: Result<CalendarDate, chrono::ParseError>)
    ensures
        r is Ok <==> parsed_ymd(text@, format@) is Some,
        r is Ok ==> r->Ok_0.wf() && r->Ok_0.parts() == parsed_ymd(text@, format@)->Some_0,
{
    let d = chrono::NaiveDate::parse_from_str(text, format)?;
    Ok(CalendarDate { year: d.year(), month: d.month(), day: d.day() })
}

/// What is wrong with a row of cells, if anything.
#[derive(Debug, Clone, Copy, PartialEq, Eq, Structural)]
pub enum RowFault {
    MissingCell,
    BadId,
    BadDate,
}

/// The first problem found in a row, checking the cell count, then the ID,
/// then the date.
pub open spec fn row_fault(cells: Seq<String>) -> Option<RowFault> {
    if cells.len() < CELLS_PER_ROW {
        Some(RowFault::MissingCell)
    } else if unsigned_decimal(cells[0]@) is None {
        Some(RowFault::BadId)
    } else if parsed_ymd(cells[4]@, DATE_FORMAT@) is None {
        Some(RowFault::BadDate)
    } else {
        None
    }
}

/// The date that chrono reads from a date cell.
pub open spec fn cell_date(text: Seq<char>) -> CalendarDate {
    let (y, m, d) = parsed_ymd(text, DATE_FORMAT@)->Some_0;
    CalendarDate { year: y as i32, month: m as u32, day: d as u32 }
}

/// The member record of a row without fault: cell 0 is the ID, 1 the name,
/// 3 the subscription and 4 the date joined; cell 2 is not read.
pub open spec fn row_member(cells: Seq<String>) -> Member {
    Member {
        student_id: unsigned_decimal(cells[0]@)->Some_0,
        name: cells[1],
        member_type: MemberType::Student,
        subscription_purchased: cells[3],
        date_joined: cell_date(cells[4]@),
    }
}

/// The kind of row fault an extraction error reports, if it reports one.
pub open spec fn fault_of(e: SumsClientMembersError) -> Option<RowFault> {
    match e {
        SumsClientMembersError::MissingCellError(_) => Some(RowFault::MissingCell),
        SumsClientMembersError::ParseIntError(_) => Some(RowFault::BadId),
        SumsClientMembersError::ChronoParseError(_) => Some(RowFault::BadDate),
        SumsClientMembersError::SumsClientError(_) => None,
    }
}

/// The error reports the fault of the given row.
pub open spec fn reports_row(e: SumsClientMembersError, cells: Seq<String>) -> bool {
    &&& row_fault(cells) is Some
    &&& fault_of(e) == row_fault(cells)
    &&& (e matches SumsClientMembersError::MissingCellError(n) ==> n == cells.len())
}

/// Turns the cells of one table row into a member record.
pub fn parse_row(cells: &Vec<String>) -> (r: Result<Member, SumsClientMembersError>)
    ensures
        r is Ok <==> row_fault(cells@) is None,
        r is Ok ==> r->Ok_0 == row_member(cells@) && r->Ok_0.date_joined.wf(),
        r is Err ==> reports_row(r->Err_0, cells@),
{
    if cells.len() < CELLS_PER_ROW {
        return Err(SumsClientMembersError::MissingCellError(cells.len()));
    }
    let student_id = match parse_u64(cells[0].as_str()) {
        Ok(n) => n,
        Err(e) => {
            return Err(SumsClientMembersError::ParseIntError(e));
        },
    };
    let date_joined = match parse_date(cells[4].as_str(), DATE_FORMAT) {
        Ok(d) => d,
        Err(e) => {
            return Err(SumsClientMembersError::ChronoParseError(e));
        },
    };
    let m = Member::new(
        student_id,
        cells[1].clone(),
        MemberType::Student,
        cells[3].clone(),
        date_joined,
    );
    assert(m.date_joined == cell_date(cells@[4]@));
    Ok(m)
}

/// The roster the rows stand for: one record per row, in row order, when no
/// row has a fault.
pub open spec fn roster(rows: Seq<Vec<String>>) -> Option<Seq<Member>> {
    if forall|i: int| 0 <= i < rows.len() ==> row_fault(#[trigger] rows[i]@) is None {
        Some(rows.map_values(|row: Vec<String>| row_member(row@)))
    } else {
        None
    }
}

/// `r` is what extracting `rows` must give: the roster when there is one,
/// else the fault of the first faulty row.
pub open spec fn is_roster_of(r: Result<Vec<Member>, SumsClientMembersError>, rows: Seq<Vec<String>>) -> bool {
    &&& r is Ok <==> roster(rows) is Some
    &&& r is Ok ==> r->Ok_0@ == roster(rows)->Some_0
    &&& r is Err ==> exists|i: int|
        0 <= i < rows.len() && reports_row(r->Err_0, #[trigger] rows[i]@) && forall|j: int|
            0 <= j < i ==> row_fault(#[trigger] rows[j]@) is None
}

/// The rows, read as cell text, turned into member records in the same order.
/// The first faulty row fails the whole extraction: no partial roster comes out.
pub fn extract_members(rows: &Vec<Vec<String>>) -> (r: Result<Vec<Member>, SumsClientMembersError>)
    ensures
        is_roster_of(r, rows@),
{
    let mut members: Vec<Member> = Vec::new();
    let mut k: usize = 0;
    while k < rows.len()
        invariant
            k <= rows.len(),
            members@.len() == k,
            forall|j: int| 0 <= j < k ==> row_fault(#[trigger] rows@[j]@) is None,
            forall|j: int| 0 <= j < k ==> #[trigger] members@[j] == row_member(rows@[j]@),
        decreases rows.len() - k,
    {
        match parse_row(&rows[k]) {
            Ok(m) => {
                members.push(m);
            },
            Err(e) => {
                assert(reports_row(e, rows@[k as int]@));
                assert(roster(rows@) is None);
                return Err(e);
            },
        }
        k = k + 1;
    }
    assert(members@ =~= roster(rows@)->Some_0);
    Ok(members)
}

/// A single faulty row, such as one whose date cell is not a date, leaves no
/// roster at all: extraction fails instead of dropping that row.
pub proof fn lemma_faulty_row_fails_roster(rows: Seq<Vec<String>>, i: int)
    requires
        0 <= i < rows.len(),
        row_fault(rows[i]@) is Some,
    ensures
        roster(rows) is None,
        forall|r: Result<Vec<Member>, SumsClientMembersError>| is_roster_of(r, rows) ==> r is Err,
{
}

/// An empty table gives an empty roster, not an error.
pub proof fn lemma_empty_table()
    ensures
        roster(Seq::<Vec<String>>::empty()) == Some(Seq::<Member>::empty()),
        forall|r: Result<Vec<Member>, SumsClientMembersError>|
            is_roster_of(r, Seq::<Vec<String>>::empty()) ==> r is Ok && r->Ok_0@.len() == 0,
{
    assert(Seq::<Vec<String>>::empty().map_values(|row: Vec<String>| row_member(row@))
        =~= Seq::<Member>::empty());
}

} // verus!
