use vstd::prelude::*;

verus! {

/// Identifier of a student, as printed in the first column of the table.
pub type StudentId = u64;

/// The kind of membership a record stands for.
#[derive(Debug, Clone, Copy, PartialEq, Eq, Structural)]
pub enum MemberType {
    Student,
}

pub open spec fn is_leap_year(year: int) -> bool {
    (year % 4 == 0 && year % 100 != 0) || year % 400 == 0
}

/// Number of days of a month (1 to 12) in the proleptic Gregorian calendar.
pub open spec fn days_in_month(year: int, month: int) -> int {
    if month == 2 {
        if is_leap_year(year) { 29 } else { 28 }
    } else if month == 4 || month == 6 || month == 9 || month == 11 {
        30
    } else {
        31
    }
}

/// A calendar date given by its year, month and day of month.
#[derive(Debug, Clone, Copy, PartialEq, Eq, Structural)]
pub struct CalendarDate {
    pub year: i32,
    pub month: u32,
    pub day: u32,
}

impl CalendarDate {
    /// The date exists in the proleptic Gregorian calendar.
    pub open spec fn wf(self) -> bool {
        &&& 1 <= self.month <= 12
        &&& 1 <= self.day <= days_in_month(self.year as int, self.month as int)
    }

    /// The parts of the date as mathematical integers.
    pub open spec fn parts(self) -> (int, int, int) {
        (self.year as int, self.month as int, self.day as int)
    }
}

/// One member of a group, as listed on the group's member page.
#[derive(Debug, Clone, PartialEq, Eq)]
pub struct Member {
    pub student_id: StudentId,
    pub name: String,
    pub member_type: MemberType,
    pub subscription_purchased: String,
    pub date_joined: CalendarDate,
}

impl Member {
    pub fn new(
        student_id: StudentId,
        name: String,
        member_type: MemberType,
        subscription_purchased: String,
        date_joined: CalendarDate,
    ) -> (r: Self)
        ensures
            r.student_id == student_id,
            r.name == name,
            r.member_type == member_type,
            r.subscription_purchased == subscription_purchased,
            r.date_joined == date_joined,
    {
        Member { student_id, name, member_type, subscription_purchased, date_joined }
    }
}

} // verus!
