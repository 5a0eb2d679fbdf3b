use vstd::prelude::*;
use crate::model::CivilDate;
use crate::text::{trim, trimmed};

verus! {

/// The date, in days from the common era, that chrono reads from `s` under
/// the strftime-style format `fmt`; `None` where it reads no valid date.
pub uninterp spec fn parsed_date(s: Seq<char>, fmt: Seq<char>) -> Option<int>;

/// The date with the given day number, if any.
pub open spec fn civil_date_of(days: Option<int>) -> Option<CivilDate> {
    match days {
        Some(n) => Some(CivilDate { days_from_ce: n as i32 }),
        None => None,
    }
}

/// Relies on `chrono::NaiveDate::parse_from_str` to read a date under one
/// format, and on `Datelike::num_days_from_ce` to number the date it read.
#[verifier::external_body]
fn parse_with_format(s: &str, fmt: &str) -> (r: Option<CivilDate>)
    ensures
        r == civil_date_of(parsed_date(s@, fmt@)),
{
    chrono::NaiveDate::parse_from_str(s, fmt).ok().map(
        |d| CivilDate { days_from_ce: chrono::Datelike::num_days_from_ce(&d) },
    )
}

/// The number of accepted date formats.
pub const DATE_FORMAT_COUNT: usize = 7;

/// The accepted date formats, by priority: the first that reads a date wins.
pub open spec fn spec_date_format(i: int) -> Seq<char> {
    if i == 0 {
        "%Y-%m-%d"@
    } else if i == 1 {
        "%m/%d/%Y"@
    } else if i == 2 {
        "%d/%m/%Y"@
    } else if i == 3 {
        "%d/%m/%y"@
    } else if i == 4 {
        "%m-%d-%Y"@
    } else if i == 5 {
        "%d-%m-%Y"@
    } else {
        "%Y/%m/%d"@
    }
}

/// The format of the given priority.
pub fn date_format(i: usize) -> (r: &'static str)
    requires
        i < DATE_FORMAT_COUNT,
    ensures
        r@ == spec_date_format(i as int),
{
    if i == 0 {
        "%Y-%m-%d"
    } else if i == 1 {
        "%m/%d/%Y"
    } else if i == 2 {
        "%d/%m/%Y"
    } else if i == 3 {
        "%d/%m/%y"
    } else if i == 4 {
        "%m-%d-%Y"
    } else if i == 5 {
        "%d-%m-%Y"
    } else {
        "%Y/%m/%d"
    }
}

/// What each accepted format, in priority order, reads from `s`.
pub open spec fn date_candidates(s: Seq<char>) -> Seq<Option<CivilDate>> {
    Seq::new(
        DATE_FORMAT_COUNT as nat,
        |i: int| civil_date_of(parsed_date(s, spec_date_format(i))),
    )
}

/// The first date present in `candidates`.
pub open spec fn first_some(candidates: Seq<Option<CivilDate>>) -> Option<CivilDate>
    decreases candidates.len(),
{
    if candidates.len() == 0 {
        None
    } else if candidates[0] is Some {
        candidates[0]
    } else {
        first_some(candidates.drop_first())
    }
}

/// The date that a literal denotes: surrounding whitespace is ignored and the
/// first accepted format that reads a date decides.
pub open spec fn date_of_literal(s: Seq<char>) -> Option<CivilDate> {
    first_some(date_candidates(trimmed(s)))
}

/// The first date present in `candidates`, in order.
pub fn first_readable(candidates: &Vec<Option<CivilDate>>) -> (r: Option<CivilDate>)
    ensures
        r == first_some(candidates@),
{
    let mut i: usize = 0;
    assert(candidates@.subrange(0, candidates@.len() as int) =~= candidates@);
    while i < candidates.len()
        invariant
            i <= candidates@.len(),
            first_some(candidates@) == first_some(candidates@.subrange(i as int, candidates@.len() as int)),
        decreases candidates.len() - i,
    {
        let ghost rest = candidates@.subrange(i as int, candidates@.len() as int);
        if candidates[i].is_some() {
            assert(rest[0] == candidates@[i as int]);
            return candidates[i];
        }
        assert(rest.drop_first() =~= candidates@.subrange(i + 1, candidates@.len() as int));
        i = i + 1;
    }
    None
}

/// Reads a date literal in any accepted format; `None` where no format reads one.
pub fn parse_date_literal(s: &str) -> (r: Option<CivilDate>)
    ensures
        r == date_of_literal(s@),
{
    let t = trim(s);
    let mut candidates: Vec<Option<CivilDate>> = Vec::new();
    let mut i: usize = 0;
    while i < DATE_FORMAT_COUNT
        invariant
            i <= DATE_FORMAT_COUNT,
            t@ == trimmed(s@),
            candidates@ == date_candidates(t@).subrange(0, i as int),
        decreases DATE_FORMAT_COUNT - i,
    {
        candidates.push(parse_with_format(t.as_str(), date_format(i)));
        i = i + 1;
        assert(candidates@ =~= date_candidates(t@).subrange(0, i as int));
    }
    assert(candidates@ =~= date_candidates(t@));
    first_readable(&candidates)
}

/// Reads a date written day-month-year with dashes (`27-07-2025`).
pub fn parse_day_month_year(s: &str) -> (r: Option<CivilDate>)
    ensures
        r == civil_date_of(parsed_date(s@, "%d-%m-%Y"@)),
{
    parse_with_format(s, "%d-%m-%Y")
}

} // verus!
