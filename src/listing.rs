use vstd::prelude::*;
use vstd::string::StringExecFns;
use crate::formatters::{format_priority, format_status, priority_label, status_label};
use crate::model::{TaskResponse, Timestamp};

verus! {

/// The decimal digit for `d` in `0..10`.
pub open spec fn digit_char(d: int) -> char {
    if d == 0 {
        '0'
    } else if d == 1 {
        '1'
    } else if d == 2 {
        '2'
    } else if d == 3 {
        '3'
    } else if d == 4 {
        '4'
    } else if d == 5 {
        '5'
    } else if d == 6 {
        '6'
    } else if d == 7 {
        '7'
    } else if d == 8 {
        '8'
    } else {
        '9'
    }
}

/// The decimal numeral of `n`, without leading zeros.
pub open spec fn decimal_text(n: nat) -> Seq<char>
    decreases n,
{
    if n < 10 {
        seq![digit_char(n as int)]
    } else {
        decimal_text(n / 10) + seq![digit_char((n % 10) as int)]
    }
}

/// The decimal numeral of `n`, with a minus sign when negative.
pub open spec fn signed_decimal_text(n: int) -> Seq<char> {
    if n < 0 {
        seq!['-'] + decimal_text((-n) as nat)
    } else {
        decimal_text(n as nat)
    }
}

fn digit_str(d: u64) -> (r: &'static str)
    requires
        d < 10,
    ensures
        r@ == seq![digit_char(d as int)],
{
    proof {
        reveal_strlit("0");
        reveal_strlit("1");
        reveal_strlit("2");
        reveal_strlit("3");
        reveal_strlit("4");
        reveal_strlit("5");
        reveal_strlit("6");
        reveal_strlit("7");
        reveal_strlit("8");
        reveal_strlit("9");
    }
    let r = if d == 0 {
        "0"
    } else if d == 1 {
        "1"
    } else if d == 2 {
        "2"
    } else if d == 3 {
        "3"
    } else if d == 4 {
        "4"
    } else if d == 5 {
        "5"
    } else if d == 6 {
        "6"
    } else if d == 7 {
        "7"
    } else if d == 8 {
        "8"
    } else {
        "9"
    };
    assert(r@ =~= seq![digit_char(d as int)]);
    r
}

/// The decimal numeral of `n`.
pub fn decimal(n: u64) -> (r: String)
    ensures
        r@ == decimal_text(n as nat),
    decreases n,
{
    if n < 10 {
        let digit = digit_str(n);
        let r = digit.to_string();
        proof {
            vstd::string::to_string_from_display_ensures_for_str(digit, r);
        }
        r
    } else {
        let head = decimal(n / 10);
        head.concat(digit_str(n % 10))
    }
}

/// The decimal numeral of `n`, with a minus sign when negative.
pub fn signed_decimal(n: i64) -> (r: String)
    ensures
        r@ == signed_decimal_text(n as int),
{
    if n < 0 {
        let magnitude = (0 - n as i128) as u64;
        let minus = "-".to_string();
        proof {
            vstd::string::to_string_from_display_ensures_for_str("-", minus);
            reveal_strlit("-");
        }
        minus.concat(decimal(magnitude).as_str())
    } else {
        decimal(n as u64)
    }
}

/// The `DD/MM/YY` rendering, in UTC, of the day holding the instant `millis`;
/// `None` for an instant outside chrono's range.
pub uninterp spec fn short_date_of_millis(millis: int) -> Option<Seq<char>>;

/// Relies on `chrono::DateTime::from_timestamp_millis` to place the instant
/// in UTC and on its `format("%d/%m/%y")` to render the day.
#[verifier::external_body]
fn short_date(t: Timestamp) -> (r: Option<String>)
    ensures
        text_of(r) == short_date_of_millis(t.millis as int),
{
    chrono::DateTime::from_timestamp_millis(t.millis).map(|d| d.format("%d/%m/%y").to_string())
}

/// The rendered day of a due date, when there is one and it can be rendered.
pub open spec fn rendered_due_day(due: Option<Timestamp>) -> Option<Seq<char>> {
    match due {
        Some(t) => short_date_of_millis(t.millis as int),
        None => None,
    }
}

/// The text of an optional string.
pub open spec fn text_of(s: Option<String>) -> Option<Seq<char>> {
    match s {
        Some(x) => Some(x@),
        None => None,
    }
}

/// A task line that shows the given rendered due day, if any.
pub open spec fn task_line_with_day(t: TaskResponse, due_day: Option<Seq<char>>) -> Seq<char> {
    let due = match due_day {
        Some(day) => " | 📅 "@ + day,
        None => Seq::empty(),
    };
    t.name@ + " | "@ + status_label(t.status) + " | "@ + priority_label(t.priority) + due + " (#"@
        + signed_decimal_text(t.id as int) + ")"@
}

/// One line of a task listing: name, status, priority, due day, id.
pub open spec fn task_line(t: TaskResponse) -> Seq<char> {
    task_line_with_day(t, rendered_due_day(t.due_date))
}

/// The first line of a non-empty listing of `n` tasks.
pub open spec fn listing_header(n: nat) -> Seq<char> {
    "📋 Found "@ + decimal_text(n) + " task(s):\n"@
}

/// The line of a task, showing `due_day` as its due day.
pub fn format_task_line_with_day(t: &TaskResponse, due_day: &Option<String>) -> (r: String)
    ensures
        r@ == task_line_with_day(*t, text_of(*due_day)),
{
    let due = match due_day {
        Some(day) => {
            let mark = " | 📅 ".to_string();
            proof {
                vstd::string::to_string_from_display_ensures_for_str(" | 📅 ", mark);
            }
            mark.concat(day.as_str())
        },
        None => String::new(),
    };
    t.name.clone().concat(" | ").concat(format_status(&t.status).as_str()).concat(" | ").concat(
        format_priority(&t.priority).as_str(),
    ).concat(due.as_str()).concat(" (#").concat(signed_decimal(t.id).as_str()).concat(")")
}

/// The line of a task.
pub fn format_task_line(t: &TaskResponse) -> (r: String)
    ensures
        r@ == task_line(*t),
{
    let due_day = match t.due_date {
        Some(ts) => short_date(ts),
        None => None,
    };
    format_task_line_with_day(t, &due_day)
}

/// The lines of a task listing: a header with the count and one line per
/// task, or a single line saying that nothing was found.
pub fn format_task_list(tasks: &Vec<TaskResponse>) -> (r: Vec<String>)
    ensures
        tasks@.len() == 0 ==> r@.len() == 1 && r@[0]@ == "📭 No tasks found"@,
        tasks@.len() > 0 ==> {
            &&& r@.len() == tasks@.len() + 1
            &&& r@[0]@ == listing_header(tasks@.len())
            &&& forall|k: int| 0 <= k < tasks@.len() ==> #[trigger] r@[k + 1]@ == task_line(tasks@[k])
        },
{
    let mut out: Vec<String> = Vec::new();
    if tasks.len() == 0 {
        let none = "📭 No tasks found".to_string();
        proof {
            vstd::string::to_string_from_display_ensures_for_str("📭 No tasks found", none);
        }
        out.push(none);
        return out;
    }
    let found = "📋 Found ".to_string();
    proof {
        vstd::string::to_string_from_display_ensures_for_str("📋 Found ", found);
    }
    out.push(found.concat(decimal(tasks.len() as u64).as_str()).concat(" task(s):\n"));
    let mut i: usize = 0;
    while i < tasks.len()
        invariant
            i <= tasks@.len(),
            out@.len() == i + 1,
            out@[0]@ == listing_header(tasks@.len()),
            forall|k: int| 0 <= k < i ==> #[trigger] out@[k + 1]@ == task_line(tasks@[k]),
        decreases tasks.len() - i,
    {
        out.push(format_task_line(&tasks[i]));
        i = i + 1;
    }
    out
}

} // verus!
