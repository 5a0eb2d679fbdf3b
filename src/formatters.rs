use vstd::prelude::*;
use crate::model::{ETaskPriority, ETaskStatus};
use crate::text::{lower_of, lowercase, same_chars};

verus! {

/// The status that a lower-case word names, synonyms included.
pub open spec fn status_of_word(w: Seq<char>) -> Option<ETaskStatus> {
    if w == "notstarted"@ || w == "not started"@ {
        Some(ETaskStatus::NotStarted)
    } else if w == "pending"@ {
        Some(ETaskStatus::Pending)
    } else if w == "inprogress"@ {
        Some(ETaskStatus::InProgress)
    } else if w == "completed"@ || w == "complete"@ || w == "done"@ {
        Some(ETaskStatus::Completed)
    } else {
        None
    }
}

/// The priority that a lower-case word names, synonyms included.
pub open spec fn priority_of_word(w: Seq<char>) -> Option<ETaskPriority> {
    if w == "normal"@ || w == "low"@ {
        Some(ETaskPriority::Normal)
    } else if w == "high"@ || w == "urgent"@ {
        Some(ETaskPriority::High)
    } else {
        None
    }
}

/// The status whose exact variant name is given (`NotStarted`, `Pending`,
/// `InProgress`, `Completed`).
pub open spec fn status_of_name(w: Seq<char>) -> Option<ETaskStatus> {
    if w == "NotStarted"@ {
        Some(ETaskStatus::NotStarted)
    } else if w == "Pending"@ {
        Some(ETaskStatus::Pending)
    } else if w == "InProgress"@ {
        Some(ETaskStatus::InProgress)
    } else if w == "Completed"@ {
        Some(ETaskStatus::Completed)
    } else {
        None
    }
}

/// The status that an already lower-cased word names.
pub fn status_from_word(w: &str) -> (r: Option<ETaskStatus>)
    ensures
        r == status_of_word(w@),
{
    if same_chars(w, "notstarted") || same_chars(w, "not started") {
        Some(ETaskStatus::NotStarted)
    } else if same_chars(w, "pending") {
        Some(ETaskStatus::Pending)
    } else if same_chars(w, "inprogress") {
        Some(ETaskStatus::InProgress)
    } else if same_chars(w, "completed") || same_chars(w, "complete") || same_chars(w, "done") {
        Some(ETaskStatus::Completed)
    } else {
        None
    }
}

/// The priority that an already lower-cased word names.
pub fn priority_from_word(w: &str) -> (r: Option<ETaskPriority>)
    ensures
        r == priority_of_word(w@),
{
    if same_chars(w, "normal") || same_chars(w, "low") {
        Some(ETaskPriority::Normal)
    } else if same_chars(w, "high") || same_chars(w, "urgent") {
        Some(ETaskPriority::High)
    } else {
        None
    }
}

/// The status named by a literal, in any letter case.
pub fn parse_status_literal(s: &str) -> (r: Option<ETaskStatus>)
    ensures
        r == status_of_word(lower_of(s@)),
{
    let folded = lowercase(s);
    status_from_word(folded.as_str())
}

/// The priority named by a literal, in any letter case.
pub fn parse_priority_literal(s: &str) -> (r: Option<ETaskPriority>)
    ensures
        r == priority_of_word(lower_of(s@)),
{
    let folded = lowercase(s);
    priority_from_word(folded.as_str())
}

/// The status with exactly the given variant name.
pub fn status_from_name(s: &str) -> (r: Option<ETaskStatus>)
    ensures
        r == status_of_name(s@),
{
    if same_chars(s, "NotStarted") {
        Some(ETaskStatus::NotStarted)
    } else if same_chars(s, "Pending") {
        Some(ETaskStatus::Pending)
    } else if same_chars(s, "InProgress") {
        Some(ETaskStatus::InProgress)
    } else if same_chars(s, "Completed") {
        Some(ETaskStatus::Completed)
    } else {
        None
    }
}

/// The status named by an optional literal.
pub open spec fn status_of_param(p: Option<String>) -> Option<ETaskStatus> {
    match p {
        Some(s) => status_of_word(lower_of(s@)),
        None => None,
    }
}

/// The priority named by an optional literal.
pub open spec fn priority_of_param(p: Option<String>) -> Option<ETaskPriority> {
    match p {
        Some(s) => priority_of_word(lower_of(s@)),
        None => None,
    }
}

/// Reads an enumeration value from optional human input.
pub trait EnumFormatter<T> {
    /// The value that the input names, if any.
    spec fn named_value(&self) -> Option<T>;

    fn as_type(&self) -> (r: Option<T>)
        ensures
            r == self.named_value(),
    ;
}

impl EnumFormatter<ETaskStatus> for Option<String> {
    open spec fn named_value(&self) -> Option<ETaskStatus> {
        status_of_param(*self)
    }

    fn as_type(&self) -> (r: Option<ETaskStatus>) {
        match self {
            Some(s) => parse_status_literal(s.as_str()),
            None => None,
        }
    }
}

impl EnumFormatter<ETaskPriority> for Option<String> {
    open spec fn named_value(&self) -> Option<ETaskPriority> {
        priority_of_param(*self)
    }

    fn as_type(&self) -> (r: Option<ETaskPriority>) {
        match self {
            Some(s) => parse_priority_literal(s.as_str()),
            None => None,
        }
    }
}

/// The display label of a status.
pub open spec fn status_label(s: ETaskStatus) -> Seq<char> {
    match s {
        ETaskStatus::NotStarted => "🔴 Not Started"@,
        ETaskStatus::Pending => "🟡 Pending"@,
        ETaskStatus::InProgress => "🔵 In Progress"@,
        ETaskStatus::Completed => "✅ Completed"@,
    }
}

/// The display label of a priority.
pub open spec fn priority_label(p: ETaskPriority) -> Seq<char> {
    match p {
        ETaskPriority::Normal => "📝 Normal"@,
        ETaskPriority::High => "🔥 High"@,
    }
}

/// The display label of a status.
pub fn format_status(status: &ETaskStatus) -> (r: String)
    ensures
        r@ == status_label(*status),
{
    let label = match status {
        ETaskStatus::NotStarted => "🔴 Not Started",
        ETaskStatus::Pending => "🟡 Pending",
        ETaskStatus::InProgress => "🔵 In Progress",
        ETaskStatus::Completed => "✅ Completed",
    };
    let r = label.to_string();
    proof {
        vstd::string::to_string_from_display_ensures_for_str(label, r);
    }
    r
}

/// The display label of a priority.
pub fn format_priority(priority: &ETaskPriority) -> (r: String)
    ensures
        r@ == priority_label(*priority),
{
    let label = match priority {
        ETaskPriority::Normal => "📝 Normal",
        ETaskPriority::High => "🔥 High",
    };
    let r = label.to_string();
    proof {
        vstd::string::to_string_from_display_ensures_for_str(label, r);
    }
    r
}

} // verus!
