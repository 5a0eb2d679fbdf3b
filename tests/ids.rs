use mindvault::ids::{
    first_id_of_range, get_next_id_for_collection, get_next_id_range_for_collection, Counters,
};
use mindvault::model::DbError;

#[test]
fn range_allocation_on_fresh_sequence() {
    let mut counters = Counters::new();
    assert_eq!(get_next_id_range_for_collection(&mut counters, "tasks", 5), Ok(1));
    assert_eq!(get_next_id_for_collection(&mut counters, "tasks"), Ok(6));
}

#[test]
fn first_single_id_is_one() {
    let mut counters = Counters::new();
    assert_eq!(get_next_id_for_collection(&mut counters, "tasks"), Ok(1));
    assert_eq!(get_next_id_for_collection(&mut counters, "tasks"), Ok(2));
    assert_eq!(counters.current("tasks"), 2);
}

#[test]
fn mixed_allocations_never_repeat_an_id() {
    let mut counters = Counters::new();
    let mut issued: Vec<i64> = Vec::new();
    let counts = [1i64, 4, 1, 1, 7, 2, 1];
    for &count in counts.iter() {
        let first = if count == 1 {
            get_next_id_for_collection(&mut counters, "tasks").unwrap()
        } else {
            get_next_id_range_for_collection(&mut counters, "tasks", count).unwrap()
        };
        for id in first..first + count {
            issued.push(id);
        }
    }
    let total: i64 = counts.iter().sum();
    let expected: Vec<i64> = (1..=total).collect();
    assert_eq!(issued, expected);
}

#[test]
fn sequences_are_independent() {
    let mut counters = Counters::new();
    assert_eq!(get_next_id_range_for_collection(&mut counters, "tasks", 3), Ok(1));
    assert_eq!(get_next_id_for_collection(&mut counters, "notes"), Ok(1));
    assert_eq!(get_next_id_for_collection(&mut counters, "tasks"), Ok(4));
    assert_eq!(counters.current("notes"), 1);
    assert_eq!(counters.current("unused"), 0);
}

#[test]
fn non_positive_range_is_refused() {
    let mut counters = Counters::new();
    assert_eq!(
        get_next_id_range_for_collection(&mut counters, "tasks", 0),
        Err(DbError::InvalidCount)
    );
    assert_eq!(
        get_next_id_range_for_collection(&mut counters, "tasks", -3),
        Err(DbError::InvalidCount)
    );
    assert_eq!(get_next_id_for_collection(&mut counters, "tasks"), Ok(1));
}

#[test]
fn range_past_the_largest_id_is_refused() {
    let mut counters = Counters::new();
    assert_eq!(get_next_id_range_for_collection(&mut counters, "tasks", i64::MAX), Ok(1));
    assert_eq!(
        get_next_id_for_collection(&mut counters, "tasks"),
        Err(DbError::IdSpaceExhausted)
    );
    assert_eq!(counters.current("tasks"), i64::MAX);
}

#[test]
fn first_id_from_raised_counter() {
    assert_eq!(first_id_of_range(10, 3), Some(8));
    assert_eq!(first_id_of_range(5, 5), Some(1));
    assert_eq!(first_id_of_range(4, 5), None);
    assert_eq!(first_id_of_range(10, 0), None);
}
