use cmdtools::todo::{
    add_todo, mark_done, mark_undone, next_id, organize, remove_todo, sorted_for_display, Todo,
    TodoError,
};

fn todo(id: u64, text: &str, done: bool) -> Todo {
    Todo { id, time: 100 + id, text: text.to_string(), done }
}

fn ids(v: &[Todo]) -> Vec<u64> {
    v.iter().map(|t| t.id).collect()
}

#[test]
fn adds_to_empty_store_number_from_one() {
    let mut v: Vec<Todo> = Vec::new();
    assert_eq!(add_todo(&mut v, "first".to_string(), 10), Ok(1));
    assert_eq!(add_todo(&mut v, "second".to_string(), 11), Ok(2));
    assert_eq!(add_todo(&mut v, "third one".to_string(), 12), Ok(3));
    assert_eq!(ids(&v), vec![1, 2, 3]);
    let texts: Vec<&str> = v.iter().map(|t| t.text.as_str()).collect();
    assert_eq!(texts, vec!["first", "second", "third one"]);
    assert_eq!(v[2].time, 12);
    assert!(v.iter().all(|t| !t.done));
}

#[test]
fn add_uses_largest_id_plus_one() {
    let mut v = vec![todo(5, "a", false), todo(2, "b", true)];
    assert_eq!(add_todo(&mut v, "c".to_string(), 7), Ok(6));
    assert_eq!(ids(&v), vec![5, 2, 6]);
}

#[test]
fn add_does_not_reuse_removed_ids() {
    let mut v: Vec<Todo> = Vec::new();
    add_todo(&mut v, "a".to_string(), 1).unwrap();
    add_todo(&mut v, "b".to_string(), 2).unwrap();
    add_todo(&mut v, "c".to_string(), 3).unwrap();
    remove_todo(&mut v, 2).unwrap();
    assert_eq!(add_todo(&mut v, "d".to_string(), 4), Ok(4));
    assert_eq!(ids(&v), vec![1, 3, 4]);
}

#[test]
fn add_refuses_empty_text() {
    let mut v = vec![todo(1, "a", false)];
    assert_eq!(add_todo(&mut v, String::new(), 1), Err(TodoError::EmptyText));
    assert_eq!(v, vec![todo(1, "a", false)]);
}

#[test]
fn add_refuses_when_ids_are_exhausted() {
    let mut v = vec![todo(u64::MAX, "a", false)];
    assert_eq!(add_todo(&mut v, "b".to_string(), 1), Err(TodoError::IdsExhausted));
    assert_eq!(v.len(), 1);
    assert_eq!(next_id(&v), None);
}

#[test]
fn next_id_of_empty_is_one() {
    assert_eq!(next_id(&Vec::new()), Some(1));
    assert_eq!(next_id(&vec![todo(3, "a", false), todo(9, "b", false)]), Some(10));
}

#[test]
fn remove_existing_id() {
    let mut v = vec![todo(1, "a", false), todo(4, "b", true), todo(7, "c", false)];
    assert_eq!(remove_todo(&mut v, 4), Ok("b".to_string()));
    assert_eq!(v, vec![todo(1, "a", false), todo(7, "c", false)]);
    assert!(v.iter().all(|t| t.id != 4));
}

#[test]
fn remove_missing_id_leaves_store_unchanged() {
    let mut v = vec![todo(1, "a", false), todo(4, "b", true)];
    assert_eq!(remove_todo(&mut v, 2), Ok(String::new()));
    assert_eq!(v, vec![todo(1, "a", false), todo(4, "b", true)]);
}

#[test]
fn remove_refuses_zero() {
    let mut v = vec![todo(1, "a", false)];
    assert_eq!(remove_todo(&mut v, 0), Err(TodoError::InvalidId));
    assert_eq!(v.len(), 1);
}

#[test]
fn organize_renumbers_in_order() {
    let mut v = vec![todo(3, "a", false), todo(7, "b", true), todo(9, "c", false)];
    organize(&mut v);
    assert_eq!(ids(&v), vec![1, 2, 3]);
    let texts: Vec<&str> = v.iter().map(|t| t.text.as_str()).collect();
    assert_eq!(texts, vec!["a", "b", "c"]);
    assert!(v[1].done);
    assert_eq!(v[2].time, 109);
}

#[test]
fn organize_empty_store() {
    let mut v: Vec<Todo> = Vec::new();
    organize(&mut v);
    assert!(v.is_empty());
}

#[test]
fn mark_done_only_touches_matching_id() {
    let mut v = vec![todo(2, "a", false), todo(5, "b", false), todo(8, "c", false)];
    assert_eq!(mark_done(&mut v, 5), Ok("b".to_string()));
    assert_eq!(v, vec![todo(2, "a", false), todo(5, "b", true), todo(8, "c", false)]);
}

#[test]
fn mark_done_goes_by_id_not_position() {
    let mut v = vec![todo(2, "a", false), todo(1, "b", false)];
    assert_eq!(mark_done(&mut v, 1), Ok("b".to_string()));
    assert!(!v[0].done);
    assert!(v[1].done);
}

#[test]
fn mark_done_missing_id_is_silent() {
    let mut v = vec![todo(1, "a", false)];
    assert_eq!(mark_done(&mut v, 3), Ok(String::new()));
    assert_eq!(v, vec![todo(1, "a", false)]);
    assert_eq!(mark_done(&mut v, 0), Err(TodoError::InvalidId));
}

#[test]
fn mark_undone_goes_by_position() {
    let mut v = vec![todo(9, "a", true), todo(1, "b", true)];
    assert_eq!(mark_undone(&mut v, 1), Ok(()));
    assert_eq!(v, vec![todo(9, "a", false), todo(1, "b", true)]);
}

#[test]
fn mark_undone_refuses_positions_out_of_range() {
    let mut v = vec![todo(1, "a", true)];
    assert_eq!(mark_undone(&mut v, 0), Err(TodoError::InvalidId));
    assert_eq!(mark_undone(&mut v, 2), Err(TodoError::InvalidId));
    assert_eq!(v, vec![todo(1, "a", true)]);
}

#[test]
fn display_puts_pending_first_and_keeps_order() {
    let v = vec![
        todo(1, "a", true),
        todo(2, "b", false),
        todo(3, "c", true),
        todo(4, "d", false),
    ];
    let shown = sorted_for_display(&v);
    assert_eq!(ids(&shown), vec![2, 4, 1, 3]);
    assert_eq!(v.len(), 4);
}

#[test]
fn copy_keeps_every_field() {
    let t = todo(4, "write it down", true);
    assert_eq!(t.copy(), t);
}
