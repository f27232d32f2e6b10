use http_adapter::fields::{append_value, clone_entries, get_values, remove_name, set_values};
use http_adapter::state::State;

fn pair(name: &str, value: &str) -> (String, String) {
    (name.to_string(), value.to_string())
}

fn texts(values: &[&str]) -> Vec<String> {
    values.iter().map(|v| v.to_string()).collect()
}

/// The plain model that the header operations are held against.
fn model_set(entries: &mut Vec<(String, String)>, name: &str, values: &[&str]) {
    entries.retain(|(k, _)| k != name);
    for v in values {
        entries.push(pair(name, v));
    }
}

fn model_delete(entries: &mut Vec<(String, String)>, name: &str) {
    entries.retain(|(k, _)| k != name);
}

#[test]
fn new_fields_keeps_pairs_in_order() {
    let mut state = State::new((1, 2));
    let h = state.new_fields(vec![pair("a", "1"), pair("b", "2"), pair("a", "3")]);
    assert_eq!(h, 0);
    assert!(state.has_fields(h));
    assert_eq!(state.fields_entries(h), vec![pair("a", "1"), pair("b", "2"), pair("a", "3")]);
}

#[test]
fn handles_count_up_from_zero() {
    let mut state = State::new((1, 2));
    assert_eq!(state.new_fields(vec![]), 0);
    assert_eq!(state.new_fields(vec![]), 1);
    state.drop_fields(0);
    assert_eq!(state.new_fields(vec![]), 2);
    assert!(!state.has_fields(0));
    assert!(state.has_fields(1));
    assert!(state.has_fields(2));
}

#[test]
fn get_returns_all_values_of_a_name_in_order() {
    let mut state = State::new((1, 2));
    let h = state.new_fields(vec![pair("a", "1"), pair("b", "2"), pair("a", "3")]);
    assert_eq!(state.fields_get(h, "a".to_string()), texts(&["1", "3"]));
    assert_eq!(state.fields_get(h, "b".to_string()), texts(&["2"]));
    assert_eq!(state.fields_get(h, "c".to_string()), texts(&[]));
}

#[test]
fn names_are_compared_exactly() {
    let mut state = State::new((1, 2));
    let h = state.new_fields(vec![pair("Content-Type", "text/plain")]);
    assert_eq!(state.fields_get(h, "Content-Type".to_string()), texts(&["text/plain"]));
    assert_eq!(state.fields_get(h, "content-type".to_string()), texts(&[]));
    state.fields_delete(h, "CONTENT-TYPE".to_string());
    assert_eq!(state.fields_entries(h), vec![pair("Content-Type", "text/plain")]);
}

#[test]
fn set_removes_then_appends() {
    let mut state = State::new((1, 2));
    let h = state.new_fields(vec![pair("a", "1"), pair("b", "2"), pair("a", "3"), pair("c", "4")]);
    state.fields_set(h, "a".to_string(), texts(&["x", "y"]));
    assert_eq!(
        state.fields_entries(h),
        vec![pair("b", "2"), pair("c", "4"), pair("a", "x"), pair("a", "y")]
    );
    assert_eq!(state.fields_get(h, "a".to_string()), texts(&["x", "y"]));
}

#[test]
fn set_of_a_new_name_appends() {
    let mut state = State::new((1, 2));
    let h = state.new_fields(vec![pair("a", "1")]);
    state.fields_set(h, "z".to_string(), texts(&["9"]));
    assert_eq!(state.fields_entries(h), vec![pair("a", "1"), pair("z", "9")]);
}

#[test]
fn set_to_no_values_deletes() {
    let mut state = State::new((1, 2));
    let h = state.new_fields(vec![pair("a", "1"), pair("b", "2")]);
    state.fields_set(h, "a".to_string(), vec![]);
    assert_eq!(state.fields_entries(h), vec![pair("b", "2")]);
}

#[test]
fn delete_removes_all_of_a_name() {
    let mut state = State::new((1, 2));
    let h = state.new_fields(vec![pair("a", "1"), pair("b", "2"), pair("a", "3")]);
    state.fields_delete(h, "a".to_string());
    assert_eq!(state.fields_entries(h), vec![pair("b", "2")]);
    state.fields_delete(h, "missing".to_string());
    assert_eq!(state.fields_entries(h), vec![pair("b", "2")]);
}

#[test]
fn append_adds_one_pair_at_the_end() {
    let mut state = State::new((1, 2));
    let h = state.new_fields(vec![pair("a", "1"), pair("b", "2")]);
    state.fields_append(h, "a".to_string(), "3".to_string());
    assert_eq!(state.fields_entries(h), vec![pair("a", "1"), pair("b", "2"), pair("a", "3")]);
    assert_eq!(state.fields_get(h, "a".to_string()), texts(&["1", "3"]));
}

#[test]
fn clone_is_an_independent_copy() {
    let mut state = State::new((1, 2));
    let h = state.new_fields(vec![pair("a", "1")]);
    let c = state.fields_clone(h);
    assert_ne!(c, h);
    assert_eq!(state.fields_entries(c), vec![pair("a", "1")]);
    state.fields_append(c, "b".to_string(), "2".to_string());
    state.fields_set(c, "a".to_string(), texts(&["changed"]));
    assert_eq!(state.fields_entries(h), vec![pair("a", "1")]);
    state.fields_delete(h, "a".to_string());
    assert_eq!(state.fields_entries(c), vec![pair("b", "2"), pair("a", "changed")]);
    state.drop_fields(h);
    assert!(state.has_fields(c));
    assert_eq!(state.fields_entries(c), vec![pair("b", "2"), pair("a", "changed")]);
}

#[test]
fn dropped_fields_are_not_live() {
    let mut state = State::new((1, 2));
    let h = state.new_fields(vec![pair("a", "1")]);
    let other = state.new_fields(vec![pair("b", "2")]);
    state.drop_fields(h);
    assert!(!state.has_fields(h));
    assert!(state.has_fields(other));
    let later = state.new_fields(vec![]);
    assert_ne!(later, h);
    assert!(!state.has_fields(h));
}

#[test]
fn a_sequence_of_operations_matches_the_plain_model() {
    let mut state = State::new((1, 2));
    let start = vec![pair("a", "1"), pair("b", "2"), pair("a", "3")];
    let h = state.new_fields(start.clone());
    let mut model = start;

    state.fields_append(h, "c".to_string(), "4".to_string());
    model.push(pair("c", "4"));
    assert_eq!(state.fields_entries(h), model);

    state.fields_set(h, "a".to_string(), texts(&["5", "6"]));
    model_set(&mut model, "a", &["5", "6"]);
    assert_eq!(state.fields_entries(h), model);

    state.fields_delete(h, "b".to_string());
    model_delete(&mut model, "b");
    assert_eq!(state.fields_entries(h), model);

    state.fields_append(h, "a".to_string(), "7".to_string());
    model.push(pair("a", "7"));
    assert_eq!(state.fields_entries(h), model);

    state.fields_set(h, "c".to_string(), texts(&["8"]));
    model_set(&mut model, "c", &["8"]);
    assert_eq!(state.fields_entries(h), model);

    assert_eq!(
        model,
        vec![pair("a", "5"), pair("a", "6"), pair("a", "7"), pair("c", "8")]
    );
    assert_eq!(state.fields_get(h, "a".to_string()), texts(&["5", "6", "7"]));
}

#[test]
fn list_functions_work_without_a_state() {
    let mut entries = vec![pair("a", "1"), pair("b", "2"), pair("a", "3")];
    assert_eq!(get_values(&entries, &"a".to_string()), texts(&["1", "3"]));
    assert_eq!(clone_entries(&entries), entries);
    append_value(&mut entries, "b".to_string(), "4".to_string());
    assert_eq!(entries.len(), 4);
    set_values(&mut entries, &"b".to_string(), texts(&["9"]));
    assert_eq!(entries, vec![pair("a", "1"), pair("a", "3"), pair("b", "9")]);
    remove_name(&mut entries, &"a".to_string());
    assert_eq!(entries, vec![pair("b", "9")]);
    remove_name(&mut entries, &"b".to_string());
    assert!(entries.is_empty());
    assert_eq!(get_values(&entries, &"b".to_string()), texts(&[]));
}

#[test]
fn counter_room_is_reported() {
    let state = State::new((1, 2));
    assert!(state.can_allocate_fields());
    assert!(state.can_allocate_incoming_stream());
    assert!(state.can_allocate_response());
    assert!(state.can_allocate_outgoing_stream());
}
