use iter_transpose::IterTranspose;

#[test]
fn success_yields_each_element_then_ends() {
    let mut iter = Ok::<Vec<i32>, ()>(vec![1, 2, 3]).transpose_into_iter();
    assert_eq!(iter.next(), Some(Ok(1)));
    assert_eq!(iter.next(), Some(Ok(2)));
    assert_eq!(iter.next(), Some(Ok(3)));
    assert_eq!(iter.next(), None);
    assert_eq!(iter.next(), None);
}

#[test]
fn failure_replays_a_clone_of_the_error_forever() {
    let mut iter = Err::<Vec<i32>, String>(String::from("boom")).transpose_into_iter();
    for _ in 0..5 {
        assert_eq!(iter.next(), Some(Err(String::from("boom"))));
    }
}

#[test]
fn take_while_ok_keeps_items_wrapped() {
    let iter = Ok::<Vec<i32>, ()>(vec![1, 2, 3]).transpose_into_iter();
    assert_eq!(iter.take_while_ok(), vec![Ok(1), Ok(2), Ok(3)]);
}

#[test]
fn take_while_ok_on_failure_is_empty() {
    let iter = Err::<Vec<i32>, String>(String::from("gone")).transpose_into_iter();
    assert_eq!(iter.take_while_ok(), Vec::<Result<i32, String>>::new());
}

#[test]
fn unwrap_while_ok_strips_the_wrapper() {
    let iter = Ok::<Vec<i32>, ()>(vec![1, 2]).transpose_into_iter();
    assert_eq!(iter.unwrap_while_ok(), vec![1, 2]);
}

#[test]
fn unwrap_while_ok_on_failure_is_empty() {
    let iter = Err::<Vec<i32>, ()>(()).transpose_into_iter();
    assert_eq!(iter.unwrap_while_ok(), Vec::<i32>::new());
}

#[test]
fn materialize_success_keeps_items_wrapped() {
    assert_eq!(
        Ok::<Vec<i32>, ()>(vec![1, 2]).transpose_into_vec(),
        vec![Ok(1), Ok(2)]
    );
}

#[test]
fn materialize_failure_is_empty() {
    assert_eq!(
        Err::<Vec<i32>, String>(String::from("nope")).transpose_into_vec(),
        Vec::<Result<i32, String>>::new()
    );
}

#[test]
fn truncation_after_partial_iteration_yields_the_ok_tail() {
    let mut iter = Ok::<Vec<i32>, ()>(vec![1, 2, 3]).transpose_into_iter();
    assert_eq!(iter.next(), Some(Ok(1)));
    assert_eq!(iter.take_while_ok(), vec![Ok(2), Ok(3)]);
}

#[test]
fn exhausted_success_does_not_fabricate_a_failure() {
    let mut iter = Ok::<Vec<i32>, String>(vec![7]).transpose_into_iter();
    assert_eq!(iter.next(), Some(Ok(7)));
    // Natural exhaustion ends the sequence instead of emitting an error.
    assert_eq!(iter.next(), None);
    assert_eq!(iter.next(), None);
}
