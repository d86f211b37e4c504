use iter_transpose::IterTranspose;

#[test]
fn test_transpose_none() {
    let vec: Option<Vec<i32>> = None;
    let mut iter = vec.transpose_into_iter();
    let mut got: Vec<Option<i32>> = Vec::new();
    for _ in 0..3 {
        got.push(iter.next());
    }
    assert_eq!(got, vec![None, None, None]);
}

#[test]
fn test_transpose_some() {
    let vec: Option<Vec<i32>> = Some(vec![1, 2, 3]);
    assert_eq!(
        vec.transpose_into_iter().take_while_some(),
        vec![Some(1), Some(2), Some(3)]
    );
}

#[test]
fn test_transpose_none_ref() {
    let vec: Option<Vec<i32>> = None;
    let mut iter = vec.as_ref().transpose_into_iter();
    let mut got: Vec<Option<&i32>> = Vec::new();
    for _ in 0..3 {
        got.push(iter.next());
    }
    assert_eq!(got, vec![None, None, None]);
}

#[test]
fn test_transpose_some_ref() {
    let vec: Option<Vec<i32>> = Some(vec![1, 2, 3]);
    assert_eq!(
        vec.as_ref().transpose_into_iter().take_while_some(),
        vec![Some(&1), Some(&2), Some(&3)]
    );
}

#[test]
fn present_yields_each_element_then_absent_forever() {
    let mut iter = Some(vec![10, 20]).transpose_into_iter();
    assert_eq!(iter.next(), Some(10));
    assert_eq!(iter.next(), Some(20));
    assert_eq!(iter.next(), None);
    assert_eq!(iter.next(), None);
    assert_eq!(iter.next(), None);
}

#[test]
fn absent_yields_absent_for_any_number_of_steps() {
    let mut iter = None::<Vec<u8>>.transpose_into_iter();
    for _ in 0..17 {
        assert_eq!(iter.next(), None);
    }
}

#[test]
fn truncating_an_absent_adapter_is_empty() {
    let iter = None::<Vec<i32>>.transpose_into_iter();
    assert_eq!(iter.take_while_some(), Vec::<Option<i32>>::new());
}

#[test]
fn materialize_present_keeps_items_wrapped() {
    assert_eq!(
        Some(vec![1, 2, 3]).transpose_into_vec(),
        vec![Some(1), Some(2), Some(3)]
    );
}

#[test]
fn materialize_absent_is_empty() {
    assert_eq!(None::<Vec<i32>>.transpose_into_vec(), Vec::<Option<i32>>::new());
}

#[test]
fn materialize_length_matches_source_length() {
    let numbers = vec![4, 5, 6, 7];
    assert_eq!(Some(numbers.clone()).transpose_into_vec().len(), numbers.len());

    let words = vec!["a", "b"];
    assert_eq!(Some(words.clone()).transpose_into_vec().len(), words.len());

    let empty: Vec<u8> = Vec::new();
    assert_eq!(Some(empty).transpose_into_vec().len(), 0);
}

#[test]
fn unwrap_while_some_strips_the_wrapper() {
    let iter = Some(vec![1, 2]).transpose_into_iter();
    assert_eq!(iter.unwrap_while_some(), vec![1, 2]);

    let absent = None::<Vec<i32>>.transpose_into_iter();
    assert_eq!(absent.unwrap_while_some(), Vec::<i32>::new());
}

#[test]
fn truncation_after_partial_iteration_yields_the_tail() {
    let mut iter = Some(vec![1, 2, 3]).transpose_into_iter();
    assert_eq!(iter.next(), Some(1));
    assert_eq!(iter.take_while_some(), vec![Some(2), Some(3)]);
}

#[test]
fn materialize_borrowed_present() {
    let vec: Option<Vec<i32>> = Some(vec![1, 2]);
    assert_eq!(vec.as_ref().transpose_into_vec(), vec![Some(&1), Some(&2)]);
}

#[test]
fn zipping_with_required_ids_pairs_each_id() {
    let ids = vec!["x", "y"];

    let mut present = Some(vec!["A", "B"]).transpose_into_iter();
    let mut paired: Vec<(&str, Option<&str>)> = Vec::new();
    for id in &ids {
        paired.push((id, present.next()));
    }
    assert_eq!(paired, vec![("x", Some("A")), ("y", Some("B"))]);

    let mut absent = None::<Vec<&str>>.transpose_into_iter();
    let mut unpaired: Vec<(&str, Option<&str>)> = Vec::new();
    for id in &ids {
        unpaired.push((id, absent.next()));
    }
    assert_eq!(unpaired, vec![("x", None), ("y", None)]);
}
