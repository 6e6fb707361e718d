use toy_blockchain::practice::{interleave, interleave_no_clone, rotate_vector};

#[test]
fn interleave_takes_items_in_turn() {
    assert_eq!(interleave(vec![1, 3, 5], vec![2, 4, 6]), vec![1, 2, 3, 4, 5, 6]);
}

#[test]
fn interleave_appends_the_rest_of_the_longer() {
    assert_eq!(interleave(vec![1, 2, 3], vec![10, 20, 30, 40, 50]), vec![1, 10, 2, 20, 3, 30, 40, 50]);
    assert_eq!(interleave(vec![1, 2, 3, 4], vec![10]), vec![1, 10, 2, 3, 4]);
}

#[test]
fn interleave_with_an_empty_vector_is_the_other() {
    assert_eq!(interleave(Vec::<i32>::new(), vec![1, 2]), vec![1, 2]);
    assert_eq!(interleave(vec![1, 2], Vec::new()), vec![1, 2]);
    assert_eq!(interleave(Vec::<i32>::new(), Vec::new()), Vec::<i32>::new());
}

#[test]
fn interleave_no_clone_takes_items_in_turn() {
    assert_eq!(interleave_no_clone(vec![1, 3, 5], vec![2, 4, 6]), vec![1, 2, 3, 4, 5, 6]);
}

#[test]
fn interleave_no_clone_appends_the_rest_of_the_longer() {
    assert_eq!(
        interleave_no_clone(vec![1, 2, 3], vec![10, 20, 30, 40, 50]),
        vec![1, 10, 2, 20, 3, 30, 40, 50]
    );
    assert_eq!(interleave_no_clone(vec![1, 2, 3, 4], vec![10]), vec![1, 10, 2, 3, 4]);
    assert_eq!(interleave_no_clone(Vec::<u8>::new(), vec![1]), vec![1]);
    assert_eq!(interleave_no_clone(Vec::<u8>::new(), Vec::new()), Vec::<u8>::new());
}

#[test]
fn interleave_no_clone_moves_items_that_cannot_be_cloned() {
    struct Token(u8);
    let mixed = interleave_no_clone(vec![Token(1), Token(3)], vec![Token(2)]);
    let numbers: Vec<u8> = mixed.iter().map(|t| t.0).collect();
    assert_eq!(numbers, vec![1, 2, 3]);
}

#[test]
fn rotate_vector_turns_to_the_right() {
    assert_eq!(rotate_vector(vec![1, 2, 3, 4, 5], 2), vec![4, 5, 1, 2, 3]);
    assert_eq!(rotate_vector(vec![1, 2, 3, 4, 5], 1), vec![5, 1, 2, 3, 4]);
}

#[test]
fn rotate_vector_by_a_multiple_of_the_length_changes_nothing() {
    assert_eq!(rotate_vector(vec![1, 2, 3], 0), vec![1, 2, 3]);
    assert_eq!(rotate_vector(vec![1, 2, 3], 3), vec![1, 2, 3]);
    assert_eq!(rotate_vector(vec![1, 2, 3], 7), vec![3, 1, 2]);
}

#[test]
fn rotate_vector_of_nothing_is_nothing() {
    assert_eq!(rotate_vector(Vec::<i32>::new(), 4), Vec::<i32>::new());
    assert_eq!(rotate_vector(vec![9], 4), vec![9]);
}
