use multimap::OneOrAny;

#[test]
fn as_slice_of_one_is_single_element() {
    let cell: OneOrAny<i32> = OneOrAny::One(7);
    assert_eq!(cell.as_slice(), &[7]);
}

#[test]
fn as_slice_of_any_is_the_vector() {
    let cell: OneOrAny<i32> = OneOrAny::Any(vec![1, 2, 3]);
    assert_eq!(cell.as_slice(), &[1, 2, 3]);
    let empty: OneOrAny<i32> = OneOrAny::Any(Vec::new());
    assert_eq!(empty.as_slice(), &[] as &[i32]);
}

#[test]
fn as_mut_slice_writes_reach_the_cell() {
    let mut one: OneOrAny<i32> = OneOrAny::One(7);
    one.as_mut_slice()[0] = 8;
    assert_eq!(one.as_slice(), &[8]);

    let mut many: OneOrAny<i32> = OneOrAny::Any(vec![1, 2]);
    many.as_mut_slice()[1] = 9;
    assert_eq!(many.as_slice(), &[1, 9]);
}

#[test]
fn as_mut_vec_converts_one_exactly_once() {
    let mut cell: OneOrAny<i32> = OneOrAny::One(5);
    {
        let v = cell.as_mut_vec();
        assert_eq!(v.as_slice(), &[5]);
    }
    // A second call finds the vector form already in place: same content,
    // no duplication.
    let v = cell.as_mut_vec();
    assert_eq!(v.as_slice(), &[5]);
    v.push(6);
    assert_eq!(cell.as_slice(), &[5, 6]);
}

#[test]
fn retain_filters_vector_in_order() {
    let mut cell: OneOrAny<i32> = OneOrAny::Any(vec![1, 2, 3]);
    cell.retain(|v| v % 2 == 0);
    assert_eq!(cell.as_slice(), &[2]);
}

#[test]
fn retain_collapses_rejected_one_to_empty() {
    let mut cell: OneOrAny<i32> = OneOrAny::One(5);
    cell.retain(|v| v % 2 == 0);
    assert_eq!(cell.as_slice(), &[] as &[i32]);
}

#[test]
fn retain_keeps_accepted_one() {
    let mut cell: OneOrAny<i32> = OneOrAny::One(4);
    cell.retain(|v| v % 2 == 0);
    assert_eq!(cell.as_slice(), &[4]);
}

#[test]
fn retain_can_empty_a_vector() {
    let mut cell: OneOrAny<i32> = OneOrAny::Any(vec![1, 3, 5]);
    cell.retain(|v| v % 2 == 0);
    assert_eq!(cell.as_slice(), &[] as &[i32]);
}

#[test]
fn clone_of_inline_and_of_singleton_vector_look_alike() {
    let inline: OneOrAny<i32> = OneOrAny::One(5);
    let vector: OneOrAny<i32> = OneOrAny::Any(vec![5]);
    let c1 = inline.clone();
    let c2 = vector.clone();
    assert_eq!(c1.as_slice(), c2.as_slice());
    assert_eq!(c1.as_slice()[0], 5);
    assert_eq!(c2.as_slice()[0], 5);
}

#[test]
fn clone_keeps_longer_vectors() {
    let cell: OneOrAny<i32> = OneOrAny::Any(vec![1, 2, 3]);
    assert_eq!(cell.clone().as_slice(), &[1, 2, 3]);
    let empty: OneOrAny<i32> = OneOrAny::Any(Vec::new());
    assert_eq!(empty.clone().as_slice(), &[] as &[i32]);
}

#[test]
fn deref_views_match_the_slice() {
    let cell: OneOrAny<i32> = OneOrAny::One(7);
    assert_eq!(cell.len(), 1);
    assert_eq!(cell[0], 7);

    let mut many: OneOrAny<i32> = OneOrAny::Any(vec![1, 2]);
    many[0] = 10;
    assert_eq!(&*many, &[10, 2]);
}

#[test]
fn default_is_the_empty_state() {
    let cell: OneOrAny<i32> = Default::default();
    assert_eq!(cell.as_slice(), &[] as &[i32]);
}

#[test]
fn from_value_and_from_vector() {
    let one: OneOrAny<i32> = OneOrAny::from(9);
    assert_eq!(one.as_slice(), &[9]);
    let many: OneOrAny<i32> = OneOrAny::from(vec![1, 2]);
    assert_eq!(many.as_slice(), &[1, 2]);
}

#[test]
fn into_vector_preserves_values() {
    let one: OneOrAny<i32> = OneOrAny::One(3);
    assert_eq!(Vec::from(one), vec![3]);
    let many: OneOrAny<i32> = OneOrAny::Any(vec![4, 5]);
    assert_eq!(Vec::from(many), vec![4, 5]);
    let empty: OneOrAny<i32> = OneOrAny::Any(Vec::new());
    assert_eq!(Vec::from(empty), Vec::<i32>::new());
}
