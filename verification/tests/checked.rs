use safe_transmute::{
    transmute_many, transmute_many_mut, transmute_many_pedantic_mut, transmute_many_permissive,
    transmute_many_permissive_mut, transmute_one, transmute_one_pedantic, Error, ErrorReason,
    GuardPolicy, TypeLayout,
};

fn layout(size: usize, align: usize) -> TypeLayout {
    TypeLayout::new(size, align).unwrap()
}

const ALIGNED4: usize = 0x2000;
const ODD: usize = 0x2001;

#[test]
fn one_value_tolerates_a_tail() {
    let l = layout(4, 4);
    assert_eq!(transmute_one(&[1, 2, 3, 4], ALIGNED4, l), Ok(()));
    assert_eq!(transmute_one(&[1, 2, 3, 4, 5], ALIGNED4, l), Ok(()));
    assert_eq!(
        transmute_one(&[1, 2, 3], ALIGNED4, l),
        Err(Error { required: 4, actual: 3, reason: ErrorReason::NotEnoughBytes })
    );
}

#[test]
fn one_value_pedantic_refuses_a_tail() {
    let l = layout(4, 4);
    assert_eq!(transmute_one_pedantic(&[1, 2, 3, 4], ALIGNED4, l), Ok(()));
    assert_eq!(
        transmute_one_pedantic(&[1, 2, 3, 4, 5], ALIGNED4, l),
        Err(Error { required: 4, actual: 5, reason: ErrorReason::InexactByteCount })
    );
    assert_eq!(
        transmute_one_pedantic(&[], ALIGNED4, l),
        Err(Error { required: 4, actual: 0, reason: ErrorReason::NotEnoughBytes })
    );
}

#[test]
fn single_value_of_nothing_is_not_enough() {
    let l = layout(2, 2);
    assert_eq!(
        transmute_many(&[], ALIGNED4, l, GuardPolicy::SingleValue),
        Err(Error { required: 2, actual: 0, reason: ErrorReason::NotEnoughBytes })
    );
}

#[test]
fn alignment_fails_before_the_guard() {
    let l = layout(4, 4);
    // Too short *and* misaligned: the alignment failure wins.
    assert_eq!(
        transmute_many(&[1, 2], ODD, l, GuardPolicy::SingleMany),
        Err(Error { required: 4, actual: 1, reason: ErrorReason::Unaligned })
    );
    assert_eq!(
        transmute_one(&[1, 2], ODD, l),
        Err(Error { required: 4, actual: 1, reason: ErrorReason::Unaligned })
    );
    assert_eq!(
        transmute_one_pedantic(&[1, 2, 3, 4, 5], ODD, l),
        Err(Error { required: 4, actual: 1, reason: ErrorReason::Unaligned })
    );
}

#[test]
fn permissive_view_of_one_byte_is_empty() {
    let l = layout(2, 2);
    assert_eq!(transmute_many_permissive(&[0x00], ALIGNED4, l), Ok(0));
}

#[test]
fn permissive_view_counts_whole_elements() {
    let l = layout(2, 2);
    assert_eq!(transmute_many_permissive(&[], ALIGNED4, l), Ok(0));
    assert_eq!(transmute_many_permissive(&[1, 2, 3, 4], ALIGNED4, l), Ok(2));
    assert_eq!(transmute_many_permissive(&[1, 2, 3, 4, 5], ALIGNED4, l), Ok(2));
    // Only the alignment can fail.
    assert_eq!(
        transmute_many_permissive(&[1, 2, 3, 4], ODD, l),
        Err(Error { required: 2, actual: 1, reason: ErrorReason::Unaligned })
    );
}

#[test]
fn mutable_views_check_identically_and_keep_the_bytes() {
    let l = layout(2, 2);
    let mut data = [0x0F, 0x0E, 0x0A, 0x0B];
    assert_eq!(transmute_many_pedantic_mut(&mut data, ALIGNED4, l), Ok(2));
    assert_eq!(data, [0x0F, 0x0E, 0x0A, 0x0B]);

    let mut short = [0x0F, 0x0E, 0x0A];
    assert_eq!(
        transmute_many_pedantic_mut(&mut short, ALIGNED4, l),
        Err(Error { required: 2, actual: 3, reason: ErrorReason::InexactByteCount })
    );
    assert_eq!(short, [0x0F, 0x0E, 0x0A]);

    let mut one = [0x00];
    assert_eq!(transmute_many_permissive_mut(&mut one, ALIGNED4, l), Ok(0));
    assert_eq!(one, [0x00]);

    let mut many = [0x00, 0x01, 0x00, 0x02];
    assert_eq!(transmute_many_mut(&mut many, ALIGNED4, l, GuardPolicy::SingleMany), Ok(2));
    assert_eq!(many, [0x00, 0x01, 0x00, 0x02]);
}

#[test]
fn pedantic_view_of_four_bytes_as_pairs() {
    let l = layout(2, 2);
    assert_eq!(safe_transmute::transmute_many_pedantic(&[0x0F, 0x0E, 0x0A, 0x0B], ALIGNED4, l), Ok(2));
}
