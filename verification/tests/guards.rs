use safe_transmute::{transmute_many_pedantic, Error, ErrorReason, GuardPolicy, TypeLayout};

// A 2-byte, 2-byte-aligned element, viewed pedantically at an aligned
// address: the outcome depends on the byte length alone.

fn u16_layout() -> TypeLayout {
    TypeLayout::new(2, 2).unwrap()
}

const ALIGNED: usize = 0x1000;

#[test]
fn too_short() {
    // A zero-length buffer is an exact multiple of the element size, so
    // the pedantic policy accepts it as an empty view.
    assert_eq!(transmute_many_pedantic(&[], ALIGNED, u16_layout()), Ok(0));
    assert_eq!(
        transmute_many_pedantic(&[0x00], ALIGNED, u16_layout()),
        Err(Error { required: 16 / 8, actual: 1, reason: ErrorReason::NotEnoughBytes })
    );
}

#[test]
fn just_enough() {
    assert_eq!(transmute_many_pedantic(&[0x00, 0x01], ALIGNED, u16_layout()), Ok(1));
    assert_eq!(transmute_many_pedantic(&[0x00, 0x01, 0x00, 0x02], ALIGNED, u16_layout()), Ok(2));
}

#[test]
fn too_much() {
    assert_eq!(
        transmute_many_pedantic(&[0x00, 0x01, 0x00], ALIGNED, u16_layout()),
        Err(Error { required: 16 / 8, actual: 3, reason: ErrorReason::InexactByteCount })
    );
    assert_eq!(
        transmute_many_pedantic(&[0x00, 0x01, 0x00, 0x02, 0x00], ALIGNED, u16_layout()),
        Err(Error { required: 16 / 8, actual: 5, reason: ErrorReason::InexactByteCount })
    );
}

#[test]
fn permissive_truncates_and_never_fails() {
    assert_eq!(GuardPolicy::Permissive.validate(0, 2), Ok(0));
    assert_eq!(GuardPolicy::Permissive.validate(1, 2), Ok(0));
    assert_eq!(GuardPolicy::Permissive.validate(2, 2), Ok(1));
    assert_eq!(GuardPolicy::Permissive.validate(5, 2), Ok(2));
    assert_eq!(GuardPolicy::Permissive.validate(7, 3), Ok(2));
    assert_eq!(GuardPolicy::Permissive.validate(6, 1), Ok(6));
}

#[test]
fn single_value_wants_exactly_one() {
    assert_eq!(
        GuardPolicy::SingleValue.validate(0, 2),
        Err(Error { required: 2, actual: 0, reason: ErrorReason::NotEnoughBytes })
    );
    assert_eq!(
        GuardPolicy::SingleValue.validate(1, 2),
        Err(Error { required: 2, actual: 1, reason: ErrorReason::NotEnoughBytes })
    );
    assert_eq!(GuardPolicy::SingleValue.validate(2, 2), Ok(1));
    assert_eq!(
        GuardPolicy::SingleValue.validate(3, 2),
        Err(Error { required: 2, actual: 3, reason: ErrorReason::InexactByteCount })
    );
}

#[test]
fn single_many_wants_at_least_one() {
    assert_eq!(
        GuardPolicy::SingleMany.validate(0, 2),
        Err(Error { required: 2, actual: 0, reason: ErrorReason::NotEnoughBytes })
    );
    assert_eq!(
        GuardPolicy::SingleMany.validate(1, 2),
        Err(Error { required: 2, actual: 1, reason: ErrorReason::NotEnoughBytes })
    );
    assert_eq!(GuardPolicy::SingleMany.validate(2, 2), Ok(1));
    assert_eq!(GuardPolicy::SingleMany.validate(3, 2), Ok(1));
    assert_eq!(GuardPolicy::SingleMany.validate(5, 2), Ok(2));
}

#[test]
fn pedantic_accepts_empty() {
    assert_eq!(GuardPolicy::Pedantic.validate(0, 2), Ok(0));
    assert_eq!(GuardPolicy::Pedantic.validate(0, 8), Ok(0));
}
