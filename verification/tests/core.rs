use standard_checks::StandardChecks;

#[test]
fn core_bool() {
    assert_eq!(bool::one_iteration(&[0, 0, 0]), Ok(()));
    assert_eq!(bool::one_iteration(&[0, 0, 1]), Ok(()));
    assert_eq!(bool::one_iteration(&[0, 1, 0]), Ok(()));
    assert_eq!(bool::one_iteration(&[0, 1, 1]), Ok(()));
    assert_eq!(bool::one_iteration(&[1, 0, 0]), Ok(()));
    assert_eq!(bool::one_iteration(&[1, 0, 1]), Ok(()));
    assert_eq!(bool::one_iteration(&[1, 1, 0]), Ok(()));
    assert_eq!(bool::one_iteration(&[1, 1, 1]), Ok(()));
}

#[test]
fn core_array_of_bools() {
    assert_eq!(<[bool; 1]>::one_iteration(&[0, 0, 0]), Ok(()));
    assert_eq!(<[bool; 1]>::one_iteration(&[0, 0, 1]), Ok(()));
    assert_eq!(<[bool; 1]>::one_iteration(&[0, 1, 0]), Ok(()));
    assert_eq!(<[bool; 1]>::one_iteration(&[0, 1, 1]), Ok(()));
    assert_eq!(<[bool; 1]>::one_iteration(&[1, 0, 0]), Ok(()));
    assert_eq!(<[bool; 1]>::one_iteration(&[1, 0, 1]), Ok(()));
    assert_eq!(<[bool; 1]>::one_iteration(&[1, 1, 0]), Ok(()));
    assert_eq!(<[bool; 1]>::one_iteration(&[1, 1, 1]), Ok(()));
}
