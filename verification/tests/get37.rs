use get37::Get37;

#[test]
fn returns_37() {
    assert_eq!(Get37::get_37(), 37);
}

#[test]
fn result_is_unsigned_32_bit() {
    let v: u32 = Get37::get_37();
    assert!(v <= 4294967295);
}

#[test]
fn repeated_calls_return_37() {
    let mut i: usize = 0;
    while i < 100 {
        assert_eq!(Get37::get_37(), 37);
        i += 1;
    }
}

#[test]
fn end_to_end_invocation() {
    let result = Get37::get_37();
    assert_eq!(result, 37);
}
