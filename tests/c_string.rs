use llvm_module::c_string::{from_c_string, to_c_string};

#[test]
fn name_is_terminated() {
    assert_eq!(to_c_string("my_fn"), Some(b"my_fn\0".to_vec()));
    assert_eq!(to_c_string(""), Some(vec![0u8]));
}

#[test]
fn embedded_terminator_is_refused() {
    assert_eq!(to_c_string("my\0fn"), None);
    assert_eq!(to_c_string("\0"), None);
}

#[test]
fn text_stops_at_terminator() {
    assert_eq!(from_c_string(b"x86_64-unknown-linux-gnu\0junk"), b"x86_64-unknown-linux-gnu".to_vec());
    assert_eq!(from_c_string(b"abc"), b"abc".to_vec());
    assert_eq!(from_c_string(b"\0abc"), Vec::<u8>::new());
}

#[test]
fn name_round_trips() {
    let encoded = to_c_string("my_module").unwrap();
    assert_eq!(from_c_string(&encoded), b"my_module".to_vec());
}
