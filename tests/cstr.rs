use rsix::path::{Arg, CStrBuf};

#[test]
fn test_cstr() {
    assert_eq!(CStrBuf::new(b"").unwrap().as_bytes_with_nul(), b"\0");
    assert_eq!("".into_c_str().unwrap().as_bytes_with_nul(), b"\0");
    assert_eq!(CStrBuf::new(b"hello").unwrap().as_bytes_with_nul(), b"hello\0");
    assert_eq!("hello".into_c_str().unwrap().as_bytes_with_nul(), b"hello\0");
}
