use rsix::path::{find_nul, with_c_str, with_c_str_slow_path, Arg, CStrBuf, INLINE_PATH_LEN};
use rsix::Errno;
use std::borrow::Cow;

fn terminated<A: Arg>(a: A) -> Vec<u8> {
    a.into_with_c_str(|c| Ok(c.to_vec())).unwrap()
}

#[test]
fn every_representation_gives_the_same_c_str() {
    let text = "/tmp/some dir/file.txt";
    let owned = String::from(text);
    let bytes: &[u8] = text.as_bytes();
    let vec = bytes.to_vec();
    let c = CStrBuf::new(bytes).unwrap();
    let expected = b"/tmp/some dir/file.txt\0".to_vec();

    assert_eq!(terminated(text), expected);
    assert_eq!(terminated(&owned), expected);
    assert_eq!(terminated(owned.clone()), expected);
    assert_eq!(terminated(bytes), expected);
    assert_eq!(terminated(&vec), expected);
    assert_eq!(terminated(vec.clone()), expected);
    assert_eq!(terminated(&c), expected);
    assert_eq!(terminated(c.clone()), expected);
    assert_eq!(terminated(Cow::Borrowed(text)), expected);
    assert_eq!(terminated(Cow::<str>::Owned(owned.clone())), expected);

    assert_eq!(text.into_c_str().unwrap().as_bytes_with_nul(), &expected[..]);
    assert_eq!(owned.as_cow_c_str().unwrap().as_bytes_with_nul(), &expected[..]);
    assert_eq!(vec.as_cow_c_str().unwrap().as_bytes_with_nul(), &expected[..]);
    assert_eq!(c.as_cow_c_str().unwrap().as_bytes_with_nul(), &expected[..]);
    assert_eq!(c.as_bytes(), bytes);
}

#[test]
fn interior_nul_is_refused_without_calling() {
    let text = "a\0b";
    let call = |_: &[u8]| -> rsix::Result<()> { panic!("the continuation must not run") };
    assert_eq!(text.into_with_c_str(call), Err(Errno::Inval));
    assert_eq!(String::from(text).into_with_c_str(call), Err(Errno::Inval));
    assert_eq!(text.as_bytes().into_with_c_str(call), Err(Errno::Inval));
    assert_eq!(text.as_bytes().to_vec().into_with_c_str(call), Err(Errno::Inval));
    assert_eq!(text.into_c_str(), Err(Errno::Inval));
    assert_eq!(text.as_cow_c_str(), Err(Errno::Inval));
    assert_eq!(CStrBuf::new(b"\0"), Err(Errno::Inval));
    assert_eq!(with_c_str(b"x\0", call), Err(Errno::Inval));
    assert_eq!(with_c_str_slow_path(b"x\0", call), Err(Errno::Inval));
}

#[test]
fn inline_threshold_is_invisible() {
    for len in [0usize, 1, INLINE_PATH_LEN - 1, INLINE_PATH_LEN, INLINE_PATH_LEN + 1, 4096] {
        let bytes = vec![b'p'; len];
        let got = with_c_str(&bytes, |c| Ok(c.to_vec())).unwrap();
        let mut expected = bytes.clone();
        expected.push(0);
        assert_eq!(got, expected);
        assert_eq!(terminated(bytes.as_slice()), expected);
    }
}

#[test]
fn a_nul_at_the_threshold_is_refused_on_both_paths() {
    let mut short = vec![b'q'; INLINE_PATH_LEN - 1];
    short[100] = 0;
    let mut long = vec![b'q'; INLINE_PATH_LEN];
    long[INLINE_PATH_LEN - 1] = 0;
    assert_eq!(with_c_str(&short, |c| Ok(c.len())), Err(Errno::Inval));
    assert_eq!(with_c_str(&long, |c| Ok(c.len())), Err(Errno::Inval));
}

#[test]
fn continuation_errors_pass_through() {
    assert_eq!("ok".into_with_c_str(|_| -> rsix::Result<()> { Err(Errno::NoSys) }), Err(Errno::NoSys));
}

#[test]
fn find_nul_finds_the_first() {
    assert_eq!(find_nul(b""), None);
    assert_eq!(find_nul(b"abc"), None);
    assert_eq!(find_nul(b"a\0b\0"), Some(1));
}

#[test]
fn as_str_and_lossy() {
    let good: &[u8] = "héllo".as_bytes();
    assert_eq!(good.as_str(), Ok("héllo"));
    assert_eq!(good.to_string_lossy(), "héllo");
    let bad: &[u8] = &[b'a', 0xff, b'b'];
    assert_eq!(bad.as_str(), Err(Errno::Inval));
    assert_eq!(bad.to_string_lossy(), "a\u{fffd}b");
    assert_eq!(bad.to_vec().as_str(), Err(Errno::Inval));
    assert_eq!("x".as_str(), Ok("x"));
    assert_eq!(String::from("y").to_string_lossy(), "y");
    assert_eq!("z".as_maybe_utf8_bytes(), b"z");
}
