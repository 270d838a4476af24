//! Path arguments: the many string types that name a file, and their
//! conversion into the NUL-terminated bytes that the kernel reads.
use vstd::prelude::*;

use std::borrow::Cow;

use crate::io::{Errno, Result};
use vstd::string::StringSliceAdditionalSpecFns;
use vstd::utf8::{decode_utf8, encode_utf8, encode_utf8_decode_utf8, encode_utf8_valid_utf8, valid_utf8};

verus! {

/// Paths shorter than this are made NUL-terminated in a buffer on the stack;
/// longer ones on the heap.
pub const INLINE_PATH_LEN: usize = 256;

/// Whether `b` holds a NUL byte.
pub open spec fn has_nul(b: Seq<u8>) -> bool {
    exists|i: int| 0 <= i < b.len() && b[i] == 0
}

/// The NUL-terminated form of the bytes `b`: `b` followed by one NUL, or
/// `None` where `b` itself holds a NUL, which the terminated form could not
/// tell from its end.
pub open spec fn c_str_of(b: Seq<u8>) -> Option<Seq<u8>> {
    if has_nul(b) {
        None
    } else {
        Some(b.push(0))
    }
}

/// What running a continuation on the NUL-terminated form of `bytes` may give:
/// `EINVAL` where `bytes` holds a NUL, and otherwise a result that `f` may
/// return on a slice holding exactly that form.
pub open spec fn ran_on_c_str<T, F: FnOnce(&[u8]) -> Result<T>>(
    bytes: Seq<u8>,
    f: F,
    r: Result<T>,
) -> bool {
    match c_str_of(bytes) {
        None => r == Err::<T, Errno>(Errno::Inval),
        Some(z) => exists|s: &[u8]| s@ == z && #[trigger] f.ensures((s,), r),
    }
}

/// Whether `f` may be run on the NUL-terminated form of `bytes`.
pub open spec fn runs_on_c_str<T, F: FnOnce(&[u8]) -> Result<T>>(bytes: Seq<u8>, f: F) -> bool {
    forall|s: &[u8]| s@ == bytes.push(0) ==> #[trigger] f.requires((s,))
}

/// The position of the first NUL byte in `bytes`, if any.
pub fn find_nul(bytes: &[u8]) -> (r: Option<usize>)
    ensures
        match r {
            None => !has_nul(bytes@),
            Some(i) => i < bytes@.len() && bytes@[i as int] == 0 && forall|j: int|
                0 <= j < i ==> bytes@[j] != 0,
        },
{
    let mut i: usize = 0;
    while i < bytes.len()
        invariant
            i <= bytes@.len(),
            forall|j: int| 0 <= j < i ==> bytes@[j] != 0,
        decreases bytes@.len() - i,
    {
        if bytes[i] == 0 {
            return Some(i);
        }
        i = i + 1;
    }
    None
}

/// An owned NUL-terminated byte string with no interior NUL.
#[derive(Debug, PartialEq, Eq)]
pub struct CStrBuf {
    with_nul: Vec<u8>,
}

impl View for CStrBuf {
    type V = Seq<u8>;

    /// The bytes of the string, without the terminating NUL.
    closed spec fn view(&self) -> Seq<u8> {
        self.with_nul@.drop_last()
    }
}

impl CStrBuf {
    /// The stored bytes end with the one NUL they hold.
    #[verifier::type_invariant]
    closed spec fn wf(&self) -> bool {
        &&& self.with_nul@.len() > 0
        &&& self.with_nul@.last() == 0
        &&& !has_nul(self.with_nul@.drop_last())
    }

    /// The bytes with the terminating NUL.
    pub open spec fn spec_with_nul(&self) -> Seq<u8> {
        self@.push(0)
    }

    /// Makes a NUL-terminated copy of `bytes`; fails with `EINVAL` where
    /// `bytes` holds a NUL.
    pub fn new(bytes: &[u8]) -> (r: Result<CStrBuf>)
        ensures
            match r {
                Ok(c) => c_str_of(bytes@) == Some(c.spec_with_nul()) && c@ == bytes@,
                Err(e) => e == Errno::Inval && c_str_of(bytes@).is_none(),
            },
    {
        if find_nul(bytes).is_some() {
            return Err(Errno::Inval);
        }
        let mut with_nul: Vec<u8> = Vec::new();
        let mut i: usize = 0;
        while i < bytes.len()
            invariant
                i <= bytes@.len(),
                with_nul@ == bytes@.subrange(0, i as int),
            decreases bytes@.len() - i,
        {
            with_nul.push(bytes[i]);
            i = i + 1;
        }
        with_nul.push(0);
        assert(with_nul@.drop_last() =~= bytes@);
        Ok(CStrBuf { with_nul })
    }

    /// The bytes of the string, without the terminating NUL.
    pub fn as_bytes(&self) -> (r: &[u8])
        ensures
            r@ == self@,
            !has_nul(r@),
    {
        proof {
            use_type_invariant(self);
        }
        let n = self.with_nul.len() - 1;
        let (head, _) = self.with_nul.as_slice().split_at(n);
        head
    }

    /// The bytes of the string, with the terminating NUL.
    pub fn as_bytes_with_nul(&self) -> (r: &[u8])
        ensures
            r@ == self.spec_with_nul(),
    {
        proof {
            use_type_invariant(self);
        }
        assert(self.with_nul@ =~= self@.push(0));
        self.with_nul.as_slice()
    }
}

impl Clone for CStrBuf {
    fn clone(&self) -> (r: CStrBuf)
        ensures
            r@ == self@,
    {
        proof {
            use_type_invariant(self);
        }
        let mut with_nul: Vec<u8> = Vec::new();
        let mut i: usize = 0;
        while i < self.with_nul.len()
            invariant
                i <= self.with_nul@.len(),
                with_nul@ == self.with_nul@.subrange(0, i as int),
            decreases self.with_nul@.len() - i,
        {
            with_nul.push(self.with_nul[i]);
            i = i + 1;
        }
        assert(with_nul@ =~= self.with_nul@);
        CStrBuf { with_nul }
    }
}

/// Runs `f` with `bytes` passed in as a NUL-terminated slice, which lives
/// only for the call. Paths shorter than `INLINE_PATH_LEN` are terminated in
/// a buffer on the stack; longer ones go to [`with_c_str_slow_path`]. Fails
/// with `EINVAL`, without calling `f`, where `bytes` holds a NUL.
pub fn with_c_str<T, F: FnOnce(&[u8]) -> Result<T>>(bytes: &[u8], f: F) -> (r: Result<T>)
    requires
        !has_nul(bytes@) ==> runs_on_c_str(bytes@, f),
    ensures
        ran_on_c_str(bytes@, f, r),
{
    // Test with >= so that there is room for the trailing NUL.
    if bytes.len() >= INLINE_PATH_LEN {
        return with_c_str_slow_path(bytes, f);
    }
    if find_nul(bytes).is_some() {
        return Err(Errno::Inval);
    }
    let mut buffer: [u8; 256] = [0u8; 256];
    let n = bytes.len();
    let mut i: usize = 0;
    while i < n
        invariant
            n == bytes@.len(),
            n < 256,
            i <= n,
            forall|j: int| 0 <= j < i ==> buffer@[j] == bytes@[j],
            forall|j: int| i <= j < 256 ==> buffer@[j] == 0,
        decreases n - i,
    {
        buffer[i] = bytes[i];
        i = i + 1;
    }
    let (c_str, _) = buffer.as_slice().split_at(n + 1);
    assert(c_str@ =~= bytes@.push(0));
    f(c_str)
}

/// Runs `f` with `bytes` passed in as a NUL-terminated slice on the heap, for
/// a path of any length; the kernel enforces its own limit. Fails with
/// `EINVAL`, without calling `f`, where `bytes` holds a NUL.
pub fn with_c_str_slow_path<T, F: FnOnce(&[u8]) -> Result<T>>(bytes: &[u8], f: F) -> (r: Result<T>)
    requires
        !has_nul(bytes@) ==> runs_on_c_str(bytes@, f),
    ensures
        ran_on_c_str(bytes@, f, r),
{
    match CStrBuf::new(bytes) {
        Ok(c) => f(c.as_bytes_with_nul()),
        Err(e) => Err(e),
    }
}

/// What `String::from_utf8_lossy` makes of the bytes `b`: their characters,
/// with each ill-formed sequence replaced by U+FFFD.
pub uninterp spec fn lossy_utf8(b: Seq<u8>) -> Seq<char>;

/// Relies on `core::str::from_utf8`: it borrows the bytes as a string exactly
/// when they are well-formed UTF-8.
#[verifier::external_body]
fn utf8_str<'a>(b: &'a [u8]) -> (r: Option<&'a str>)
    ensures
        r.is_some() == valid_utf8(b@),
        r matches Some(s) ==> s.spec_bytes() == b@,
{
    core::str::from_utf8(b).ok()
}

/// Relies on `String::from_utf8_lossy`: its result depends on the bytes alone,
/// and well-formed UTF-8 comes back as the characters it encodes.
#[verifier::external_body]
fn utf8_lossy<'a>(b: &'a [u8]) -> (r: Cow<'a, str>)
    ensures
        r@ == lossy_utf8(b@),
        valid_utf8(b@) ==> r@ == decode_utf8(b@),
{
    String::from_utf8_lossy(b)
}

/// Whether `r` is the outcome that converting `bytes` into an owned
/// NUL-terminated string must have.
pub open spec fn converted_c_str(bytes: Seq<u8>, r: Result<CStrBuf>) -> bool {
    match r {
        Ok(c) => c_str_of(bytes) == Some(c.spec_with_nul()),
        Err(e) => e == Errno::Inval && c_str_of(bytes).is_none(),
    }
}

/// Whether `r` is the outcome that viewing `bytes` as a string must have.
pub open spec fn viewed_as_str(bytes: Seq<u8>, r: Result<&str>) -> bool {
    match r {
        Ok(s) => valid_utf8(bytes) && s.spec_bytes() == bytes,
        Err(e) => e == Errno::Inval && !valid_utf8(bytes),
    }
}

/// Whether `r` is the lossy rendering of `bytes` as text.
pub open spec fn rendered_lossy(bytes: Seq<u8>, r: Cow<'_, str>) -> bool {
    if valid_utf8(bytes) {
        r@ == decode_utf8(bytes)
    } else {
        r@ == lossy_utf8(bytes)
    }
}

/// A value that can be passed where a path is expected.
///
/// Each kind of string holds a path as bytes, `arg_bytes`; every conversion
/// below depends on those bytes alone.
pub trait Arg: Sized {
    /// The bytes of the path.
    spec fn arg_bytes(&self) -> Seq<u8>;

    /// A view of this path as a string slice; `EINVAL` where its bytes are
    /// not UTF-8.
    fn as_str(&self) -> (r: Result<&str>)
        ensures
            viewed_as_str(self.arg_bytes(), r),
    ;

    /// This path as text, each ill-formed UTF-8 sequence replaced.
    fn to_string_lossy(&self) -> (r: Cow<'_, str>)
        ensures
            rendered_lossy(self.arg_bytes(), r),
    ;

    /// This path as an owned NUL-terminated string; `EINVAL` where it holds a
    /// NUL.
    fn as_cow_c_str(&self) -> (r: Result<CStrBuf>)
        ensures
            converted_c_str(self.arg_bytes(), r),
    ;

    /// Consumes this path and returns it as an owned NUL-terminated string;
    /// `EINVAL` where it holds a NUL.
    fn into_c_str(self) -> (r: Result<CStrBuf>)
        ensures
            converted_c_str(self.arg_bytes(), r),
    ;

    /// The bytes of this path.
    fn as_maybe_utf8_bytes(&self) -> (r: &[u8])
        ensures
            r@ == self.arg_bytes(),
    ;

    /// Runs `f` with this path passed in as a NUL-terminated slice, which
    /// lives only for the call; `EINVAL`, without calling `f`, where the path
    /// holds a NUL. `f` need only be callable on a path without one, so a
    /// continuation that cannot be called at all may be passed with such a
    /// path.
    fn into_with_c_str<T, F: FnOnce(&[u8]) -> Result<T>>(self, f: F) -> (r: Result<T>)
        requires
            !has_nul(self.arg_bytes()) ==> runs_on_c_str(self.arg_bytes(), f),
        ensures
            ran_on_c_str(self.arg_bytes(), f, r),
    ;
}

impl<'a> Arg for &'a str {
    open spec fn arg_bytes(&self) -> Seq<u8> {
        (**self).spec_bytes()
    }

    fn as_str(&self) -> (r: Result<&str>) {
        proof {
            encode_utf8_valid_utf8((**self)@);
        }
        Ok(*self)
    }

    fn to_string_lossy(&self) -> (r: Cow<'_, str>) {
        proof {
            encode_utf8_valid_utf8((**self)@);
            encode_utf8_decode_utf8((**self)@);
        }
        Cow::Borrowed(*self)
    }

    fn as_cow_c_str(&self) -> (r: Result<CStrBuf>) {
        CStrBuf::new((*self).as_bytes())
    }

    fn into_c_str(self) -> (r: Result<CStrBuf>) {
        CStrBuf::new(self.as_bytes())
    }

    fn as_maybe_utf8_bytes(&self) -> (r: &[u8]) {
        (*self).as_bytes()
    }

    fn into_with_c_str<T, F: FnOnce(&[u8]) -> Result<T>>(self, f: F) -> (r: Result<T>) {
        with_c_str(self.as_bytes(), f)
    }
}

impl<'a> Arg for &'a String {
    open spec fn arg_bytes(&self) -> Seq<u8> {
        encode_utf8((**self)@)
    }

    fn as_str(&self) -> (r: Result<&str>) {
        proof {
            encode_utf8_valid_utf8((**self)@);
        }
        Ok((*self).as_str())
    }

    fn to_string_lossy(&self) -> (r: Cow<'_, str>) {
        proof {
            encode_utf8_valid_utf8((**self)@);
            encode_utf8_decode_utf8((**self)@);
        }
        Cow::Borrowed((*self).as_str())
    }

    fn as_cow_c_str(&self) -> (r: Result<CStrBuf>) {
        CStrBuf::new((*self).as_str().as_bytes())
    }

    fn into_c_str(self) -> (r: Result<CStrBuf>) {
        CStrBuf::new(self.as_str().as_bytes())
    }

    fn as_maybe_utf8_bytes(&self) -> (r: &[u8]) {
        (*self).as_str().as_bytes()
    }

    fn into_with_c_str<T, F: FnOnce(&[u8]) -> Result<T>>(self, f: F) -> (r: Result<T>) {
        with_c_str(self.as_str().as_bytes(), f)
    }
}

impl Arg for String {
    open spec fn arg_bytes(&self) -> Seq<u8> {
        encode_utf8(self@)
    }

    fn as_str(&self) -> (r: Result<&str>) {
        proof {
            encode_utf8_valid_utf8(self@);
        }
        Ok(String::as_str(self))
    }

    fn to_string_lossy(&self) -> (r: Cow<'_, str>) {
        proof {
            encode_utf8_valid_utf8(self@);
            encode_utf8_decode_utf8(self@);
        }
        Cow::Borrowed(String::as_str(self))
    }

    fn as_cow_c_str(&self) -> (r: Result<CStrBuf>) {
        CStrBuf::new(String::as_str(self).as_bytes())
    }

    fn into_c_str(self) -> (r: Result<CStrBuf>) {
        CStrBuf::new(String::as_str(&self).as_bytes())
    }

    fn as_maybe_utf8_bytes(&self) -> (r: &[u8]) {
        String::as_str(self).as_bytes()
    }

    fn into_with_c_str<T, F: FnOnce(&[u8]) -> Result<T>>(self, f: F) -> (r: Result<T>) {
        with_c_str_slow_path(String::as_str(&self).as_bytes(), f)
    }
}

impl<'a> Arg for &'a [u8] {
    open spec fn arg_bytes(&self) -> Seq<u8> {
        (**self)@
    }

    fn as_str(&self) -> (r: Result<&str>) {
        match utf8_str(*self) {
            Some(s) => Ok(s),
            None => Err(Errno::Inval),
        }
    }

    fn to_string_lossy(&self) -> (r: Cow<'_, str>) {
        utf8_lossy(*self)
    }

    fn as_cow_c_str(&self) -> (r: Result<CStrBuf>) {
        CStrBuf::new(*self)
    }

    fn into_c_str(self) -> (r: Result<CStrBuf>) {
        CStrBuf::new(self)
    }

    fn as_maybe_utf8_bytes(&self) -> (r: &[u8]) {
        *self
    }

    fn into_with_c_str<T, F: FnOnce(&[u8]) -> Result<T>>(self, f: F) -> (r: Result<T>) {
        with_c_str(self, f)
    }
}

impl<'a> Arg for &'a Vec<u8> {
    open spec fn arg_bytes(&self) -> Seq<u8> {
        (**self)@
    }

    fn as_str(&self) -> (r: Result<&str>) {
        match utf8_str((*self).as_slice()) {
            Some(s) => Ok(s),
            None => Err(Errno::Inval),
        }
    }

    fn to_string_lossy(&self) -> (r: Cow<'_, str>) {
        utf8_lossy((*self).as_slice())
    }

    fn as_cow_c_str(&self) -> (r: Result<CStrBuf>) {
        CStrBuf::new((*self).as_slice())
    }

    fn into_c_str(self) -> (r: Result<CStrBuf>) {
        CStrBuf::new(self.as_slice())
    }

    fn as_maybe_utf8_bytes(&self) -> (r: &[u8]) {
        (*self).as_slice()
    }

    fn into_with_c_str<T, F: FnOnce(&[u8]) -> Result<T>>(self, f: F) -> (r: Result<T>) {
        with_c_str(self.as_slice(), f)
    }
}

impl Arg for Vec<u8> {
    open spec fn arg_bytes(&self) -> Seq<u8> {
        self@
    }

    fn as_str(&self) -> (r: Result<&str>) {
        match utf8_str(self.as_slice()) {
            Some(s) => Ok(s),
            None => Err(Errno::Inval),
        }
    }

    fn to_string_lossy(&self) -> (r: Cow<'_, str>) {
        utf8_lossy(self.as_slice())
    }

    fn as_cow_c_str(&self) -> (r: Result<CStrBuf>) {
        CStrBuf::new(self.as_slice())
    }

    fn into_c_str(self) -> (r: Result<CStrBuf>) {
        CStrBuf::new(self.as_slice())
    }

    fn as_maybe_utf8_bytes(&self) -> (r: &[u8]) {
        self.as_slice()
    }

    fn into_with_c_str<T, F: FnOnce(&[u8]) -> Result<T>>(self, f: F) -> (r: Result<T>) {
        with_c_str_slow_path(self.as_slice(), f)
    }
}

impl<'a> Arg for &'a CStrBuf {
    open spec fn arg_bytes(&self) -> Seq<u8> {
        (**self)@
    }

    fn as_str(&self) -> (r: Result<&str>) {
        match utf8_str((*self).as_bytes()) {
            Some(s) => Ok(s),
            None => Err(Errno::Inval),
        }
    }

    fn to_string_lossy(&self) -> (r: Cow<'_, str>) {
        utf8_lossy((*self).as_bytes())
    }

    fn as_cow_c_str(&self) -> (r: Result<CStrBuf>) {
        CStrBuf::new((*self).as_bytes())
    }

    fn into_c_str(self) -> (r: Result<CStrBuf>) {
        CStrBuf::new(self.as_bytes())
    }

    fn as_maybe_utf8_bytes(&self) -> (r: &[u8]) {
        (*self).as_bytes()
    }

    fn into_with_c_str<T, F: FnOnce(&[u8]) -> Result<T>>(self, f: F) -> (r: Result<T>) {
        proof {
            use_type_invariant(self);
        }
        f(self.as_bytes_with_nul())
    }
}

impl Arg for CStrBuf {
    open spec fn arg_bytes(&self) -> Seq<u8> {
        self@
    }

    fn as_str(&self) -> (r: Result<&str>) {
        match utf8_str(self.as_bytes()) {
            Some(s) => Ok(s),
            None => Err(Errno::Inval),
        }
    }

    fn to_string_lossy(&self) -> (r: Cow<'_, str>) {
        utf8_lossy(self.as_bytes())
    }

    fn as_cow_c_str(&self) -> (r: Result<CStrBuf>) {
        CStrBuf::new(self.as_bytes())
    }

    fn into_c_str(self) -> (r: Result<CStrBuf>) {
        proof {
            use_type_invariant(&self);
        }
        Ok(self)
    }

    fn as_maybe_utf8_bytes(&self) -> (r: &[u8]) {
        self.as_bytes()
    }

    fn into_with_c_str<T, F: FnOnce(&[u8]) -> Result<T>>(self, f: F) -> (r: Result<T>) {
        proof {
            use_type_invariant(&self);
        }
        f(self.as_bytes_with_nul())
    }
}

/// The text of a maybe-owned string.
fn cow_text<'a>(c: &'a Cow<'_, str>) -> (r: &'a str)
    ensures
        r@ == c@,
{
    match c {
        Cow::Borrowed(b) => *b,
        Cow::Owned(o) => o.as_str(),
    }
}

impl<'a> Arg for Cow<'a, str> {
    open spec fn arg_bytes(&self) -> Seq<u8> {
        encode_utf8(self@)
    }

    fn as_str(&self) -> (r: Result<&str>) {
        proof {
            encode_utf8_valid_utf8(self@);
        }
        Ok(cow_text(self))
    }

    fn to_string_lossy(&self) -> (r: Cow<'_, str>) {
        proof {
            encode_utf8_valid_utf8(self@);
            encode_utf8_decode_utf8(self@);
        }
        Cow::Borrowed(cow_text(self))
    }

    fn as_cow_c_str(&self) -> (r: Result<CStrBuf>) {
        CStrBuf::new(cow_text(self).as_bytes())
    }

    fn into_c_str(self) -> (r: Result<CStrBuf>) {
        CStrBuf::new(cow_text(&self).as_bytes())
    }

    fn as_maybe_utf8_bytes(&self) -> (r: &[u8]) {
        cow_text(self).as_bytes()
    }

    fn into_with_c_str<T, F: FnOnce(&[u8]) -> Result<T>>(self, f: F) -> (r: Result<T>) {
        with_c_str(cow_text(&self).as_bytes(), f)
    }
}

/// The decimal digits of `n`, most significant first, without leading zeros.
pub open spec fn dec_digits(n: nat) -> Seq<u8>
    decreases n,
{
    if n < 10 {
        seq![(48 + n) as u8]
    } else {
        dec_digits(n / 10).push((48 + n % 10) as u8)
    }
}

/// The decimal form of `i`: a minus sign for a negative value, then the
/// digits of its magnitude.
pub open spec fn dec_form(i: i64) -> Seq<u8> {
    if i < 0 {
        seq![45u8] + dec_digits((-i) as nat)
    } else {
        dec_digits(i as nat)
    }
}

/// Appends the decimal digits of `n` to `out`.
fn push_digits(n: u64, out: &mut Vec<u8>)
    ensures
        final(out)@ == old(out)@ + dec_digits(n as nat),
    decreases n,
{
    if n >= 10 {
        push_digits(n / 10, out);
    }
    out.push(48u8 + (n % 10) as u8);
    proof {
        if n >= 10 {
            assert(final(out)@ =~= old(out)@ + dec_digits(n as nat));
        } else {
            assert(final(out)@ =~= old(out)@ + dec_digits(n as nat));
        }
    }
}

/// An integer as a path: its decimal form, as `/proc/<pid>` names a process.
#[derive(Clone, Debug, PartialEq, Eq)]
pub struct DecInt {
    digits: Vec<u8>,
}

impl View for DecInt {
    type V = Seq<u8>;

    closed spec fn view(&self) -> Seq<u8> {
        self.digits@
    }
}

/// The decimal digits hold no NUL.
proof fn lemma_dec_digits_no_nul(n: nat)
    ensures
        !has_nul(dec_digits(n)),
        forall|i: int| 0 <= i < dec_digits(n).len() ==> 48 <= #[trigger] dec_digits(n)[i] <= 57,
    decreases n,
{
    if n >= 10 {
        lemma_dec_digits_no_nul(n / 10);
    }
}

impl DecInt {
    /// The decimal form of `i`.
    pub fn new(i: i64) -> (r: DecInt)
        ensures
            r@ == dec_form(i),
            !has_nul(r@),
    {
        let mut digits: Vec<u8> = Vec::new();
        let magnitude: u64 = if i < 0 {
            digits.push(45u8);
            if i == i64::MIN {
                0x8000_0000_0000_0000u64
            } else {
                (-i) as u64
            }
        } else {
            i as u64
        };
        push_digits(magnitude, &mut digits);
        proof {
            lemma_dec_digits_no_nul(magnitude as nat);
            if i < 0 {
                assert(digits@ =~= seq![45u8] + dec_digits(magnitude as nat));
                assert(digits@[0] != 0);
                assert forall|k: int| 0 <= k < digits@.len() implies digits@[k] != 0 by {
                    if k > 0 {
                        assert(digits@[k] == dec_digits(magnitude as nat)[k - 1]);
                    }
                }
            } else {
                assert(digits@ =~= dec_digits(magnitude as nat));
            }
        }
        DecInt { digits }
    }

    /// The digits, with the sign where there is one.
    pub fn as_bytes(&self) -> (r: &[u8])
        ensures
            r@ == self@,
    {
        self.digits.as_slice()
    }
}

impl Arg for DecInt {
    open spec fn arg_bytes(&self) -> Seq<u8> {
        self@
    }

    fn as_str(&self) -> (r: Result<&str>) {
        match utf8_str(self.as_bytes()) {
            Some(s) => Ok(s),
            None => Err(Errno::Inval),
        }
    }

    fn to_string_lossy(&self) -> (r: Cow<'_, str>) {
        utf8_lossy(self.as_bytes())
    }

    fn as_cow_c_str(&self) -> (r: Result<CStrBuf>) {
        CStrBuf::new(self.as_bytes())
    }

    fn into_c_str(self) -> (r: Result<CStrBuf>) {
        CStrBuf::new(self.as_bytes())
    }

    fn as_maybe_utf8_bytes(&self) -> (r: &[u8]) {
        self.as_bytes()
    }

    fn into_with_c_str<T, F: FnOnce(&[u8]) -> Result<T>>(self, f: F) -> (r: Result<T>) {
        with_c_str(self.as_bytes(), f)
    }
}

/// Whether two conversions came out the same: both the same NUL-terminated
/// bytes, or both the same error.
pub open spec fn same_c_str(ra: Result<CStrBuf>, rb: Result<CStrBuf>) -> bool {
    match (ra, rb) {
        (Ok(x), Ok(y)) => x.spec_with_nul() == y.spec_with_nul(),
        (Err(x), Err(y)) => x == y,
        _ => false,
    }
}

/// A path converts to the same NUL-terminated bytes whichever type holds it:
/// a borrowed, owned or maybe-owned string, a byte slice or vector, or a
/// NUL-terminated string already, holding the same text give the same bytes, and any two
/// arguments with the same bytes convert alike.
pub proof fn lemma_conversion_ignores_representation<A: Arg, B: Arg>(
    s: &str,
    owned: String,
    bytes: &[u8],
    vec: Vec<u8>,
    c: CStrBuf,
    cow: Cow<'_, str>,
    a: A,
    b: B,
)
    requires
        owned@ == s@,
        cow@ == s@,
        bytes@ == s.spec_bytes(),
        vec@ == s.spec_bytes(),
        c@ == s.spec_bytes(),
        a.arg_bytes() == b.arg_bytes(),
    ensures
        s.arg_bytes() == owned.arg_bytes(),
        s.arg_bytes() == (&owned).arg_bytes(),
        s.arg_bytes() == bytes.arg_bytes(),
        s.arg_bytes() == vec.arg_bytes(),
        s.arg_bytes() == (&vec).arg_bytes(),
        s.arg_bytes() == c.arg_bytes(),
        s.arg_bytes() == (&c).arg_bytes(),
        s.arg_bytes() == cow.arg_bytes(),
        forall|ra: Result<CStrBuf>, rb: Result<CStrBuf>|
            converted_c_str(a.arg_bytes(), ra) && converted_c_str(b.arg_bytes(), rb) ==> same_c_str(
                ra,
                rb,
            ),
{
}

/// A path that holds a NUL byte is refused with `EINVAL`, by every
/// conversion. The continuation of `into_with_c_str` is not run: it need not
/// be callable on such a path at all.
pub proof fn lemma_interior_nul_rejected<A: Arg, T, F: FnOnce(&[u8]) -> Result<T>>(a: A, f: F)
    requires
        has_nul(a.arg_bytes()),
    ensures
        forall|r: Result<CStrBuf>| converted_c_str(a.arg_bytes(), r) ==> r == Err::<CStrBuf, Errno>(Errno::Inval),
        forall|r: Result<T>| ran_on_c_str(a.arg_bytes(), f, r) ==> r == Err::<T, Errno>(Errno::Inval),
{
}

/// The stack buffer is an optimisation only: a path one byte shorter than
/// `INLINE_PATH_LEN`, which is terminated on the stack, and one of that length
/// or longer, which is terminated on the heap, both reach the continuation as
/// their bytes followed by one NUL.
pub proof fn lemma_inline_threshold_invisible<T, F: FnOnce(&[u8]) -> Result<T>>(
    bytes: Seq<u8>,
    f: F,
    r: Result<T>,
)
    requires
        bytes.len() == INLINE_PATH_LEN - 1 || bytes.len() == INLINE_PATH_LEN,
        !has_nul(bytes),
        ran_on_c_str(bytes, f, r),
    ensures
        exists|s: &[u8]| s@ == bytes.push(0) && s@.len() == bytes.len() + 1 && #[trigger] f.ensures((s,), r),
{
}

} // verus!
