//! Paths as the operating system wants them: bytes that end in a nul byte
//! and hold no other.

use vstd::prelude::*;
use vstd::slice::slice_to_vec;
use vstd::string::StringSliceAdditionalSpecFns;
use crate::error::Error;

verus! {

/// Whether `bytes` are an OS-native string: they end in a nul byte, and
/// that is their only one.
pub open spec fn nul_terminated(bytes: Seq<u8>) -> bool {
    &&& bytes.len() > 0
    &&& bytes.last() == 0
    &&& forall|i: int| 0 <= i < bytes.len() - 1 ==> bytes[i] != 0
}

/// Whether `bytes` can become an OS-native string: a nul byte stands at the
/// end or nowhere.
pub open spec fn convertible(bytes: Seq<u8>) -> bool {
    forall|i: int| 0 <= i < bytes.len() - 1 ==> bytes[i] != 0
}

/// `bytes` with a nul byte at the end: their own if they end in one, else
/// an added one.
pub open spec fn terminated(bytes: Seq<u8>) -> Seq<u8> {
    if bytes.len() > 0 && bytes.last() == 0 {
        bytes
    } else {
        bytes.push(0u8)
    }
}

/// Converting leaves an OS-native string as it is, and makes one of
/// whatever is convertible.
pub proof fn lemma_terminated(bytes: Seq<u8>)
    requires
        convertible(bytes),
    ensures
        nul_terminated(terminated(bytes)),
        nul_terminated(bytes) ==> terminated(bytes) == bytes,
        terminated(terminated(bytes)) == terminated(bytes),
{
}

/// Borrowed allocation of an OS-native string.
#[derive(Debug, Clone, Copy)]
pub struct OsStr<'str> {
    bytes: &'str [u8],
}

/// Owned allocation of an OS-native string.
#[derive(Debug)]
pub struct OsString {
    bytes: Vec<u8>,
}

/// Either borrowed or owned allocation of an OS-native string.
#[derive(Debug)]
pub enum EitherOsStr<'str> {
    /// Borrowed allocation.
    Borrowed(OsStr<'str>),
    /// Owned allocation.
    Owned(OsString),
}

impl<'str> View for OsStr<'str> {
    type V = Seq<u8>;

    /// The bytes, the nul byte at the end included.
    closed spec fn view(&self) -> Seq<u8> {
        self.bytes@
    }
}

impl View for OsString {
    type V = Seq<u8>;

    /// The bytes, the nul byte at the end included.
    closed spec fn view(&self) -> Seq<u8> {
        self.bytes@
    }
}

impl<'str> View for EitherOsStr<'str> {
    type V = Seq<u8>;

    /// The bytes, the nul byte at the end included.
    open spec fn view(&self) -> Seq<u8> {
        match self {
            EitherOsStr::Borrowed(str) => str@,
            EitherOsStr::Owned(string) => string@,
        }
    }
}

impl<'str> OsStr<'str> {
    #[verifier::type_invariant]
    spec fn well_formed(&self) -> bool {
        nul_terminated(self.bytes@)
    }

    /// The bytes to hand to the system, the nul byte at the end included.
    pub fn as_bytes(&self) -> (bytes: &'str [u8])
        ensures
            bytes@ == self@,
            nul_terminated(bytes@),
    {
        proof {
            use_type_invariant(self);
        }
        self.bytes
    }
}

impl OsString {
    #[verifier::type_invariant]
    spec fn well_formed(&self) -> bool {
        nul_terminated(self.bytes@)
    }

    /// This string, borrowed.
    pub fn as_ref(&self) -> (str: OsStr<'_>)
        ensures
            str@ == self@,
            nul_terminated(str@),
    {
        proof {
            use_type_invariant(self);
        }
        OsStr { bytes: self.bytes.as_slice() }
    }

    /// The bytes to hand to the system, the nul byte at the end included.
    pub fn as_bytes(&self) -> (bytes: &[u8])
        ensures
            bytes@ == self@,
            nul_terminated(bytes@),
    {
        proof {
            use_type_invariant(self);
        }
        self.bytes.as_slice()
    }
}

impl Clone for OsString {
    fn clone(&self) -> (copy: Self)
        ensures
            copy@ == self@,
    {
        proof {
            use_type_invariant(self);
        }
        OsString { bytes: slice_to_vec(self.bytes.as_slice()) }
    }
}

impl<'str> EitherOsStr<'str> {
    /// This string, borrowed.
    pub fn as_ref(&self) -> (str: OsStr<'_>)
        ensures
            str@ == self@,
            nul_terminated(str@),
    {
        match self {
            EitherOsStr::Borrowed(str) => {
                proof {
                    use_type_invariant(str);
                }
                *str
            },
            EitherOsStr::Owned(string) => string.as_ref(),
        }
    }
}

/// Whether `slice` can become an OS-native string: whether a nul byte
/// stands at the end or nowhere.
pub fn is_convertible(slice: &[u8]) -> (fit: bool)
    ensures
        fit == convertible(slice@),
{
    let len = slice.len();
    if len == 0 {
        return true;
    }
    let mut i: usize = 0;
    while i < len - 1
        invariant
            len == slice.len(),
            len > 0,
            forall|k: int| 0 <= k < i ==> slice@[k] != 0,
        decreases len - i,
    {
        if slice[i] == 0 {
            return false;
        }
        i += 1;
    }
    true
}

/// Makes an OS-native string of a path. The path must not contain a nul
/// byte in the middle, but a nul byte in the end (and only in the end) is
/// allowed, in which case the path is borrowed as it is. Otherwise a copy
/// with a nul byte at its end is made. This never fails.
pub fn make_os_str(slice: &[u8]) -> (str: Result<EitherOsStr<'_>, Error>)
    requires
        convertible(slice@),
    ensures
        str matches Ok(either) && either@ == terminated(slice@) && nul_terminated(either@) && (
        either is Borrowed <==> nul_terminated(slice@)),
{
    let len = slice.len();
    if len > 0 && slice[len - 1] == 0 {
        Ok(EitherOsStr::Borrowed(OsStr { bytes: slice }))
    } else {
        let mut bytes = slice_to_vec(slice);
        bytes.push(0u8);
        Ok(EitherOsStr::Owned(OsString { bytes }))
    }
}

/// Conversion of anything to an either borrowed or owned OS-native string.
pub trait ToOsStr {
    /// The bytes that the value stands for, with or without a nul byte at
    /// their end.
    spec fn path_bytes(&self) -> Seq<u8>;

    /// Whether the value can be converted: whether it holds no nul byte but
    /// at its end.
    fn is_path(&self) -> (fit: bool)
        ensures
            fit == convertible(self.path_bytes()),
    ;

    /// Converts. The value must hold no nul byte but at its end; then this
    /// never fails.
    fn to_os_str(&self) -> (str: Result<EitherOsStr<'_>, Error>)
        requires
            convertible(self.path_bytes()),
        ensures
            str matches Ok(either) && either@ == terminated(self.path_bytes()) && nul_terminated(
                either@,
            ),
    ;
}

/// Conversion of anything into an owned OS-native string.
pub trait IntoOsString: Sized {
    /// The bytes that the value stands for, with or without a nul byte at
    /// their end.
    spec fn owned_bytes(&self) -> Seq<u8>;

    /// Whether the value can be converted: whether it holds no nul byte but
    /// at its end.
    fn is_owned_path(&self) -> (fit: bool)
        ensures
            fit == convertible(self.owned_bytes()),
    ;

    /// Converts. The value must hold no nul byte but at its end; then this
    /// never fails.
    fn into_os_string(self) -> (string: Result<OsString, Error>)
        requires
            convertible(self.owned_bytes()),
        ensures
            string matches Ok(owned) && owned@ == terminated(self.owned_bytes()) && nul_terminated(
                owned@,
            ),
    ;
}

impl ToOsStr for str {
    open spec fn path_bytes(&self) -> Seq<u8> {
        self.spec_bytes()
    }

    fn is_path(&self) -> (fit: bool) {
        is_convertible(self.as_bytes())
    }

    fn to_os_str(&self) -> (str: Result<EitherOsStr<'_>, Error>) {
        make_os_str(self.as_bytes())
    }
}

impl ToOsStr for String {
    open spec fn path_bytes(&self) -> Seq<u8> {
        vstd::utf8::encode_utf8(self@)
    }

    fn is_path(&self) -> (fit: bool) {
        is_convertible(self.as_str().as_bytes())
    }

    fn to_os_str(&self) -> (str: Result<EitherOsStr<'_>, Error>) {
        make_os_str(self.as_str().as_bytes())
    }
}

impl<'str> ToOsStr for OsStr<'str> {
    open spec fn path_bytes(&self) -> Seq<u8> {
        self@
    }

    fn is_path(&self) -> (fit: bool) {
        proof {
            use_type_invariant(self);
        }
        true
    }

    fn to_os_str(&self) -> (str: Result<EitherOsStr<'_>, Error>) {
        proof {
            use_type_invariant(self);
        }
        Ok(EitherOsStr::Borrowed(*self))
    }
}

impl ToOsStr for OsString {
    open spec fn path_bytes(&self) -> Seq<u8> {
        self@
    }

    fn is_path(&self) -> (fit: bool) {
        proof {
            use_type_invariant(self);
        }
        true
    }

    fn to_os_str(&self) -> (str: Result<EitherOsStr<'_>, Error>) {
        Ok(EitherOsStr::Borrowed(self.as_ref()))
    }
}

impl<'str> ToOsStr for EitherOsStr<'str> {
    open spec fn path_bytes(&self) -> Seq<u8> {
        self@
    }

    fn is_path(&self) -> (fit: bool) {
        let str = self.as_ref();
        true
    }

    fn to_os_str(&self) -> (str: Result<EitherOsStr<'_>, Error>) {
        Ok(EitherOsStr::Borrowed(self.as_ref()))
    }
}

impl<'str> IntoOsString for OsStr<'str> {
    open spec fn owned_bytes(&self) -> Seq<u8> {
        self@
    }

    fn is_owned_path(&self) -> (fit: bool) {
        proof {
            use_type_invariant(self);
        }
        true
    }

    fn into_os_string(self) -> (string: Result<OsString, Error>) {
        proof {
            use_type_invariant(self);
        }
        Ok(OsString { bytes: slice_to_vec(self.bytes) })
    }
}

impl IntoOsString for OsString {
    open spec fn owned_bytes(&self) -> Seq<u8> {
        self@
    }

    fn is_owned_path(&self) -> (fit: bool) {
        proof {
            use_type_invariant(self);
        }
        true
    }

    fn into_os_string(self) -> (string: Result<OsString, Error>) {
        proof {
            use_type_invariant(&self);
        }
        Ok(self)
    }
}

impl<'str> IntoOsString for EitherOsStr<'str> {
    open spec fn owned_bytes(&self) -> Seq<u8> {
        self@
    }

    fn is_owned_path(&self) -> (fit: bool) {
        let str = self.as_ref();
        true
    }

    fn into_os_string(self) -> (string: Result<OsString, Error>) {
        match self {
            EitherOsStr::Borrowed(str) => str.into_os_string(),
            EitherOsStr::Owned(string) => string.into_os_string(),
        }
    }
}

impl<'str> IntoOsString for &'str str {
    open spec fn owned_bytes(&self) -> Seq<u8> {
        self.spec_bytes()
    }

    fn is_owned_path(&self) -> (fit: bool) {
        is_convertible(self.as_bytes())
    }

    fn into_os_string(self) -> (string: Result<OsString, Error>) {
        match make_os_str(self.as_bytes()) {
            Ok(either) => either.into_os_string(),
            Err(error) => Err(error),
        }
    }
}

impl IntoOsString for String {
    open spec fn owned_bytes(&self) -> Seq<u8> {
        vstd::utf8::encode_utf8(self@)
    }

    fn is_owned_path(&self) -> (fit: bool) {
        is_convertible(self.as_str().as_bytes())
    }

    fn into_os_string(self) -> (string: Result<OsString, Error>) {
        match make_os_str(self.as_str().as_bytes()) {
            Ok(either) => either.into_os_string(),
            Err(error) => Err(error),
        }
    }
}

} // verus!
