//! Text at the driver boundary.
//!
//! The driver takes names as null-terminated byte strings and writes text
//! into buffers that the caller allocates. This module holds the two things
//! that every other module builds on: names that are known to hold no null,
//! and the decoding of bytes as UTF-8.

use vstd::prelude::*;
use vstd::slice::slice_to_vec;
use vstd::utf8::{decode_utf8, encode_utf8, valid_utf8};

verus! {

/// The position of the first null among `bytes`, or their number where none
/// of them is null.
pub open spec fn nul_position(bytes: Seq<u8>) -> int
    decreases bytes.len(),
{
    if bytes.len() == 0 || bytes[0] == 0 {
        0
    } else {
        1 + nul_position(bytes.drop_first())
    }
}

/// Whether one of `bytes` is null.
pub open spec fn has_nul(bytes: Seq<u8>) -> bool {
    nul_position(bytes) < bytes.len()
}

/// The bytes in front of the first null.
pub open spec fn until_nul(bytes: Seq<u8>) -> Seq<u8> {
    bytes.take(nul_position(bytes))
}

/// What `nul_position` is: no byte in front of it is null, and the byte at
/// it, if there is one, is.
pub proof fn lemma_nul_position(bytes: Seq<u8>)
    ensures
        0 <= nul_position(bytes) <= bytes.len(),
        forall|i: int| 0 <= i < nul_position(bytes) ==> bytes[i] != 0,
        has_nul(bytes) ==> bytes[nul_position(bytes)] == 0,
        !has_nul(bytes) <==> (forall|i: int| 0 <= i < bytes.len() ==> bytes[i] != 0),
    decreases bytes.len(),
{
    if bytes.len() == 0 || bytes[0] == 0 {
    } else {
        let rest = bytes.drop_first();
        lemma_nul_position(rest);
        assert forall|i: int| 0 <= i < nul_position(bytes) implies bytes[i] != 0 by {
            if i > 0 {
                assert(bytes[i] == rest[i - 1]);
            }
        }
        if has_nul(bytes) {
            assert(bytes[nul_position(bytes)] == rest[nul_position(rest)]);
        }
    }
    if has_nul(bytes) {
        assert(bytes[nul_position(bytes)] == 0);
    }
}

/// A position with no null in front of it that holds a null, or is the end,
/// is the position of the first null.
pub proof fn lemma_nul_position_is(bytes: Seq<u8>, n: int)
    requires
        0 <= n <= bytes.len(),
        forall|i: int| 0 <= i < n ==> bytes[i] != 0,
        n < bytes.len() ==> bytes[n] == 0,
    ensures
        nul_position(bytes) == n,
{
    lemma_nul_position(bytes);
    let m = nul_position(bytes);
    if m < n {
        assert(bytes[m] == 0);
    } else if n < m {
        assert(bytes[n] != 0);
    }
}

/// Finds the first null among `bytes`.
pub fn find_nul(bytes: &Vec<u8>) -> (found: Option<usize>)
    ensures
        found is Some <==> has_nul(bytes@),
        found is Some ==> found->Some_0 == nul_position(bytes@),
{
    let mut i: usize = 0;
    while i < bytes.len()
        invariant
            i <= bytes.len(),
            forall|k: int| 0 <= k < i ==> bytes@[k] != 0,
        decreases bytes.len() - i,
    {
        if bytes[i] == 0 {
            proof {
                lemma_nul_position_is(bytes@, i as int);
            }
            return Some(i);
        }
        i += 1;
    }
    proof {
        lemma_nul_position_is(bytes@, i as int);
    }
    None
}

/// Why bytes were refused as a name: one of them is null.
#[derive(Debug, PartialEq, Eq)]
pub struct NulError {
    position: usize,
    bytes: Vec<u8>,
}

impl NulError {
    /// The bytes that were refused.
    pub closed spec fn bytes(&self) -> Seq<u8> {
        self.bytes@
    }

    /// The position of the first null among them.
    pub closed spec fn position(&self) -> int {
        self.position as int
    }

    /// The position of the first null among the refused bytes.
    pub fn nul_position(&self) -> (position: usize)
        ensures
            position == self.position(),
    {
        self.position
    }

    /// Gives back the bytes that were refused.
    pub fn into_vec(self) -> (bytes: Vec<u8>)
        ensures
            bytes@ == self.bytes(),
    {
        self.bytes
    }
}

/// A name as the driver takes it: bytes none of which is null, so that a
/// terminating null can follow them.
#[derive(Debug, PartialEq, Eq)]
pub struct CName {
    bytes: Vec<u8>,
}

impl View for CName {
    type V = Seq<u8>;

    closed spec fn view(&self) -> Seq<u8> {
        self.bytes@
    }
}

impl CName {
    #[verifier::type_invariant]
    spec fn holds_no_nul(self) -> bool {
        !has_nul(self.bytes@)
    }

    /// Accepts `bytes` as a name if none of them is null, and otherwise
    /// hands them back with the position of the first null.
    pub fn new(bytes: Vec<u8>) -> (r: Result<CName, NulError>)
        ensures
            r is Ok <==> !has_nul(bytes@),
            r is Ok ==> r->Ok_0@ == bytes@,
            r is Err ==> r->Err_0.bytes() == bytes@ && r->Err_0.position() == nul_position(bytes@),
    {
        match find_nul(&bytes) {
            Some(position) => Err(NulError { position, bytes }),
            None => Ok(CName { bytes }),
        }
    }

    /// Accepts the UTF-8 encoding of `text` as a name, as `new` does bytes.
    pub fn from_text(text: &str) -> (r: Result<CName, NulError>)
        ensures
            r is Ok <==> !has_nul(encode_utf8(text@)),
            r is Ok ==> r->Ok_0@ == encode_utf8(text@),
            r is Err ==> r->Err_0.bytes() == encode_utf8(text@) && r->Err_0.position()
                == nul_position(encode_utf8(text@)),
    {
        CName::new(slice_to_vec(text.as_bytes()))
    }

    /// The name of no length.
    pub fn empty() -> (name: CName)
        ensures
            name@ == Seq::<u8>::empty(),
    {
        CName { bytes: Vec::new() }
    }

    /// The bytes of the name, without a terminating null.
    pub fn as_bytes(&self) -> (bytes: &Vec<u8>)
        ensures
            bytes@ == self@,
            !has_nul(bytes@),
    {
        proof {
            use_type_invariant(self);
        }
        &self.bytes
    }

    /// The bytes of the name, without a terminating null.
    pub fn into_bytes(self) -> (bytes: Vec<u8>)
        ensures
            bytes@ == self@,
            !has_nul(bytes@),
    {
        proof {
            use_type_invariant(&self);
        }
        self.bytes
    }
}

impl Clone for CName {
    fn clone(&self) -> (name: CName)
        ensures
            name@ == self@,
    {
        proof {
            use_type_invariant(self);
        }
        CName { bytes: self.bytes.clone() }
    }
}

/// The error with which `String::from_utf8` refuses bytes that are not UTF-8.
#[verifier::external_type_specification]
#[verifier::external_body]
pub struct ExFromUtf8Error(std::string::FromUtf8Error);

/// `String::from_utf8`: succeeds exactly on well-formed UTF-8, and the string
/// it then returns holds the characters that the bytes encode.
#[verifier::external_body]
pub(crate) fn string_from_utf8(bytes: Vec<u8>) -> (r: Result<String, std::string::FromUtf8Error>)
    ensures
        r is Ok <==> valid_utf8(bytes@),
        r is Ok ==> r->Ok_0@ == decode_utf8(bytes@),
{
    String::from_utf8(bytes)
}

} // verus!
