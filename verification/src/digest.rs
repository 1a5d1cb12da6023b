//! The digest that identifies an object: the SHA-256 of its bytes, written
//! in lower-case hexadecimal. The hash is that of the `sha2` crate and the
//! writing that of the `hex` crate; what this module says of them is
//! assumed, not proved.

use vstd::prelude::*;

verus! {

/// A running SHA-256: a `sha2::Sha256`, which has taken in some bytes.
#[verifier::external_body]
pub struct Sha256 {
    inner: ::sha2::Sha256,
}

/// The bytes that a running hash has taken in.
pub uninterp spec fn hashed(h: Sha256) -> Seq<u8>;

/// The SHA-256 of `bytes`.
pub uninterp spec fn sha256(bytes: Seq<u8>) -> Seq<u8>;

/// The character of one hexadecimal digit, in lower case.
pub open spec fn hex_digit(d: int) -> char {
    if d == 0 {
        '0'
    } else if d == 1 {
        '1'
    } else if d == 2 {
        '2'
    } else if d == 3 {
        '3'
    } else if d == 4 {
        '4'
    } else if d == 5 {
        '5'
    } else if d == 6 {
        '6'
    } else if d == 7 {
        '7'
    } else if d == 8 {
        '8'
    } else if d == 9 {
        '9'
    } else if d == 10 {
        'a'
    } else if d == 11 {
        'b'
    } else if d == 12 {
        'c'
    } else if d == 13 {
        'd'
    } else if d == 14 {
        'e'
    } else {
        'f'
    }
}

/// `bytes` in hexadecimal: two digits for each byte, the high one first.
pub open spec fn hex_of(bytes: Seq<u8>) -> Seq<char> {
    Seq::new(
        2 * bytes.len(),
        |i: int|
            if i % 2 == 0 {
                hex_digit(bytes[i / 2] as int / 16)
            } else {
                hex_digit(bytes[i / 2] as int % 16)
            },
    )
}

impl Sha256 {
    /// `Digest::new`: a hash that has taken in nothing.
    #[verifier::external_body]
    pub(crate) fn new() -> (r: Sha256)
        ensures
            hashed(r) == Seq::<u8>::empty(),
    {
        Sha256 { inner: <::sha2::Sha256 as ::sha2::Digest>::new() }
    }

    /// `Digest::update`: the hash takes in `data` after what it has.
    #[verifier::external_body]
    pub(crate) fn update(&mut self, data: &[u8])
        ensures
            hashed(*final(self)) == hashed(*old(self)) + data@,
    {
        ::sha2::Digest::update(&mut self.inner, data)
    }

    /// `Digest::finalize`: the SHA-256 of what the hash has taken in.
    #[verifier::external_body]
    pub(crate) fn finalize(self) -> (r: Vec<u8>)
        ensures
            r@ == sha256(hashed(self)),
    {
        ::sha2::Digest::finalize(self.inner).to_vec()
    }
}

/// `hex::encode`: `bytes` in lower-case hexadecimal.
#[verifier::external_body]
pub(crate) fn hex_encode(bytes: &[u8]) -> (r: String)
    ensures
        r@ == hex_of(bytes@),
{
    ::hex::encode(bytes)
}

/// The identifier of the object with the bytes `bytes`.
pub open spec fn oid_of(bytes: Seq<u8>) -> Seq<char> {
    hex_of(sha256(bytes))
}

/// The digest of an object, taken while the bytes of the object go by.
pub struct Digest {
    hasher: Sha256,
}

impl Digest {
    /// The bytes that went by.
    pub closed spec fn bytes(&self) -> Seq<u8> {
        hashed(self.hasher)
    }

    /// A digest before any byte.
    pub fn new() -> (r: Digest)
        ensures
            r.bytes() == Seq::<u8>::empty(),
    {
        Digest { hasher: Sha256::new() }
    }

    /// Takes in the next bytes of the object.
    pub fn update(&mut self, data: &[u8])
        ensures
            final(self).bytes() == old(self).bytes() + data@,
    {
        self.hasher.update(data)
    }

    /// The identifier of the bytes that went by.
    pub fn oid(self) -> (r: String)
        ensures
            r@ == oid_of(self.bytes()),
    {
        let digest = self.hasher.finalize();
        hex_encode(digest.as_slice())
    }
}

} // verus!
