//! Key bytes in guarded memory.
//!
//! The bytes of a key never sit in ordinary memory: they are moved into a
//! `SecretVec`, which keeps them in locked pages that cannot be read or
//! written outside a borrow and that are wiped when the value is dropped.
//! This module gives that type the contracts the rest of the library is
//! proved against.

use vstd::prelude::*;
use base64ct::Encoding;

verus! {

/// The bytes of one key, held in a `secrets::SecretVec<u8>`.
#[verifier::external_body]
#[derive(Debug)]
pub struct SecretBytes {
    guarded: secrets::SecretVec<u8>,
}

/// The bytes that a `SecretBytes` guards.
pub uninterp spec fn secret_bytes(s: SecretBytes) -> Seq<u8>;

impl View for SecretBytes {
    type V = Seq<u8>;

    open spec fn view(&self) -> Seq<u8> {
        secret_bytes(*self)
    }
}

/// `f` may be called with any slice that holds `bytes`.
pub open spec fn can_read<R, F: FnOnce(&[u8]) -> R>(bytes: Seq<u8>, f: F) -> bool {
    forall|slice: &[u8]| slice@ == bytes ==> f.requires((slice,))
}

/// `r` is what `f` returns for some slice that holds `bytes`.
pub open spec fn is_read<R, F: FnOnce(&[u8]) -> R>(bytes: Seq<u8>, f: F, r: R) -> bool {
    exists|slice: &[u8]| slice@ == bytes && f.ensures((slice,), r)
}

impl SecretBytes {
    /// Moves the bytes of `data` into guarded memory; `data` is left with
    /// zeros in their place.
    pub fn take(data: &mut Vec<u8>) -> (s: SecretBytes)
        ensures
            s@ == old(data)@,
            final(data)@ == zeros(old(data)@.len()),
    {
        secret_from(data)
    }

    /// The number of guarded bytes.
    pub fn len(&self) -> (n: usize)
        ensures
            n == self@.len(),
    {
        secret_len(self)
    }

    /// The bytes written as lower-case hexadecimal digits, in guarded memory
    /// of their own; `None` for a key so long that twice its length cannot
    /// be counted.
    pub fn to_hex(&self) -> (r: Option<SecretBytes>)
        ensures
            match r {
                Some(hex) => hex@ == hex_digits(self@),
                None => 2 * self@.len() > usize::MAX,
            },
    {
        let len = self.len();
        if len > usize::MAX / 2 {
            return None;
        }
        Some(secret_hex(self, 2 * len))
    }

    /// Lets `f` read the bytes: the memory is open for reading while `f`
    /// runs and closed again when `f` has returned.
    pub fn read<R, F: FnOnce(&[u8]) -> R>(&self, f: F) -> (r: R)
        requires
            can_read(self@, f),
        ensures
            is_read(self@, f, r),
    {
        secret_read(self, f)
    }
}

/// `SecretVec::borrow`, for as long as `f` runs: `f` is called once, with the
/// guarded bytes, and what it returns is handed on.
#[verifier::external_body]
pub(crate) fn secret_read<R, F: FnOnce(&[u8]) -> R>(s: &SecretBytes, f: F) -> (r: R)
    requires
        can_read(secret_bytes(*s), f),
    ensures
        is_read(secret_bytes(*s), f, r),
{
    f(&s.guarded.borrow())
}

/// The character, as a byte, that writes the hexadecimal digit `d`.
pub open spec fn hex_digit(d: int) -> u8 {
    if d < 10 {
        (0x30 + d) as u8
    } else {
        (0x61 + d - 10) as u8
    }
}

/// Two lower-case hexadecimal digits for each of `bytes`, the higher one
/// first.
pub open spec fn hex_digits(bytes: Seq<u8>) -> Seq<u8> {
    Seq::new(
        2 * bytes.len(),
        |i: int|
            if i % 2 == 0 {
                hex_digit(bytes[i / 2] as int / 16)
            } else {
                hex_digit(bytes[i / 2] as int % 16)
            },
    )
}

/// `hex::encode_to_slice` from one guarded allocation into a new one of
/// `doubled` bytes, the source read inside one borrow and the target filled
/// by the callback of `SecretVec::new`. A target of exactly twice the size
/// of the source is never refused.
#[verifier::external_body]
pub(crate) fn secret_hex(s: &SecretBytes, doubled: usize) -> (hex: SecretBytes)
    requires
        doubled == 2 * secret_bytes(*s).len(),
    ensures
        secret_bytes(hex) == hex_digits(secret_bytes(*s)),
{
    let source = s.guarded.borrow();
    SecretBytes {
        guarded: secrets::SecretVec::new(doubled, |target| {
            hex::encode_to_slice(&*source, target).unwrap_or_default()
        }),
    }
}

/// What `Base64::decode_in_place` makes of a text in the standard alphabet
/// with padding: the bytes it decodes to, or `None` where it refuses the
/// text.
pub uninterp spec fn base64_decoded(encoded: Seq<u8>) -> Option<Seq<u8>>;

/// `n` zero bytes.
pub open spec fn zeros(n: nat) -> Seq<u8> {
    Seq::new(n, |i: int| 0u8)
}

/// `SecretVec::from(&mut [u8])`: moves the bytes of `data` into guarded memory
/// and overwrites `data` with zeros, so that no copy stays behind.
#[verifier::external_body]
pub(crate) fn secret_from(data: &mut Vec<u8>) -> (s: SecretBytes)
    ensures
        secret_bytes(s) == old(data)@,
        final(data)@ == zeros(old(data)@.len()),
{
    SecretBytes { guarded: secrets::SecretVec::from(data.as_mut_slice()) }
}

/// `SecretVec::len`: the number of guarded bytes.
#[verifier::external_body]
pub(crate) fn secret_len(s: &SecretBytes) -> (n: usize)
    ensures
        n == secret_bytes(*s).len(),
{
    s.guarded.len()
}

/// `Base64::decode_in_place` on the guarded bytes, inside one mutable borrow.
///
/// Valid text is replaced, from the start of the memory, by what it decodes
/// to, and the number of decoded bytes is returned; they are never more than
/// the text had. Invalid text gives `None`. The memory keeps its size either
/// way, and nothing is said of the bytes behind the decoded ones.
#[verifier::external_body]
pub(crate) fn secret_decode_base64(s: &mut SecretBytes) -> (r: Option<usize>)
    ensures
        secret_bytes(*final(s)).len() == secret_bytes(*old(s)).len(),
        match base64_decoded(secret_bytes(*old(s))) {
            Some(decoded) => {
                &&& r matches Some(n) && n == decoded.len()
                &&& decoded.len() <= secret_bytes(*old(s)).len()
                &&& secret_bytes(*final(s)).subrange(0, decoded.len() as int) == decoded
            },
            None => r is None,
        },
{
    let mut text = s.guarded.borrow_mut();
    base64ct::Base64::decode_in_place(&mut text).ok().map(|decoded| decoded.len())
}

/// `SecretVec::new` with a callback that copies the first `len` bytes of `s`,
/// read inside one borrow: a new guarded allocation of exactly `len` bytes.
#[verifier::external_body]
pub(crate) fn secret_prefix(s: &SecretBytes, len: usize) -> (p: SecretBytes)
    requires
        len <= secret_bytes(*s).len(),
    ensures
        secret_bytes(p) == secret_bytes(*s).subrange(0, len as int),
{
    let source = s.guarded.borrow();
    SecretBytes {
        guarded: secrets::SecretVec::new(len, |target| target.copy_from_slice(&source[..len])),
    }
}

} // verus!
