//! Checking a finished file against the digest it is expected to have. The file
//! is read in chunks by the caller and fed to a [`ChecksumVerifier`], so it never
//! needs to fit in memory.
use vstd::prelude::*;

use crate::download::Checksum;
use crate::text::chars_of;

verus! {

/// The SHA-1 digest of a byte sequence, as the `sha1` crate computes it.
pub uninterp spec fn sha1_digest(data: Seq<u8>) -> Seq<u8>;

/// A SHA-1 computation in progress. The hasher state is private to the functions
/// below, and is known only through the bytes it has taken in.
#[verifier::external_body]
pub struct Sha1Hasher {
    inner: sha1::Sha1,
}

/// The bytes that a hasher has taken in so far.
pub uninterp spec fn hashed_input(h: Sha1Hasher) -> Seq<u8>;

/// Relies on `sha1::Sha1::new` (through `Digest`): a hasher that has taken in nothing.
#[verifier::external_body]
fn sha1_start() -> (r: Sha1Hasher)
    ensures
        hashed_input(r) == Seq::<u8>::empty(),
{
    Sha1Hasher { inner: <sha1::Sha1 as sha1::Digest>::new() }
}

/// Relies on `sha1::Sha1::update` (through `Digest`): the hasher takes in `data`
/// after what it already has.
#[verifier::external_body]
fn sha1_update(h: &mut Sha1Hasher, data: &[u8])
    ensures
        hashed_input(*final(h)) == hashed_input(*old(h)) + data@,
{
    sha1::Digest::update(&mut h.inner, data)
}

/// Relies on `sha1::Sha1::finalize` (through `Digest`): the digest of everything
/// that the hasher took in.
#[verifier::external_body]
fn sha1_finish(h: Sha1Hasher) -> (r: Vec<u8>)
    ensures
        r@ == sha1_digest(hashed_input(h)),
{
    sha1::Digest::finalize(h.inner).to_vec()
}

/// The lower-case hexadecimal digits, by value.
pub open spec fn hex_digits() -> Seq<char> {
    seq!['0', '1', '2', '3', '4', '5', '6', '7', '8', '9', 'a', 'b', 'c', 'd', 'e', 'f']
}

/// `bytes` in lower-case hexadecimal, two digits a byte, high half first.
pub open spec fn lower_hex(bytes: Seq<u8>) -> Seq<char>
    decreases bytes.len(),
{
    if bytes.len() == 0 {
        seq![]
    } else {
        seq![hex_digits()[bytes[0] as int / 16], hex_digits()[bytes[0] as int % 16]] + lower_hex(
            bytes.drop_first(),
        )
    }
}

/// The code of a character once an ASCII capital is made small.
pub open spec fn folded_code(c: char) -> u32 {
    if 'A' <= c && c <= 'Z' {
        (c as u32 + 32) as u32
    } else {
        c as u32
    }
}

/// Two texts that differ at most in the case of ASCII letters.
pub open spec fn equal_ignoring_ascii_case(a: Seq<char>, b: Seq<char>) -> bool {
    a.len() == b.len() && forall|i: int| 0 <= i < a.len() ==> folded_code(a[i]) == folded_code(b[i])
}

/// Whether `digest`, written in hexadecimal, is the `expected` text, in either case.
pub open spec fn digest_matches(expected: Seq<char>, digest: Seq<u8>) -> bool {
    equal_ignoring_ascii_case(lower_hex(digest), expected)
}

/// The digest text that a checksum expects.
pub open spec fn expected_text(c: Checksum) -> Seq<char> {
    match c {
        Checksum::Sha1(hex) => hex@,
    }
}

fn folded(c: char) -> (r: u32)
    ensures
        r == folded_code(c),
{
    if 'A' <= c && c <= 'Z' {
        c as u32 + 32
    } else {
        c as u32
    }
}

/// `bytes` in lower-case hexadecimal.
pub fn to_lower_hex(bytes: &[u8]) -> (r: Vec<char>)
    ensures
        r@ == lower_hex(bytes@),
{
    let table: [char; 16] = [
        '0', '1', '2', '3', '4', '5', '6', '7', '8', '9', 'a', 'b', 'c', 'd', 'e', 'f',
    ];
    assert(table@ =~= hex_digits());
    let mut r: Vec<char> = Vec::new();
    let mut i: usize = 0;
    assert(bytes@.subrange(0, bytes@.len() as int) =~= bytes@);
    assert(r@ + lower_hex(bytes@) =~= lower_hex(bytes@));
    while i < bytes.len()
        invariant
            i <= bytes@.len(),
            table@ == hex_digits(),
            lower_hex(bytes@) == r@ + lower_hex(bytes@.subrange(i as int, bytes@.len() as int)),
        decreases bytes@.len() - i,
    {
        let b = bytes[i];
        let ghost tail = bytes@.subrange(i as int, bytes@.len() as int);
        assert(tail.drop_first() =~= bytes@.subrange(i + 1, bytes@.len() as int));
        r.push(table[(b / 16) as usize]);
        r.push(table[(b % 16) as usize]);
        i = i + 1;
        proof {
            assert(r@ + lower_hex(bytes@.subrange(i as int, bytes@.len() as int)) =~= (r@.subrange(
                0,
                r@.len() - 2,
            ) + seq![table@[b as int / 16], table@[b as int % 16]]) + lower_hex(tail.drop_first()));
        }
    }
    assert(bytes@.subrange(i as int, bytes@.len() as int) =~= Seq::<u8>::empty());
    assert(r@ + lower_hex(Seq::<u8>::empty()) =~= r@);
    r
}

impl Checksum {
    /// Whether a computed `digest` is the one this checksum expects; the hexadecimal
    /// texts are compared without regard to case.
    pub fn matches_digest(&self, digest: &[u8]) -> (r: bool)
        ensures
            r == digest_matches(expected_text(*self), digest@),
    {
        let actual = to_lower_hex(digest);
        let expected = match self {
            Checksum::Sha1(hex) => chars_of(hex.as_str()),
        };
        if actual.len() != expected.len() {
            return false;
        }
        let mut i: usize = 0;
        while i < actual.len()
            invariant
                i <= actual@.len(),
                actual@.len() == expected@.len(),
                actual@ == lower_hex(digest@),
                expected@ == expected_text(*self),
                forall|j: int| 0 <= j < i ==> folded_code(actual@[j]) == folded_code(expected@[j]),
            decreases actual@.len() - i,
        {
            if folded(actual[i]) != folded(expected[i]) {
                assert(!equal_ignoring_ascii_case(actual@, expected@));
                return false;
            }
            i = i + 1;
        }
        true
    }

    /// A verifier for this checksum that has read nothing yet.
    pub fn start_verification(&self) -> (r: ChecksumVerifier)
        ensures
            r.expected() == *self,
            r.consumed() == Seq::<u8>::empty(),
    {
        let expected = match self {
            Checksum::Sha1(hex) => Checksum::Sha1(hex.clone()),
        };
        ChecksumVerifier { expected, hasher: sha1_start() }
    }
}

/// Checks a file against a checksum as its bytes are read.
pub struct ChecksumVerifier {
    expected: Checksum,
    hasher: Sha1Hasher,
}

impl ChecksumVerifier {
    pub closed spec fn expected(&self) -> Checksum {
        self.expected
    }

    /// The bytes read so far.
    pub closed spec fn consumed(&self) -> Seq<u8> {
        hashed_input(self.hasher)
    }

    /// Takes in the next chunk of the file.
    pub fn update(&mut self, chunk: &[u8])
        ensures
            final(self).expected() == old(self).expected(),
            final(self).consumed() == old(self).consumed() + chunk@,
    {
        sha1_update(&mut self.hasher, chunk);
    }

    /// Whether the bytes read have the expected digest.
    pub fn finish(self) -> (r: bool)
        ensures
            r == digest_matches(expected_text(self.expected()), sha1_digest(self.consumed())),
    {
        let digest = sha1_finish(self.hasher);
        self.expected.matches_digest(digest.as_slice())
    }
}

/// A file whose bytes have the expected digest passes the check: the digest's own
/// hexadecimal text, in small letters or in capitals, is accepted.
pub proof fn own_digest_is_accepted(data: Seq<u8>, expected: Seq<char>)
    requires
        equal_ignoring_ascii_case(expected, lower_hex(sha1_digest(data))),
    ensures
        digest_matches(expected, sha1_digest(data)),
{
}

} // verus!
