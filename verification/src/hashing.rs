//! Source hashing for contract verification: the hex-encoded SHA-256 digest
//! of the concatenated source files.  Reading the files is the caller's
//! concern; the digest and its encoding are computed here.

use vstd::prelude::*;
use sha2::Digest;
use sha2::Sha256;
use crate::corpus::SourceUnit;

verus! {

/// The SHA-256 digest of a byte sequence.
pub uninterp spec fn sha256_of(data: Seq<u8>) -> Seq<u8>;

/// One lowercase hex digit.
pub open spec fn hex_digit(n: int) -> char {
    if n == 0 {
        '0'
    } else if n == 1 {
        '1'
    } else if n == 2 {
        '2'
    } else if n == 3 {
        '3'
    } else if n == 4 {
        '4'
    } else if n == 5 {
        '5'
    } else if n == 6 {
        '6'
    } else if n == 7 {
        '7'
    } else if n == 8 {
        '8'
    } else if n == 9 {
        '9'
    } else if n == 10 {
        'a'
    } else if n == 11 {
        'b'
    } else if n == 12 {
        'c'
    } else if n == 13 {
        'd'
    } else if n == 14 {
        'e'
    } else {
        'f'
    }
}

/// The lowercase hex encoding of a byte sequence: two digits per byte, high
/// nibble first.
pub open spec fn hex_of(data: Seq<u8>) -> Seq<char>
    decreases data.len(),
{
    if data.len() == 0 {
        Seq::empty()
    } else {
        hex_of(data.drop_last()) + seq![
            hex_digit(data.last() as int / 16),
            hex_digit(data.last() as int % 16),
        ]
    }
}

/// Relies on sha2's Sha256: the digest is 32 bytes and depends on the input
/// bytes alone.
#[verifier::external_body]
fn sha256_digest(data: &Vec<u8>) -> (r: Vec<u8>)
    ensures
        r@ == sha256_of(data@),
        r@.len() == 32,
{
    Sha256::digest(data).to_vec()
}

/// Relies on hex::encode: each input byte becomes two lowercase hex digits,
/// high nibble first.
#[verifier::external_body]
fn hex_encode(data: &Vec<u8>) -> (r: String)
    ensures
        r@ == hex_of(data@),
{
    hex::encode(data)
}

/// The concatenation of the first `n` chunks.
pub open spec fn concat_upto(chunks: Seq<Seq<u8>>, n: int) -> Seq<u8>
    decreases n,
{
    if n <= 0 {
        Seq::empty()
    } else {
        concat_upto(chunks, n - 1) + chunks[n - 1]
    }
}

/// The bytes of a corpus, file contents concatenated in corpus order.
pub open spec fn spec_corpus_bytes(units: Seq<SourceUnit>) -> Seq<u8> {
    concat_upto(units.map_values(|u: SourceUnit| u.content@), units.len() as int)
}

/// The hex-encoded SHA-256 digest of the corpus: every file's bytes fed to
/// the hasher in corpus order.
pub fn compute_source_hash(corpus: &Vec<SourceUnit>) -> (r: String)
    ensures
        r@ == hex_of(sha256_of(spec_corpus_bytes(corpus@))),
{
    let ghost chunks = corpus@.map_values(|u: SourceUnit| u.content@);
    let mut combined: Vec<u8> = Vec::new();
    proof {
        assert(combined@ =~= concat_upto(chunks, 0));
    }
    let mut k: usize = 0;
    while k < corpus.len()
        invariant
            0 <= k <= corpus@.len(),
            chunks == corpus@.map_values(|u: SourceUnit| u.content@),
            combined@ == concat_upto(chunks, k as int),
        decreases corpus@.len() - k,
    {
        let content = &corpus[k].content;
        proof {
            assert(combined@ =~= concat_upto(chunks, k as int) + content@.take(0));
        }
        let mut i: usize = 0;
        while i < content.len()
            invariant
                0 <= i <= content@.len(),
                content@ == corpus@[k as int].content@,
                0 <= k < corpus@.len(),
                chunks == corpus@.map_values(|u: SourceUnit| u.content@),
                combined@ == concat_upto(chunks, k as int) + content@.take(i as int),
            decreases content@.len() - i,
        {
            combined.push(content[i]);
            proof {
                assert(combined@ =~= concat_upto(chunks, k as int) + content@.take(i + 1));
            }
            i += 1;
        }
        proof {
            assert(content@.take(content@.len() as int) =~= content@);
            assert(combined@ =~= concat_upto(chunks, k + 1));
        }
        k += 1;
    }
    let digest = sha256_digest(&combined);
    hex_encode(&digest)
}

} // verus!
