//! Address derivation: a record's address is a pure, deterministic function of
//! a short domain tag plus one or more seed values, computed by the hosting
//! environment's program-derived-address scheme.

use vstd::prelude::*;

use crate::keys::Address;
use crate::keys::Identity;

verus! {

/// The views of a sequence of seed byte vectors.
pub open spec fn views_of(s: Seq<Vec<u8>>) -> Seq<Seq<u8>> {
    Seq::new(s.len(), |i: int| s[i]@)
}

/// What the environment's program-derived-address search returns for a seed
/// list: a 32-byte address, or nothing in the statistically improbable event
/// that no viable bump seed exists (or when a seed breaks the scheme's length
/// limits). The result depends on the seeds alone; the deriving program's own
/// identity is fixed here.
pub uninterp spec fn pda_of(seeds: Seq<Seq<u8>>) -> Option<Seq<u8>>;

/// Relies on solana_program's Pubkey::try_find_program_address: a
/// deterministic search for a program-derived address from the given seeds
/// and a fixed program identity, returning a 32-byte address or None.
#[verifier::external_body]
fn try_derive(seeds: &Vec<Vec<u8>>) -> (r: Option<Address>)
    ensures
        match r {
            Some(a) => pda_of(views_of(seeds@)) == Some(a@) && a.wf(),
            None => pda_of(views_of(seeds@)) is None,
        },
{
    let refs: Vec<&[u8]> = seeds.iter().map(|s| s.as_slice()).collect();
    let pid = solana_program::pubkey::Pubkey::default();
    match solana_program::pubkey::Pubkey::try_find_program_address(&refs, &pid) {
        Some((pk, _bump)) => Some(Address::from_raw(pk.to_bytes().to_vec())),
        None => None,
    }
}

/// The domain tag of user records: the bytes of "user".
pub open spec fn user_tag() -> Seq<u8> {
    seq![0x75u8, 0x73u8, 0x65u8, 0x72u8]
}

/// The domain tag of video records: the bytes of "video".
pub open spec fn video_tag() -> Seq<u8> {
    seq![0x76u8, 0x69u8, 0x64u8, 0x65u8, 0x6fu8]
}

/// The domain tag of comment records: the bytes of "comment".
pub open spec fn comment_tag() -> Seq<u8> {
    seq![0x63u8, 0x6fu8, 0x6du8, 0x6du8, 0x65u8, 0x6eu8, 0x74u8]
}

fn tag_user() -> (v: Vec<u8>)
    ensures
        v@ == user_tag(),
{
    let mut v: Vec<u8> = Vec::new();
    v.push(0x75u8);
    v.push(0x73u8);
    v.push(0x65u8);
    v.push(0x72u8);
    assert(v@ =~= user_tag());
    v
}

fn tag_video() -> (v: Vec<u8>)
    ensures
        v@ == video_tag(),
{
    let mut v: Vec<u8> = Vec::new();
    v.push(0x76u8);
    v.push(0x69u8);
    v.push(0x64u8);
    v.push(0x65u8);
    v.push(0x6fu8);
    assert(v@ =~= video_tag());
    v
}

fn tag_comment() -> (v: Vec<u8>)
    ensures
        v@ == comment_tag(),
{
    let mut v: Vec<u8> = Vec::new();
    v.push(0x63u8);
    v.push(0x6fu8);
    v.push(0x6du8);
    v.push(0x6du8);
    v.push(0x65u8);
    v.push(0x6eu8);
    v.push(0x74u8);
    assert(v@ =~= comment_tag());
    v
}

/// The big-endian encoding of a 64-bit counter, used as an address seed.
pub open spec fn be_bytes_of(n: u64) -> Seq<u8> {
    seq![
        ((n >> 56) & 0xff) as u8,
        ((n >> 48) & 0xff) as u8,
        ((n >> 40) & 0xff) as u8,
        ((n >> 32) & 0xff) as u8,
        ((n >> 24) & 0xff) as u8,
        ((n >> 16) & 0xff) as u8,
        ((n >> 8) & 0xff) as u8,
        (n & 0xff) as u8,
    ]
}

/// Computes the big-endian byte encoding of a counter.
pub fn u64_be_bytes(n: u64) -> (r: Vec<u8>)
    ensures
        r@ == be_bytes_of(n),
{
    assert((n >> 56) & 0xff < 256 && (n >> 48) & 0xff < 256 && (n >> 40) & 0xff < 256 && (n >> 32)
        & 0xff < 256 && (n >> 24) & 0xff < 256 && (n >> 16) & 0xff < 256 && (n >> 8) & 0xff < 256
        && n & 0xff < 256) by (bit_vector);
    let mut r: Vec<u8> = Vec::new();
    r.push(((n >> 56) & 0xff) as u8);
    r.push(((n >> 48) & 0xff) as u8);
    r.push(((n >> 40) & 0xff) as u8);
    r.push(((n >> 32) & 0xff) as u8);
    r.push(((n >> 24) & 0xff) as u8);
    r.push(((n >> 16) & 0xff) as u8);
    r.push(((n >> 8) & 0xff) as u8);
    r.push((n & 0xff) as u8);
    assert(r@ =~= be_bytes_of(n));
    r
}

/// The seed list of a user record: the user tag and the owner's identity.
pub open spec fn user_seeds(owner: Seq<u8>) -> Seq<Seq<u8>> {
    seq![user_tag(), owner]
}

/// The seed list of a video record: the video tag and the caller-supplied
/// disposable nonce identity.
pub open spec fn video_seeds(nonce: Seq<u8>) -> Seq<Seq<u8>> {
    seq![video_tag(), nonce]
}

/// The seed list of a comment record: the comment tag, the parent video's
/// address, and the parent's comment counter at creation time, big-endian.
pub open spec fn comment_seeds(video: Seq<u8>, count: u64) -> Seq<Seq<u8>> {
    seq![comment_tag(), video, be_bytes_of(count)]
}

/// Derives the address of the user record owned by `owner`.
pub fn derive_user_address(owner: &Identity) -> (r: Option<Address>)
    ensures
        match r {
            Some(a) => pda_of(user_seeds(owner@)) == Some(a@) && a.wf(),
            None => pda_of(user_seeds(owner@)) is None,
        },
{
    let mut seeds: Vec<Vec<u8>> = Vec::new();
    seeds.push(tag_user());
    seeds.push(owner.to_bytes());
    proof {
        assert(views_of(seeds@) =~= user_seeds(owner@));
    }
    try_derive(&seeds)
}

/// Derives the address of the video record seeded by `nonce`.
pub fn derive_video_address(nonce: &Identity) -> (r: Option<Address>)
    ensures
        match r {
            Some(a) => pda_of(video_seeds(nonce@)) == Some(a@) && a.wf(),
            None => pda_of(video_seeds(nonce@)) is None,
        },
{
    let mut seeds: Vec<Vec<u8>> = Vec::new();
    seeds.push(tag_video());
    seeds.push(nonce.to_bytes());
    proof {
        assert(views_of(seeds@) =~= video_seeds(nonce@));
    }
    try_derive(&seeds)
}

/// Derives the address of the comment record of video `video` at position
/// `count`.
pub fn derive_comment_address(video: &Address, count: u64) -> (r: Option<Address>)
    ensures
        match r {
            Some(a) => pda_of(comment_seeds(video@, count)) == Some(a@) && a.wf(),
            None => pda_of(comment_seeds(video@, count)) is None,
        },
{
    let mut seeds: Vec<Vec<u8>> = Vec::new();
    seeds.push(tag_comment());
    seeds.push(video.to_bytes());
    seeds.push(u64_be_bytes(count));
    proof {
        assert(views_of(seeds@) =~= comment_seeds(video@, count));
    }
    try_derive(&seeds)
}

} // verus!
