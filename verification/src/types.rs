//! Trading-pair catalog: canonical names, content hashes, and per-pair
//! sanity bounds on the accepted price, in micro-units of the quote currency.
use vstd::prelude::*;

verus! {

/// The closed set of trading pairs this oracle can price.
#[derive(Debug, Clone, Copy, PartialEq, Eq, Structural)]
pub enum TokenPair {
    EthUsd,
    BtcUsd,
    SolUsd,
    AvaxUsd,
}

/// The error kinds a single fetch can end in. Each fetch reports exactly one
/// of these to its caller; nothing is retried inside the library.
#[derive(Debug, Clone, Copy, PartialEq, Eq, Structural)]
pub enum PriceError {
    /// No pool is configured for this exchange and pair; no call is made.
    UnsupportedPair,
    /// Connection failure or a non-200 status from the node endpoint.
    TransportError,
    /// The call's deadline passed before a response arrived.
    DeadlineReached,
    /// The response body was not UTF-8, had no usable `result` field, or
    /// carried hex that does not decode.
    MalformedEnvelope,
    /// The decoded bytes are too short or denote an empty pool.
    MalformedData,
    /// No candidate price fell inside the protocol's plausibility window.
    OutOfRange,
    /// The computed price lies outside the pair's configured bounds.
    BoundsViolation,
}

/// One successful fetch: a price in micro-units and the wall-clock time,
/// in milliseconds, at which it was obtained.
#[derive(Debug, Clone, Copy, PartialEq, Eq, Structural)]
pub struct PricePoint {
    pub price_micro: u64,
    pub timestamp_ms: u64,
}

/// The BLAKE2b-256 digest of a byte sequence, as computed by the host's
/// hashing primitive. Its value is pinned only by being a function of the
/// input bytes.
pub uninterp spec fn blake2_hash(input: Seq<u8>) -> Seq<u8>;

/// Relies on `sp_io::hashing::blake2_256`: the 32-byte BLAKE2b-256 digest of
/// the input, a pure function of the input bytes alone.
#[verifier::external_body]
fn blake2_256(data: &[u8]) -> (r: [u8; 32])
    ensures
        r@ == blake2_hash(data@),
{
    sp_io::hashing::blake2_256(data)
}

/// The canonical display string of a pair.
pub open spec fn spec_pair_str(p: TokenPair) -> Seq<char> {
    match p {
        TokenPair::EthUsd => "ETH/USD"@,
        TokenPair::BtcUsd => "BTC/USD"@,
        TokenPair::SolUsd => "SOL/USD"@,
        TokenPair::AvaxUsd => "AVAX/USD"@,
    }
}

/// The UTF-8 bytes of a pair's canonical string.
pub open spec fn spec_pair_bytes(p: TokenPair) -> Seq<u8> {
    vstd::utf8::encode_utf8(spec_pair_str(p))
}

/// The content hash of a pair: the digest of its canonical string's bytes.
pub open spec fn spec_pair_hash(p: TokenPair) -> Seq<u8> {
    blake2_hash(spec_pair_bytes(p))
}

/// The acceptable price window of a pair, `(min, max)` in micro-units.
pub open spec fn spec_pair_bounds(p: TokenPair) -> (u64, u64) {
    match p {
        TokenPair::EthUsd => (1_000_000_000u64, 20_000_000_000u64),
        TokenPair::BtcUsd => (20_000_000_000u64, 200_000_000_000u64),
        TokenPair::SolUsd => (10_000_000u64, 1_000_000_000u64),
        TokenPair::AvaxUsd => (5_000_000u64, 200_000_000u64),
    }
}

impl TokenPair {
    /// The canonical display string of this pair.
    pub fn as_str(&self) -> (r: &'static str)
        ensures
            r@ == spec_pair_str(*self),
    {
        match self {
            TokenPair::EthUsd => "ETH/USD",
            TokenPair::BtcUsd => "BTC/USD",
            TokenPair::SolUsd => "SOL/USD",
            TokenPair::AvaxUsd => "AVAX/USD",
        }
    }

    /// The 32-byte content hash of this pair's canonical string, used as a
    /// storage key by the host ledger. Equal pairs always hash alike; the
    /// ensures pins the result to a function of the pair alone.
    pub fn to_hash(&self) -> (r: [u8; 32])
        ensures
            r@ == spec_pair_hash(*self),
    {
        blake2_256(self.as_str().as_bytes())
    }

    /// The pair's acceptable price window `(min, max)` in micro-units.
    pub fn get_price_bounds(&self) -> (r: (u64, u64))
        ensures
            r == spec_pair_bounds(*self),
    {
        match self {
            TokenPair::EthUsd => (1_000_000_000, 20_000_000_000),
            TokenPair::BtcUsd => (20_000_000_000, 200_000_000_000),
            TokenPair::SolUsd => (10_000_000, 1_000_000_000),
            TokenPair::AvaxUsd => (5_000_000, 200_000_000),
        }
    }
}

/// A pair's content hash is stable: repeated hashing of the same pair gives
/// the same 32 bytes, since the digest is a function of the pair alone.
/// (Distinctness of the hashes of distinct pairs is only overwhelmingly
/// probable, not provable; the test suite checks it on the catalog.)
pub proof fn lemma_pair_hash_stable(a: TokenPair, b: TokenPair)
    requires
        a == b,
    ensures
        spec_pair_hash(a) == spec_pair_hash(b),
{
}

/// Every pair's window is non-empty and starts at one quote unit or above.
pub proof fn lemma_price_bounds_well_formed(p: TokenPair)
    ensures
        spec_pair_bounds(p).0 < spec_pair_bounds(p).1,
        spec_pair_bounds(p).0 >= 1_000_000,
{
}

} // verus!
