//! Failures of the codec.
use vstd::prelude::*;

verus! {

/// Why an encoding or decoding operation did not produce a value.
#[derive(Debug, Clone, Copy, PartialEq, Eq, Structural)]
pub enum VarintError {
    /// The byte source ended before the bytes that were asked for.
    ShortRead,
    /// A varint used its domain's maximum byte count and its last byte still
    /// carried the continuation flag.
    VarintTooLong,
    /// A varint ended without a terminating byte. The decoders here report a
    /// source that runs dry as `ShortRead`; this variant is kept for callers
    /// that map transport failures onto the codec's taxonomy.
    UnterminatedVarint,
    /// An absolute-offset access reached past the end of the buffer.
    OutOfRange,
}

} // verus!
