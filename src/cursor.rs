//! A sequential byte source over an owned buffer.
use vstd::prelude::*;

verus! {

/// Bytes read front to back; `position` counts the bytes consumed so far.
pub struct ByteCursor {
    data: Vec<u8>,
    pos: usize,
}

impl ByteCursor {
    /// All bytes of the source, consumed or not.
    pub closed spec fn data(&self) -> Seq<u8> {
        self.data@
    }

    /// Number of bytes consumed so far.
    pub closed spec fn pos(&self) -> nat {
        self.pos as nat
    }

    #[verifier::type_invariant]
    closed spec fn inv(&self) -> bool {
        self.pos <= self.data.len()
    }

    /// The bytes that are still to be read.
    pub open spec fn remaining(&self) -> Seq<u8> {
        self.data().subrange(self.pos() as int, self.data().len() as int)
    }

    /// A source positioned at the first byte of `data`.
    pub fn new(data: Vec<u8>) -> (r: Self)
        ensures
            r.data() == data@,
            r.pos() == 0,
            r.remaining() == data@,
    {
        let r = ByteCursor { data, pos: 0 };
        assert(r.remaining() =~= data@);
        r
    }

    /// Number of bytes consumed so far.
    pub fn position(&self) -> (r: usize)
        ensures
            r == self.pos(),
    {
        self.pos
    }

    /// The byte `i` places past the current position, if the source holds it.
    pub(crate) fn peek_at(&self, i: usize) -> (r: Option<u8>)
        ensures
            r == (if i < self.remaining().len() {
                Some(self.remaining()[i as int])
            } else {
                None::<u8>
            }),
    {
        proof {
            use_type_invariant(self);
        }
        if i < self.data.len() - self.pos {
            Some(self.data[self.pos + i])
        } else {
            None
        }
    }

    /// Consumes the next `n` bytes.
    pub(crate) fn advance(&mut self, n: usize)
        requires
            n <= old(self).remaining().len(),
        ensures
            final(self).data() == old(self).data(),
            final(self).pos() == old(self).pos() + n,
            final(self).remaining() == old(self).remaining().subrange(
                n as int,
                old(self).remaining().len() as int,
            ),
    {
        proof {
            use_type_invariant(&*self);
        }
        self.pos = self.pos + n;
        assert(self.remaining() =~= old(self).remaining().subrange(
            n as int,
            old(self).remaining().len() as int,
        ));
    }
}

/// `after` is `before` once a read that was expected to give `expected` has
/// returned `r`: on success the value and exactly its bytes were taken, on
/// failure the error came back and nothing was consumed.
pub open spec fn read_outcome<T>(
    before: ByteCursor,
    after: ByteCursor,
    r: Result<T, crate::error::VarintError>,
    expected: Result<(T, nat), crate::error::VarintError>,
) -> bool {
    &&& after.data() == before.data()
    &&& match expected {
        Ok((v, n)) => r == Ok::<T, crate::error::VarintError>(v) && after.pos() == before.pos() + n,
        Err(e) => r == Err::<T, crate::error::VarintError>(e) && after.pos() == before.pos(),
    }
}

} // verus!
