use vstd::prelude::*;

use crate::error::{Error, Result, UnexpectedEnd};

verus! {

/// The number two bytes stand for, most significant first.
pub open spec fn be_u16(b: Seq<u8>) -> nat {
    b[0] as nat * 256 + b[1] as nat
}

/// The number four bytes stand for, most significant first.
pub open spec fn be_u32(b: Seq<u8>) -> nat {
    ((b[0] as nat * 256 + b[1] as nat) * 256 + b[2] as nat) * 256 + b[3] as nat
}

/// A cursor over a byte slice. Every read consumes what it returns.
pub struct Reader<'a> {
    bytes: &'a [u8],
    pos: usize,
}

impl<'a> View for Reader<'a> {
    type V = Seq<u8>;

    /// The bytes not yet read.
    closed spec fn view(&self) -> Seq<u8> {
        self.bytes@.subrange(self.pos as int, self.bytes@.len() as int)
    }
}

impl<'a> Reader<'a> {
    #[verifier::type_invariant]
    spec fn inv(&self) -> bool {
        self.pos <= self.bytes@.len()
    }

    /// A reader positioned at the first byte of `bytes`.
    pub fn new(bytes: &'a [u8]) -> (r: Self)
        ensures
            r@ == bytes@,
    {
        let r = Reader { bytes, pos: 0 };
        assert(r@ =~= bytes@);
        r
    }

    /// How many bytes are left.
    pub fn remaining_len(&self) -> (r: usize)
        ensures
            r == self@.len(),
    {
        proof {
            use_type_invariant(self);
        }
        self.bytes.len() - self.pos
    }

    /// Everything that is left, without consuming it.
    pub fn rest(&self) -> (r: &'a [u8])
        ensures
            r@ == self@,
    {
        proof {
            use_type_invariant(self);
        }
        vstd::slice::slice_subrange(self.bytes, self.pos, self.bytes.len())
    }

    /// Consumes exactly `n` bytes, or fails and consumes nothing.
    pub fn read_slice(&mut self, n: usize) -> (r: Result<&'a [u8]>)
        ensures
            old(self)@.len() >= n ==> r is Ok && r->Ok_0@ == old(self)@.take(n as int)
                && final(self)@ == old(self)@.skip(n as int),
            old(self)@.len() < n ==> r == Err::<&'a [u8], Error>(
                Error::Io(UnexpectedEnd { requested: n, remaining: old(self)@.len() as usize }),
            ) && final(self)@ == old(self)@,
    {
        proof {
            use_type_invariant(&*self);
        }
        let remaining = self.bytes.len() - self.pos;
        if remaining < n {
            return Err(Error::Io(UnexpectedEnd { requested: n, remaining }));
        }
        let start = self.pos;
        let out = vstd::slice::slice_subrange(self.bytes, start, start + n);
        self.pos = start + n;
        assert(out@ =~= old(self)@.take(n as int));
        assert(self@ =~= old(self)@.skip(n as int));
        Ok(out)
    }
}

/// Reads exactly `N` bytes, or fails with an end-of-input error and leaves the
/// reader where it was.
pub fn read_fixed<const N: usize>(reader: &mut Reader) -> (r: Result<[u8; N]>)
    ensures
        old(reader)@.len() >= N ==> r is Ok && r->Ok_0@ == old(reader)@.take(N as int)
            && final(reader)@ == old(reader)@.skip(N as int),
        old(reader)@.len() < N ==> r == Err::<[u8; N], Error>(
            Error::Io(UnexpectedEnd { requested: N, remaining: old(reader)@.len() as usize }),
        ) && final(reader)@ == old(reader)@,
{
    let src = reader.read_slice(N)?;
    let mut arr: [u8; N] = vstd::array::array_fill_for_copy_types(0u8);
    let mut i: usize = 0;
    while i < N
        invariant
            i <= N,
            src@.len() == N,
            forall|j: int| 0 <= j < i ==> arr@[j] == src@[j],
        decreases N - i,
    {
        arr[i] = src[i];
        i = i + 1;
    }
    assert(arr@ =~= src@);
    Ok(arr)
}

/// Reads a two-byte big-endian length, then that many bytes. Fails with an
/// end-of-input error when either part is short; the length, once read, stays
/// consumed.
pub fn read_vec(reader: &mut Reader) -> (r: Result<Vec<u8>>)
    ensures
        old(reader)@.len() < 2 ==> r == Err::<Vec<u8>, Error>(
            Error::Io(UnexpectedEnd { requested: 2, remaining: old(reader)@.len() as usize }),
        ) && final(reader)@ == old(reader)@,
        old(reader)@.len() >= 2 ==> {
            let n = be_u16(old(reader)@) as int;
            let left = old(reader)@.len() - 2;
            &&& left >= n ==> r is Ok && r->Ok_0@ == old(reader)@.subrange(2, 2 + n)
                && final(reader)@ == old(reader)@.skip(2 + n)
            &&& left < n ==> r == Err::<Vec<u8>, Error>(
                Error::Io(UnexpectedEnd { requested: n as usize, remaining: left as usize }),
            ) && final(reader)@ == old(reader)@.skip(2)
        },
{
    let len_bytes: [u8; 2] = read_fixed(reader)?;
    let len: usize = (len_bytes[0] as usize) * 256 + len_bytes[1] as usize;
    let body = reader.read_slice(len)?;
    let out = vstd::slice::slice_to_vec(body);
    proof {
        assert(old(reader)@.skip(2).take(len as int) =~= old(reader)@.subrange(2, 2 + len));
        assert(old(reader)@.skip(2).skip(len as int) =~= old(reader)@.skip(2 + len));
    }
    Ok(out)
}

} // verus!
