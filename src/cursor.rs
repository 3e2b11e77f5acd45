//! A forward-only reader over a borrowed byte buffer.
use crate::bytes::FromData;
use crate::error::{HxaError, HxaResult};
use crate::grammar::{sp_bytes, sp_scalar};
use vstd::prelude::*;
use vstd::slice::slice_subrange;

verus! {

/// Reads a buffer front to back; bytes once taken cannot be read again.
pub struct Cursor<'a> {
    data: &'a [u8],
    pos: usize,
}

impl<'a> Cursor<'a> {
    /// The whole buffer, read and unread.
    pub closed spec fn input(&self) -> Seq<u8> {
        self.data@
    }

    /// How many bytes have been taken.
    pub closed spec fn pos(&self) -> int {
        self.pos as int
    }

    pub open spec fn wf(&self) -> bool {
        0 <= self.pos() <= self.input().len()
    }

    pub fn new(data: &'a [u8]) -> (r: Self)
        ensures
            r.wf(),
            r.input() == data@,
            r.pos() == 0,
    {
        Self { data, pos: 0 }
    }

    /// How many bytes are left.
    pub fn remaining(&self) -> (r: usize)
        requires
            self.wf(),
        ensures
            r == self.input().len() - self.pos(),
    {
        self.data.len() - self.pos
    }

    /// Takes the next `size` bytes; fails, taking nothing, if fewer are left.
    pub fn take_bytes(&mut self, size: usize) -> (r: HxaResult<&'a [u8]>)
        requires
            old(self).wf(),
        ensures
            final(self).wf(),
            final(self).input() == old(self).input(),
            old(self).pos() <= final(self).pos(),
            match sp_bytes(old(self).input(), old(self).pos(), size as int) {
                Ok((b, q)) => r is Ok && r->Ok_0@ == b && final(self).pos() == q,
                Err(e) => r is Err && r->Err_0.failure() == e && final(self).pos() == old(
                    self,
                ).pos(),
            },
    {
        if size > self.data.len() - self.pos {
            return Err(HxaError::UnexpectedEndOfData);
        }
        let bytes = slice_subrange(self.data, self.pos, self.pos + size);
        self.pos = self.pos + size;
        Ok(bytes)
    }

    /// Reads one little-endian scalar.
    pub fn read<T: FromData>(&mut self) -> (r: HxaResult<T>)
        requires
            old(self).wf(),
        ensures
            final(self).wf(),
            final(self).input() == old(self).input(),
            old(self).pos() <= final(self).pos(),
            match sp_scalar::<T>(old(self).input(), old(self).pos()) {
                Ok((v, q)) => r is Ok && r->Ok_0 == v && final(self).pos() == q,
                Err(e) => r is Err && r->Err_0.failure() == e,
            },
    {
        let bytes = self.take_bytes(T::size())?;
        Ok(T::decode(bytes))
    }
}

} // verus!
