//! The payload of a part while it arrives, held to its field's size limit
//! chunk by chunk.

use vstd::prelude::*;
use crate::part::{RawPart, RawPartView};
use crate::rejection::{Rejection, RejectionView};
use crate::text::opt_text;

verus! {

/// What a buffer stands for: the part as far as it has arrived, and the
/// most bytes that it may come to hold.
pub ghost struct PartBufferView {
    pub part: RawPartView,
    pub limit: nat,
}

/// One part of a body that is being decoded. It never holds more bytes
/// than its limit, however much the client sends.
pub struct PartBuffer {
    name: String,
    content_type: Option<String>,
    limit: u64,
    bytes: Vec<u8>,
}

impl View for PartBuffer {
    type V = PartBufferView;

    closed spec fn view(&self) -> PartBufferView {
        PartBufferView {
            part: RawPartView {
                name: self.name@,
                content_type: opt_text(self.content_type),
                bytes: self.bytes@,
            },
            limit: self.limit as nat,
        }
    }
}

impl PartBuffer {
    /// The buffer holds no more bytes than its limit. This holds of every
    /// buffer that `new` made, whatever was fed to it.
    pub closed spec fn wf(&self) -> bool {
        self.bytes.len() <= self.limit
    }

    /// The buffer of a part of which no byte has arrived yet.
    pub fn new(name: String, content_type: Option<String>, limit: u64) -> (buffer: PartBuffer)
        ensures
            buffer.wf(),
            buffer@.part.name == name@,
            buffer@.part.content_type == opt_text(content_type),
            buffer@.part.bytes == Seq::<u8>::empty(),
            buffer@.limit == limit,
    {
        PartBuffer { name, content_type, limit, bytes: Vec::new() }
    }

    /// How many bytes have arrived.
    pub fn received(&self) -> (n: usize)
        ensures
            n == self@.part.bytes.len(),
            self.wf() ==> n <= self@.limit,
    {
        self.bytes.len()
    }

    /// Takes the next chunk of the payload. A chunk that would carry the
    /// part over its limit is not taken: the part is too large, and the
    /// buffer stays as it was.
    pub fn feed(&mut self, chunk: &[u8]) -> (r: Result<(), Rejection>)
        requires
            old(self).wf(),
        ensures
            final(self).wf(),
            final(self)@.limit == old(self)@.limit,
            final(self)@.part.name == old(self)@.part.name,
            final(self)@.part.content_type == old(self)@.part.content_type,
            final(self)@.part.bytes.len() <= old(self)@.limit,
            old(self)@.part.bytes.len() + chunk@.len() <= old(self)@.limit ==> {
                &&& r is Ok
                &&& final(self)@.part.bytes == old(self)@.part.bytes + chunk@
            },
            old(self)@.part.bytes.len() + chunk@.len() > old(self)@.limit ==> {
                &&& final(self)@ == old(self)@
                &&& r matches Err(e)
                &&& e@ == RejectionView::FieldTooLarge(old(self)@.part.name)
            },
    {
        let room: u64 = self.limit - self.bytes.len() as u64;
        if chunk.len() as u64 > room {
            return Err(Rejection::FieldTooLarge(self.name.clone()));
        }
        let ghost before = self.bytes@;
        let mut i: usize = 0;
        while i < chunk.len()
            invariant
                i <= chunk.len(),
                before.len() + chunk@.len() <= self.limit,
                self.bytes@ == before + chunk@.take(i as int),
                self.limit == old(self).limit,
                self.name == old(self).name,
                self.content_type == old(self).content_type,
            decreases chunk.len() - i,
        {
            self.bytes.push(chunk[i]);
            assert(chunk@.take(i + 1) =~= chunk@.take(i as int).push(chunk@[i as int]));
            i += 1;
        }
        assert(chunk@.take(chunk.len() as int) =~= chunk@);
        Ok(())
    }

    /// The part, once its last chunk has arrived.
    pub fn finish(self) -> (part: RawPart)
        ensures
            part@ == self@.part,
            self.wf() ==> part@.bytes.len() <= self@.limit,
    {
        RawPart { name: self.name, content_type: self.content_type, bytes: self.bytes }
    }
}

} // verus!
