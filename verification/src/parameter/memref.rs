//! Typed wrappers for memory-reference parameters.
//!
//! A memory reference shares a buffer between the host and the TA. The
//! wrappers only copy bytes in and out of the shared buffer, and every read
//! and write is bounded by the size the host supplied.
//!
//! | Type | Host to TA | TA to host |
//! |---|---|---|
//! | [`ParameterMemrefInput`] | yes | no |
//! | [`ParameterMemrefOutput`] | no | yes |
//! | [`ParameterMemrefInout`] | yes | yes |
use vstd::prelude::*;

use super::{check_type_is, spec_check_type_is, FromRawParameter, ParamType, RawParamType};
use crate::error::{err_of, Error, ErrorKind, Result};
use crate::raw::{Memref, TeeParam, Value};

verus! {

/// The shared buffer of a memory-reference parameter.
pub trait ParameterMemref {
    /// The bytes the shared buffer holds now; its length is the size the
    /// host supplied.
    spec fn shared(&self) -> Seq<u8>;

    /// The size of the shared buffer as supplied by the host, in bytes.
    fn buffer_len(&self) -> (n: usize)
        ensures
            n == self.shared().len(),
    ;
}

/// The number of bytes [`ParameterMemrefRead::read_at`] copies.
pub open spec fn spec_read_count(buffer_len: nat, offset: nat, dest_len: nat) -> nat {
    let available = (buffer_len - offset) as nat;
    if dest_len < available {
        dest_len
    } else {
        available
    }
}

/// Read access to the shared buffer (input and in/out parameters).
pub trait ParameterMemrefRead: ParameterMemref {
    /// The shared bytes, for the copying accessors below.
    fn shared_bytes(&self) -> (s: &[u8])
        ensures
            s@ == self.shared(),
    ;

    /// Copies the whole shared buffer into TA-owned memory.
    fn read_to_vec(&self) -> (v: Vec<u8>)
        ensures
            v@ == self.shared(),
    {
        let src = self.shared_bytes();
        let len = src.len();
        let mut copy: Vec<u8> = Vec::with_capacity(len);
        let mut i: usize = 0;
        while i < len
            invariant
                len == src@.len(),
                i <= len,
                copy@ == src@.take(i as int),
            decreases len - i,
        {
            copy.push(src[i]);
            i += 1;
            assert(copy@ =~= src@.take(i as int));
        }
        assert(copy@ =~= src@);
        copy
    }

    /// Copies the bytes from `offset` on into `dest` and returns how many
    /// were copied: as many as fit in `dest` or remain in the buffer.
    /// Reading exactly at the end copies nothing. An `offset` beyond the end
    /// gives `BadParameters` and leaves `dest` unchanged.
    fn read_at(&self, offset: usize, dest: &mut [u8]) -> (r: Result<usize>)
        ensures
            offset > self.shared().len() ==> r == err_of::<usize>(ErrorKind::BadParameters)
                && final(dest)@ == old(dest)@,
            offset <= self.shared().len() ==> {
                let n = spec_read_count(self.shared().len(), offset as nat, old(dest)@.len());
                &&& r == Ok::<usize, Error>(n as usize)
                &&& final(dest)@ == self.shared().subrange(offset as int, offset + n)
                    + old(dest)@.skip(n as int)
            },
    {
        let src = self.shared_bytes();
        let len = src.len();
        if offset > len {
            return Err(Error::new(ErrorKind::BadParameters));
        }
        let available = len - offset;
        let to_read = if dest.len() < available {
            dest.len()
        } else {
            available
        };
        let ghost d0 = dest@;
        let mut i: usize = 0;
        while i < to_read
            invariant
                len == src@.len(),
                src@ == self.shared(),
                offset + to_read <= len,
                to_read <= d0.len(),
                i <= to_read,
                dest@.len() == d0.len(),
                forall|j: int| 0 <= j < i ==> #[trigger] dest@[j] == src@[offset + j],
                forall|j: int| i <= j < d0.len() ==> #[trigger] dest@[j] == d0[j],
            decreases to_read - i,
        {
            dest[i] = src[offset + i];
            i += 1;
        }
        assert(dest@ =~= src@.subrange(offset as int, offset + to_read) + d0.skip(to_read as int));
        Ok(to_read)
    }
}

/// Write access to the shared buffer (output and in/out parameters).
pub trait ParameterMemrefWrite: ParameterMemref {
    /// The size reported back to the host.
    spec fn reported_size(&self) -> nat;

    /// Copies `data` into the shared buffer at `offset`; the reported size
    /// stays as it is.
    fn copy_into(&mut self, offset: usize, data: &[u8])
        requires
            offset + data@.len() <= old(self).shared().len(),
        ensures
            final(self).shared().len() == old(self).shared().len(),
            final(self).shared() == old(self).shared().take(offset as int) + data@
                + old(self).shared().skip(offset + data@.len()),
            final(self).reported_size() == old(self).reported_size(),
    ;

    /// Sets the reported size without a bounds check; the caller has
    /// checked it against the buffer length.
    fn set_updated_size_unchecked(&mut self, size: usize)
        requires
            size <= old(self).shared().len(),
        ensures
            final(self).reported_size() == size,
            final(self).shared() == old(self).shared(),
    ;

    /// Sets the reported size; `ShortBuffer` if it exceeds the buffer, and
    /// then nothing changes.
    fn set_updated_size(&mut self, size: usize) -> (r: Result<()>)
        ensures
            size > old(self).shared().len() ==> r == err_of::<()>(ErrorKind::ShortBuffer)
                && final(self).reported_size() == old(self).reported_size(),
            size <= old(self).shared().len() ==> r is Ok && final(self).reported_size() == size,
            final(self).shared() == old(self).shared(),
    {
        if size > self.buffer_len() {
            return Err(Error::new(ErrorKind::ShortBuffer));
        }
        self.set_updated_size_unchecked(size);
        Ok(())
    }

    /// Copies `data` to the start of the buffer and reports its length.
    fn set_output(&mut self, data: &[u8]) -> (r: Result<()>)
        ensures
            final(self).shared().len() == old(self).shared().len(),
            data@.len() > old(self).shared().len() ==> r == err_of::<()>(ErrorKind::ShortBuffer)
                && final(self).shared() == old(self).shared()
                && final(self).reported_size() == old(self).reported_size(),
            data@.len() <= old(self).shared().len() ==> r is Ok
                && final(self).shared() == data@ + old(self).shared().skip(data@.len() as int)
                && final(self).reported_size() == data@.len(),
    {
        let r = self.write_at(0, data);
        proof {
            assert(old(self).shared().take(0) + data@ =~= data@);
        }
        r
    }

    /// Copies `data` into the buffer at `offset` and reports
    /// `offset + data.len()` as the size. `ShortBuffer` if that exceeds the
    /// buffer (or overflows), and then nothing changes.
    fn write_at(&mut self, offset: usize, data: &[u8]) -> (r: Result<()>)
        ensures
            final(self).shared().len() == old(self).shared().len(),
            offset + data@.len() > old(self).shared().len() ==> r == err_of::<()>(ErrorKind::ShortBuffer)
                && final(self).shared() == old(self).shared()
                && final(self).reported_size() == old(self).reported_size(),
            offset + data@.len() <= old(self).shared().len() ==> r is Ok
                && final(self).shared() == old(self).shared().take(offset as int) + data@
                    + old(self).shared().skip(offset + data@.len())
                && final(self).reported_size() == offset + data@.len(),
    {
        let capacity = self.buffer_len();
        let new_size = match offset.checked_add(data.len()) {
            Some(n) => n,
            None => return Err(Error::new(ErrorKind::ShortBuffer)),
        };
        if new_size > capacity {
            return Err(Error::new(ErrorKind::ShortBuffer));
        }
        if data.len() != 0 {
            self.copy_into(offset, data);
        } else {
            proof {
                assert(old(self).shared().take(offset as int) + data@ + old(self).shared().skip(
                    offset + data@.len(),
                ) =~= old(self).shared());
            }
        }
        self.set_updated_size_unchecked(new_size);
        Ok(())
    }
}

/// Copies `data` into `buffer` at `offset`.
fn copy_bytes_into(buffer: &mut Vec<u8>, offset: usize, data: &[u8])
    requires
        offset + data@.len() <= old(buffer)@.len(),
    ensures
        final(buffer)@ == old(buffer)@.take(offset as int) + data@ + old(buffer)@.skip(
            offset + data@.len(),
        ),
{
    let ghost b0 = buffer@;
    let blen = buffer.len();
    let n = data.len();
    let mut i: usize = 0;
    while i < n
        invariant
            n == data@.len(),
            blen == b0.len(),
            offset + n <= b0.len(),
            i <= n,
            buffer@.len() == b0.len(),
            forall|j: int| 0 <= j < b0.len() ==> #[trigger] buffer@[j] == if offset <= j < offset + i {
                data@[j - offset]
            } else {
                b0[j]
            },
        decreases n - i,
    {
        buffer[offset + i] = data[i];
        i += 1;
    }
    assert(buffer@ =~= b0.take(offset as int) + data@ + b0.skip(offset + n));
}

/// A memory-reference input parameter: the host passes a buffer for the TA
/// to read.
pub struct ParameterMemrefInput {
    buffer: Vec<u8>,
    value: Value,
}

/// A memory-reference in/out parameter: the TA may read the initial
/// contents, overwrite them, and report the final number of valid bytes.
pub struct ParameterMemrefInout {
    buffer: Vec<u8>,
    size: usize,
    value: Value,
}

/// A memory-reference output parameter: the TA fills the buffer and reports
/// the final number of valid bytes.
pub struct ParameterMemrefOutput {
    buffer: Vec<u8>,
    size: usize,
    value: Value,
}

impl ParameterMemrefInput {
    /// The wrapper that holds a given (non-null) raw parameter.
    pub closed spec fn spec_wrap(raw_param: TeeParam) -> Self {
        ParameterMemrefInput { buffer: raw_param.memref.buffer->0, value: raw_param.value }
    }

    /// The raw parameter this wrapper was made from.
    pub closed spec fn spec_raw(self) -> TeeParam {
        TeeParam {
            value: self.value,
            memref: Memref { buffer: Some(self.buffer), size: self.buffer@.len() as usize },
        }
    }

    /// Gives the raw parameter back.
    pub fn into_raw(self) -> (p: TeeParam)
        ensures
            p == self.spec_raw(),
    {
        let size = self.buffer.len();
        TeeParam { value: self.value, memref: Memref { buffer: Some(self.buffer), size } }
    }
}

impl ParameterMemrefInout {
    /// The wrapper that holds a given (non-null) raw parameter.
    pub closed spec fn spec_wrap(raw_param: TeeParam) -> Self {
        ParameterMemrefInout {
            buffer: raw_param.memref.buffer->0,
            size: raw_param.memref.size,
            value: raw_param.value,
        }
    }

    /// The raw parameter as it now stands: shared bytes and reported size.
    pub closed spec fn spec_raw(self) -> TeeParam {
        TeeParam { value: self.value, memref: Memref { buffer: Some(self.buffer), size: self.size } }
    }

    /// Gives the raw parameter back, with the reported size in its size
    /// field.
    pub fn into_raw(self) -> (p: TeeParam)
        ensures
            p == self.spec_raw(),
    {
        TeeParam { value: self.value, memref: Memref { buffer: Some(self.buffer), size: self.size } }
    }
}

impl ParameterMemrefOutput {
    /// The wrapper that holds a given (non-null) raw parameter.
    pub closed spec fn spec_wrap(raw_param: TeeParam) -> Self {
        ParameterMemrefOutput {
            buffer: raw_param.memref.buffer->0,
            size: raw_param.memref.size,
            value: raw_param.value,
        }
    }

    /// The raw parameter as it now stands: shared bytes and reported size.
    pub closed spec fn spec_raw(self) -> TeeParam {
        TeeParam { value: self.value, memref: Memref { buffer: Some(self.buffer), size: self.size } }
    }

    /// Gives the raw parameter back, with the reported size in its size
    /// field.
    pub fn into_raw(self) -> (p: TeeParam)
        ensures
            p == self.spec_raw(),
    {
        TeeParam { value: self.value, memref: Memref { buffer: Some(self.buffer), size: self.size } }
    }
}

/// The decoding shared by the three memory-reference wrappers: the tag must
/// match and the pointer must not be null.
pub open spec fn spec_memref_decode<T>(
    raw_type: RawParamType,
    raw_param: TeeParam,
    expected: ParamType,
    wrapped: T,
) -> Result<T> {
    if raw_type != expected.spec_tag() {
        err_of(ErrorKind::BadParameters)
    } else if raw_param.memref.buffer is None {
        err_of(ErrorKind::BadParameters)
    } else {
        Ok(wrapped)
    }
}

impl FromRawParameter for ParameterMemrefInput {
    open spec fn decode(raw_type: RawParamType, raw_param: TeeParam) -> Result<Self> {
        spec_memref_decode(raw_type, raw_param, ParamType::MemrefInput, Self::spec_wrap(raw_param))
    }

    /// On success the wrapper holds the bytes of the raw parameter, and the
    /// host-supplied size is its buffer length.
    fn from_raw(raw_type: RawParamType, raw_param: TeeParam) -> (r: Result<Self>)
        ensures
            r matches Ok(p) ==> p.shared() == raw_param.memref.buffer->0@,
            r matches Ok(p) ==> p.shared().len() == raw_param.memref.size,
    {
        match check_type_is(raw_type, ParamType::MemrefInput) {
            Ok(()) => {},
            Err(e) => return Err(e),
        }
        let TeeParam { value, memref } = raw_param;
        match memref.buffer {
            None => Err(Error::new(ErrorKind::BadParameters)),
            Some(buffer) => Ok(ParameterMemrefInput { buffer, value }),
        }
    }
}

impl FromRawParameter for ParameterMemrefInout {
    open spec fn decode(raw_type: RawParamType, raw_param: TeeParam) -> Result<Self> {
        spec_memref_decode(raw_type, raw_param, ParamType::MemrefInout, Self::spec_wrap(raw_param))
    }

    /// On success the wrapper holds the bytes of the raw parameter, and the
    /// host-supplied size is its buffer length.
    fn from_raw(raw_type: RawParamType, raw_param: TeeParam) -> (r: Result<Self>)
        ensures
            r matches Ok(p) ==> p.shared() == raw_param.memref.buffer->0@,
            r matches Ok(p) ==> p.shared().len() == raw_param.memref.size,
            r matches Ok(p) ==> p.reported_size() == raw_param.memref.size,
    {
        match check_type_is(raw_type, ParamType::MemrefInout) {
            Ok(()) => {},
            Err(e) => return Err(e),
        }
        let TeeParam { value, memref } = raw_param;
        let size = memref.size;
        match memref.buffer {
            None => Err(Error::new(ErrorKind::BadParameters)),
            Some(buffer) => Ok(ParameterMemrefInout { buffer, size, value }),
        }
    }
}

impl FromRawParameter for ParameterMemrefOutput {
    open spec fn decode(raw_type: RawParamType, raw_param: TeeParam) -> Result<Self> {
        spec_memref_decode(raw_type, raw_param, ParamType::MemrefOutput, Self::spec_wrap(raw_param))
    }

    /// On success the wrapper holds the bytes of the raw parameter, and the
    /// host-supplied size is its buffer length.
    fn from_raw(raw_type: RawParamType, raw_param: TeeParam) -> (r: Result<Self>)
        ensures
            r matches Ok(p) ==> p.shared() == raw_param.memref.buffer->0@,
            r matches Ok(p) ==> p.shared().len() == raw_param.memref.size,
            r matches Ok(p) ==> p.reported_size() == raw_param.memref.size,
    {
        match check_type_is(raw_type, ParamType::MemrefOutput) {
            Ok(()) => {},
            Err(e) => return Err(e),
        }
        let TeeParam { value, memref } = raw_param;
        let size = memref.size;
        match memref.buffer {
            None => Err(Error::new(ErrorKind::BadParameters)),
            Some(buffer) => Ok(ParameterMemrefOutput { buffer, size, value }),
        }
    }
}

impl ParameterMemref for ParameterMemrefInput {
    closed spec fn shared(&self) -> Seq<u8> {
        self.buffer@
    }

    fn buffer_len(&self) -> (n: usize) {
        self.buffer.len()
    }
}

impl ParameterMemref for ParameterMemrefInout {
    closed spec fn shared(&self) -> Seq<u8> {
        self.buffer@
    }

    fn buffer_len(&self) -> (n: usize) {
        self.buffer.len()
    }
}

impl ParameterMemref for ParameterMemrefOutput {
    closed spec fn shared(&self) -> Seq<u8> {
        self.buffer@
    }

    fn buffer_len(&self) -> (n: usize) {
        self.buffer.len()
    }
}

impl ParameterMemrefRead for ParameterMemrefInput {
    fn shared_bytes(&self) -> (s: &[u8]) {
        self.buffer.as_slice()
    }
}

impl ParameterMemrefRead for ParameterMemrefInout {
    fn shared_bytes(&self) -> (s: &[u8]) {
        self.buffer.as_slice()
    }
}

impl ParameterMemrefWrite for ParameterMemrefInout {
    closed spec fn reported_size(&self) -> nat {
        self.size as nat
    }

    fn copy_into(&mut self, offset: usize, data: &[u8]) {
        copy_bytes_into(&mut self.buffer, offset, data);
    }

    fn set_updated_size_unchecked(&mut self, size: usize) {
        self.size = size;
    }
}

impl ParameterMemrefWrite for ParameterMemrefOutput {
    closed spec fn reported_size(&self) -> nat {
        self.size as nat
    }

    fn copy_into(&mut self, offset: usize, data: &[u8]) {
        copy_bytes_into(&mut self.buffer, offset, data);
    }

    fn set_updated_size_unchecked(&mut self, size: usize) {
        self.size = size;
    }
}

/// A wrapper made from a raw memory reference holds its bytes; for output
/// and in/out parameters the reported size starts as the raw size field.
pub proof fn lemma_memref_wrap(raw_param: TeeParam)
    requires
        raw_param.memref.buffer is Some,
    ensures
        ParameterMemrefInput::spec_wrap(raw_param).shared() == raw_param.memref.buffer->0@,
        ParameterMemrefInout::spec_wrap(raw_param).shared() == raw_param.memref.buffer->0@,
        ParameterMemrefInout::spec_wrap(raw_param).reported_size() == raw_param.memref.size,
        ParameterMemrefOutput::spec_wrap(raw_param).shared() == raw_param.memref.buffer->0@,
        ParameterMemrefOutput::spec_wrap(raw_param).reported_size() == raw_param.memref.size,
{
}

/// What a read gives back of a write: after `write_at(offset, data)`
/// succeeds on a buffer, the buffer keeps its length, holds `data` at
/// `offset` and is unchanged elsewhere, and `read_at(offset, ..)` into a
/// destination of `data.len()` bytes copies exactly `data`.
pub proof fn lemma_read_back_after_write(before: Seq<u8>, offset: int, data: Seq<u8>)
    requires
        0 <= offset,
        offset + data.len() <= before.len(),
    ensures
        ({
            let after = before.take(offset) + data + before.skip(offset + data.len());
            &&& after.len() == before.len()
            &&& after.subrange(offset, offset + data.len()) == data
            &&& forall|i: int|
                0 <= i < before.len() && !(offset <= i < offset + data.len()) ==> after[i] == before[i]
            &&& spec_read_count(after.len(), offset as nat, data.len()) == data.len()
        }),
{
    let after = before.take(offset) + data + before.skip(offset + data.len());
    assert(after.subrange(offset, offset + data.len()) =~= data);
}

} // verus!
