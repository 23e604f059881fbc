//! Parameters of a supplicant plugin invocation.
//!
//! A plugin receives a command, a sub-command, an in/out buffer and a
//! pointer through which it reports how many bytes of output it produced.
//! Every output-writing operation here sets that length itself, so a plugin
//! cannot forget to set it.
use vstd::prelude::*;

use crate::error::{err_of, Error, ErrorKind, Result};

verus! {

/// Parameters of one plugin invocation.
pub struct PluginParameters {
    /// Command identifier.
    pub cmd: u32,
    /// Sub-command identifier.
    pub sub_cmd: u32,
    buf: Vec<u8>,
    out_len: Option<usize>,
}

/// What [`PluginParameters::from_raw`] decides: a buffer is needed when
/// input is passed or output is expected.
pub open spec fn spec_plugin_params_accepted(buf_is_null: bool, in_len: usize, out_len_is_null: bool) -> bool {
    !((in_len != 0 || !out_len_is_null) && buf_is_null)
}

impl PluginParameters {
    /// The command identifier.
    pub closed spec fn spec_cmd(&self) -> u32 {
        self.cmd
    }

    /// The sub-command identifier.
    pub closed spec fn spec_sub_cmd(&self) -> u32 {
        self.sub_cmd
    }

    /// The bytes of the in/out buffer.
    pub closed spec fn buffer(&self) -> Seq<u8> {
        self.buf@
    }

    /// The output length the caller will read, or `None` when the caller
    /// passed no output-length pointer.
    pub closed spec fn spec_out_len(&self) -> Option<usize> {
        self.out_len
    }

    /// Builds the parameters from what the caller passed: the buffer (`None`
    /// for a null pointer) holding `in_len` bytes, and the output length
    /// (`None` for a null pointer). A null buffer is rejected with
    /// `BadParameters` when input is passed or output is expected.
    pub fn from_raw(
        cmd: u32,
        sub_cmd: u32,
        buf: Option<Vec<u8>>,
        in_len: usize,
        out_len: Option<usize>,
    ) -> (r: Result<Self>)
        requires
            buf matches Some(b) ==> b@.len() == in_len,
        ensures
            r is Ok == spec_plugin_params_accepted(buf is None, in_len, out_len is None),
            r is Err ==> r == err_of::<Self>(ErrorKind::BadParameters),
            r matches Ok(p) ==> {
                &&& p.spec_cmd() == cmd
                &&& p.spec_sub_cmd() == sub_cmd
                &&& p.buffer() == (match buf {
                    Some(b) => b@,
                    None => Seq::<u8>::empty(),
                })
                &&& p.spec_out_len() == out_len
            },
    {
        if (in_len != 0 || out_len.is_some()) && buf.is_none() {
            return Err(Error::new(ErrorKind::BadParameters));
        }
        let buf = match buf {
            None => Vec::new(),
            Some(b) => b,
        };
        Ok(PluginParameters { cmd, sub_cmd, buf, out_len })
    }

    /// Copies `sendslice` to the start of the buffer and sets the output
    /// length to its length. `BadState` when no output is expected,
    /// `ShortBuffer` when it does not fit; then nothing changes.
    pub fn set_buf_from_slice(&mut self, sendslice: &[u8]) -> (r: Result<()>)
        ensures
            old(self).spec_out_len() is None ==> r == err_of::<()>(ErrorKind::BadState)
                && *final(self) == *old(self),
            old(self).spec_out_len() is Some && sendslice@.len() > old(self).buffer().len() ==> r
                == err_of::<()>(ErrorKind::ShortBuffer) && *final(self) == *old(self),
            old(self).spec_out_len() is Some && sendslice@.len() <= old(self).buffer().len() ==> {
                &&& r is Ok
                &&& final(self).buffer() == sendslice@ + old(self).buffer().skip(
                    sendslice@.len() as int,
                )
                &&& final(self).spec_out_len() == Some(sendslice@.len() as usize)
            },
            final(self).spec_cmd() == old(self).spec_cmd(),
            final(self).spec_sub_cmd() == old(self).spec_sub_cmd(),
    {
        let _len = sendslice.len();
        let r = self.write_output_at(0, sendslice);
        proof {
            assert(old(self).buffer().take(0) + sendslice@ =~= sendslice@);
        }
        r
    }

    /// Writes `data` into the buffer at `pos` and sets the output length to
    /// `pos + data.len()`. `BadState` when no output is expected,
    /// `ShortBuffer` when it does not fit (or the end overflows); then
    /// nothing changes.
    pub fn write_output_at(&mut self, pos: usize, data: &[u8]) -> (r: Result<()>)
        ensures
            old(self).spec_out_len() is None ==> r == err_of::<()>(ErrorKind::BadState)
                && *final(self) == *old(self),
            old(self).spec_out_len() is Some && pos + data@.len() > old(self).buffer().len() ==> r
                == err_of::<()>(ErrorKind::ShortBuffer) && *final(self) == *old(self),
            old(self).spec_out_len() is Some && pos + data@.len() <= old(self).buffer().len() ==> {
                &&& r is Ok
                &&& final(self).buffer() == old(self).buffer().take(pos as int) + data@
                    + old(self).buffer().skip(pos + data@.len())
                &&& final(self).spec_out_len() == Some((pos + data@.len()) as usize)
            },
            final(self).spec_cmd() == old(self).spec_cmd(),
            final(self).spec_sub_cmd() == old(self).spec_sub_cmd(),
    {
        if self.out_len.is_none() {
            return Err(Error::new(ErrorKind::BadState));
        }
        let buf_len = self.buf.len();
        let dest_len = match pos.checked_add(data.len()) {
            Some(n) => n,
            None => return Err(Error::new(ErrorKind::ShortBuffer)),
        };
        if buf_len < dest_len {
            return Err(Error::new(ErrorKind::ShortBuffer));
        }
        let ghost b0 = self.buf@;
        let n = data.len();
        let mut i: usize = 0;
        while i < n
            invariant
                n == data@.len(),
                dest_len == pos + n,
                dest_len <= b0.len(),
                i <= n,
                self.cmd == old(self).cmd,
                self.sub_cmd == old(self).sub_cmd,
                self.out_len == old(self).out_len,
                self.buf@.len() == b0.len(),
                forall|j: int| 0 <= j < b0.len() ==> #[trigger] self.buf@[j] == if pos <= j < pos + i {
                    data@[j - pos]
                } else {
                    b0[j]
                },
            decreases n - i,
        {
            self.buf[pos + i] = data[i];
            i += 1;
        }
        assert(self.buf@ =~= b0.take(pos as int) + data@ + b0.skip(pos + n));
        self.out_len = Some(dest_len);
        Ok(())
    }

    /// The in/out buffer.
    pub fn get_buffer(&self) -> (b: &[u8])
        ensures
            b@ == self.buffer(),
    {
        self.buf.as_slice()
    }

    /// The in/out buffer, for writing in place; the caller then sets the
    /// output length with [`PluginParameters::set_out_len`].
    pub fn get_buffer_mut(&mut self) -> (b: &mut [u8])
        ensures
            b@ == old(self).buffer(),
            final(self).buffer() == final(b)@,
            final(self).spec_out_len() == old(self).spec_out_len(),
            final(self).spec_cmd() == old(self).spec_cmd(),
            final(self).spec_sub_cmd() == old(self).spec_sub_cmd(),
    {
        self.buf.as_mut_slice()
    }

    /// Sets the output length. `BadParameters` when it exceeds the buffer,
    /// `BadState` when no output is expected; then nothing changes.
    pub fn set_out_len(&mut self, out_len: usize) -> (r: Result<()>)
        ensures
            out_len > old(self).buffer().len() ==> r == err_of::<()>(ErrorKind::BadParameters)
                && *final(self) == *old(self),
            out_len <= old(self).buffer().len() && old(self).spec_out_len() is None ==> r
                == err_of::<()>(ErrorKind::BadState) && *final(self) == *old(self),
            out_len <= old(self).buffer().len() && old(self).spec_out_len() is Some ==> r is Ok
                && final(self).spec_out_len() == Some(out_len) && final(self).buffer()
                == old(self).buffer(),
            final(self).spec_cmd() == old(self).spec_cmd(),
            final(self).spec_sub_cmd() == old(self).spec_sub_cmd(),
    {
        if out_len > self.buf.len() {
            return Err(Error::new(ErrorKind::BadParameters));
        }
        match self.out_len {
            None => Err(Error::new(ErrorKind::BadState)),
            Some(_) => {
                self.out_len = Some(out_len);
                Ok(())
            },
        }
    }

    /// The output length the caller will read.
    pub fn out_len(&self) -> (n: Option<usize>)
        ensures
            n == self.spec_out_len(),
    {
        self.out_len
    }
}

/// The result code of success, `TEEC_SUCCESS`.
pub const TEEC_SUCCESS: u32 = 0;

/// The result code a plugin entry point reports for an outcome: success, or
/// the raw code of the error. Decoding failures of the parameters and
/// failures of the plugin's own function are reported alike.
pub fn result_code(r: &Result<()>) -> (code: u32)
    ensures
        code == (match r {
            Ok(_) => TEEC_SUCCESS,
            Err(e) => e.code.spec_raw_code(),
        }),
{
    match r {
        Ok(_) => TEEC_SUCCESS,
        Err(e) => e.raw_code(),
    }
}

} // verus!
