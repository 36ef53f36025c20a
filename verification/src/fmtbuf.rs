//! A fixed buffer of eighty bytes that text is appended to.
//!
//! Text that does not fit is cut at the last free byte; nothing is ever
//! written past the end and nothing fails. The cut may fall inside a
//! character, which leaves bytes that are no text.

use vstd::prelude::*;
use vstd::slice::slice_subrange;
use vstd::string::StringSliceAdditionalSpecFns;
use vstd::utf8::{encode_utf8_valid_utf8, valid_utf8, valid_utf8_concat};

verus! {

/// Number of bytes that a buffer holds.
pub const CAPACITY: usize = 80;

/// `core::str::Utf8Error`: why bytes are no text. Nothing is read from it.
#[verifier::external_type_specification]
#[verifier::external_body]
pub struct ExUtf8Error(core::str::Utf8Error);

/// `core::fmt::Error`: the error of a formatting sink. Writing to a buffer
/// never gives one.
#[verifier::external_type_specification]
#[verifier::external_body]
pub struct ExFmtError(core::fmt::Error);

/// `core::str::from_utf8`: the bytes as text when they are well-formed UTF-8,
/// and an error when they are not. The text has exactly the bytes given.
pub assume_specification[ core::str::from_utf8 ](v: &[u8]) -> (out: Result<
    &str,
    core::str::Utf8Error,
>)
    ensures
        out is Ok <==> valid_utf8(v@),
        out matches Ok(text) ==> text.spec_bytes() == v@,
;

/// The number of bytes of `text` that go into a buffer with `free` bytes left.
pub open spec fn taken(free: nat, text: Seq<u8>) -> nat {
    if text.len() <= free {
        text.len()
    } else {
        free
    }
}

/// The buffer: eighty bytes of storage and the count of bytes written.
pub struct FmtBuf {
    buf: [u8; 80],
    ptr: usize,
}

impl View for FmtBuf {
    type V = Seq<u8>;

    /// The bytes written so far.
    closed spec fn view(&self) -> Seq<u8> {
        self.buf@.subrange(0, self.filled() as int)
    }
}

impl FmtBuf {
    /// All eighty bytes of storage, written or not.
    pub closed spec fn storage(&self) -> Seq<u8> {
        self.buf@
    }

    /// The number of bytes written so far.
    pub closed spec fn filled(&self) -> nat {
        if self.ptr <= CAPACITY {
            self.ptr as nat
        } else {
            CAPACITY as nat
        }
    }

    #[verifier::type_invariant]
    spec fn within(&self) -> bool {
        self.ptr <= CAPACITY
    }

    /// What holds of every buffer: the storage has eighty bytes, and the
    /// written bytes are its head.
    pub proof fn lemma_view(&self)
        ensures
            self.storage().len() == CAPACITY,
            self.filled() <= CAPACITY,
            self@ == self.storage().subrange(0, self.filled() as int),
            self@.len() == self.filled(),
    {
    }

    /// An empty buffer over zeroed storage.
    pub fn new() -> (out: FmtBuf)
        ensures
            out.filled() == 0,
            out@ == Seq::<u8>::empty(),
            out.storage() == Seq::new(CAPACITY as nat, |i: int| 0u8),
    {
        let out = FmtBuf { buf: [0u8;80], ptr: 0 };
        assert(out.buf@ =~= Seq::new(CAPACITY as nat, |i: int| 0u8));
        out
    }

    /// Forgets what was written. The storage keeps its bytes.
    pub fn reset(&mut self)
        ensures
            final(self).filled() == 0,
            final(self)@ == Seq::<u8>::empty(),
            final(self).storage() == old(self).storage(),
    {
        self.ptr = 0;
    }

    /// The bytes written so far.
    pub fn bytes(&self) -> (out: &[u8])
        ensures
            out@ == self@,
    {
        proof {
            use_type_invariant(self);
        }
        slice_subrange(self.buf.as_slice(), 0, self.ptr)
    }

    /// The written bytes as text, where they are text.
    pub fn checked_str(&self) -> (out: Option<&str>)
        ensures
            out is Some <==> valid_utf8(self@),
            out matches Some(text) ==> text.spec_bytes() == self@,
    {
        match core::str::from_utf8(self.bytes()) {
            Ok(text) => Some(text),
            Err(_) => None,
        }
    }

    /// The written bytes as text.
    pub fn str(&self) -> (out: &str)
        requires
            valid_utf8(self@),
        ensures
            out.spec_bytes() == self@,
    {
        match core::str::from_utf8(self.bytes()) {
            Ok(text) => text,
            Err(_) => vstd::pervasive::unreached(),
        }
    }

    /// The whole storage, to be filled from outside. The count of written
    /// bytes stays as it is.
    pub fn buffer(&mut self) -> (out: &mut [u8])
        ensures
            out@ == old(self).storage(),
            final(self).storage() == final(out)@,
            final(self).filled() == old(self).filled(),
    {
        proof {
            use_type_invariant(&*self);
        }
        &mut self.buf
    }

    /// Appends the bytes of `text` as far as they fit, and never fails.
    pub fn write_str(&mut self, text: &str) -> (out: core::fmt::Result)
        ensures
            out is Ok,
            final(self).filled() == old(self).filled() + taken(
                (CAPACITY - old(self).filled()) as nat,
                text.spec_bytes(),
            ),
            final(self)@ == old(self)@ + text.spec_bytes().take(
                taken((CAPACITY - old(self).filled()) as nat, text.spec_bytes()) as int,
            ),
            forall|i: int|
                final(self).filled() <= i < CAPACITY ==> final(self).storage()[i] == old(
                    self,
                ).storage()[i],
            (valid_utf8(old(self)@) && text.spec_bytes().len() <= CAPACITY - old(self).filled())
                ==> valid_utf8(final(self)@),
    {
        proof {
            use_type_invariant(&*self);
        }
        let source = text.as_bytes();
        let rest_len = CAPACITY - self.ptr;
        let len = if rest_len < source.len() {
            rest_len
        } else {
            source.len()
        };
        let start = self.ptr;
        let mut i: usize = 0;
        while i < len
            invariant
                i <= len,
                start + len <= CAPACITY,
                len <= source@.len(),
                self.ptr == start,
                start == old(self).ptr,
                forall|k: int| 0 <= k < start ==> self.buf@[k] == old(self).buf@[k],
                forall|k: int| 0 <= k < i ==> self.buf@[start + k] == source@[k],
                forall|k: int| start + i <= k < CAPACITY ==> self.buf@[k] == old(self).buf@[k],
            decreases len - i,
        {
            self.buf[start + i] = source[i];
            i += 1;
        }
        self.ptr = start + len;
        proof {
            let added = text.spec_bytes().take(len as int);
            assert(self@ =~= old(self)@ + added);
            if valid_utf8(old(self)@) && text.spec_bytes().len() <= CAPACITY - old(self).filled() {
                assert(added =~= text.spec_bytes());
                encode_utf8_valid_utf8(text@);
                valid_utf8_concat(old(self)@, added);
            }
        }
        Ok(())
    }
}

} // verus!
