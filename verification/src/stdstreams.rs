//! Stream provisioning over the process's standard handles: a marker for
//! binding output to genuine stdout, and a buffered, repeatable substitute
//! for the single-pass primary input.

use std::rc::Rc;
use vstd::prelude::*;

use vstd::slice::slice_to_vec;
use vstd::string::StringSliceAdditionalSpecFns;

verus! {

/// Recoverable failures of a stream operation.
#[derive(Clone, Copy, Debug, PartialEq, Eq, Structural)]
pub enum StreamError {
    SeekOutOfRange,
}

/// Tri-state answer of a stream provider: a handle, "this provider does not
/// serve this request" (the host tries the next provider), or a hard
/// failure.
pub enum StreamOpen<T> {
    Opened(T),
    NotApplicable,
    Failed,
}

/// GenuineStdoutIo marks the provider that binds the "stdout" output
/// request to the process's real standard output; the binding itself is
/// performed by the host around this library.
#[derive(Clone, Copy, Debug, PartialEq, Eq, Structural)]
pub struct GenuineStdoutIo {}

impl GenuineStdoutIo {
    pub fn new() -> (r: GenuineStdoutIo)
        ensures
            r == (GenuineStdoutIo {  }),
    {
        GenuineStdoutIo {  }
    }
}

/// Relies on `Rc::clone`: yields a second handle to the same allocation,
/// equal in value to the first.
#[verifier::external_body]
fn rc_share(data: &Rc<Vec<u8>>) -> (r: Rc<Vec<u8>>)
    ensures
        r == *data,
{
    Rc::clone(data)
}

/// A reference-counted, immutable byte sequence; several cursors may share
/// one buffer, each with an independent position.
pub struct SharedByteBuffer(Rc<Vec<u8>>);

impl View for SharedByteBuffer {
    type V = Seq<u8>;

    closed spec fn view(&self) -> Seq<u8> {
        self.0@
    }
}

impl SharedByteBuffer {
    pub fn new(data: Vec<u8>) -> (r: SharedByteBuffer)
        ensures
            r@ == data@,
    {
        SharedByteBuffer(Rc::new(data))
    }

    /// A second handle to the same bytes, without copying them.
    pub fn share(&self) -> (r: SharedByteBuffer)
        ensures
            r@ == self@,
    {
        SharedByteBuffer(rc_share(&self.0))
    }

    /// The shared bytes themselves.
    pub fn bytes(&self) -> (r: &Vec<u8>)
        ensures
            r@ == self@,
    {
        &*self.0
    }
}

/// Where a seek starts from.
#[derive(Clone, Copy, Debug, PartialEq, Eq, Structural)]
pub enum SeekAt {
    Start(u64),
    End(i64),
    Current(i64),
}

/// The state of one read cursor: the bytes it ranges over and its
/// position, which may sit past the end (reads from there are empty).
pub struct CursorModel {
    pub contents: Seq<u8>,
    pub pos: int,
}

/// A cursor just opened over a buffer: positioned at the start.
pub open spec fn fresh_cursor(contents: Seq<u8>) -> CursorModel {
    CursorModel { contents, pos: 0 }
}

/// The bytes a full read from the current position yields.
pub open spec fn remaining_of(c: CursorModel) -> Seq<u8> {
    if c.pos <= c.contents.len() {
        c.contents.skip(c.pos)
    } else {
        Seq::empty()
    }
}

/// The absolute position a seek request names.
pub open spec fn seek_target(c: CursorModel, whence: SeekAt) -> int {
    match whence {
        SeekAt::Start(n) => n as int,
        SeekAt::End(d) => c.contents.len() + d,
        SeekAt::Current(d) => c.pos + d,
    }
}

/// A seek moves only the position, and only when the target is
/// representable; the bytes under the cursor never change.
pub open spec fn cursor_after_seek(c: CursorModel, whence: SeekAt) -> CursorModel {
    let target = seek_target(c, whence);
    if 0 <= target <= usize::MAX {
        CursorModel { contents: c.contents, pos: target }
    } else {
        c
    }
}

/// An independent read cursor over a shared byte buffer, supporting size
/// queries, arbitrary seeks and reads to completion.
pub struct InputCursor {
    buffer: SharedByteBuffer,
    pos: usize,
}

impl View for InputCursor {
    type V = CursorModel;

    closed spec fn view(&self) -> CursorModel {
        CursorModel { contents: self.buffer@, pos: self.pos as int }
    }
}

impl InputCursor {
    /// Open a fresh cursor over a shared buffer.
    pub fn open(buffer: &SharedByteBuffer) -> (r: InputCursor)
        ensures
            r@ == fresh_cursor(buffer@),
    {
        InputCursor { buffer: buffer.share(), pos: 0 }
    }

    /// The total size of the underlying byte sequence.
    pub fn get_size(&self) -> (n: usize)
        ensures
            n == self@.contents.len(),
    {
        self.buffer.bytes().len()
    }

    /// Seek to an arbitrary offset. A target outside the representable
    /// range is refused and leaves the position unchanged.
    pub fn try_seek(&mut self, whence: SeekAt) -> (r: Result<u64, StreamError>)
        ensures
            final(self)@ == cursor_after_seek(old(self)@, whence),
            ({
                let target = seek_target(old(self)@, whence);
                if 0 <= target <= usize::MAX {
                    r == Ok::<u64, StreamError>(target as u64)
                } else {
                    r == Err::<u64, StreamError>(StreamError::SeekOutOfRange)
                }
            }),
    {
        let size = self.buffer.bytes().len();
        let (base, delta): (u64, i64) = match whence {
            SeekAt::Start(n) => (n, 0i64),
            SeekAt::End(d) => (size as u64, d),
            SeekAt::Current(d) => (self.pos as u64, d),
        };
        let target: i128 = base as i128 + delta as i128;
        if 0 <= target && target <= usize::MAX as i128 {
            self.pos = target as usize;
            Ok(target as u64)
        } else {
            Err(StreamError::SeekOutOfRange)
        }
    }

    /// Read every byte from the current position to the end, leaving the
    /// cursor at the end.
    pub fn read_remaining(&mut self) -> (r: Vec<u8>)
        ensures
            r@ == remaining_of(old(self)@),
            final(self)@.contents == old(self)@.contents,
            final(self)@.pos == old(self)@.contents.len(),
    {
        let data = self.buffer.bytes();
        let size = data.len();
        let mut out: Vec<u8> = Vec::new();
        let mut i: usize = if self.pos < size {
            self.pos
        } else {
            size
        };
        let start: usize = i;
        while i < size
            invariant
                start <= i <= size,
                data@ == self@.contents,
                size == data@.len(),
                out@ == self@.contents.subrange(start as int, i as int),
            decreases size - i,
        {
            out.push(data[i]);
            i = i + 1;
        }
        proof {
            if old(self)@.pos <= old(self)@.contents.len() {
                assert(out@ =~= old(self)@.contents.skip(old(self)@.pos));
            } else {
                assert(out@ =~= Seq::<u8>::empty());
            }
        }
        self.pos = size;
        out
    }
}

/// BufferedPrimaryIo serves the "primary input" request from one eagerly
/// buffered byte sequence, so an inherently single-pass source can be
/// opened and read any number of times.
pub struct BufferedPrimaryIo {
    buffer: SharedByteBuffer,
}

impl View for BufferedPrimaryIo {
    type V = Seq<u8>;

    closed spec fn view(&self) -> Seq<u8> {
        self.buffer@
    }
}

impl BufferedPrimaryIo {
    /// Buffer an already-read byte sequence as the primary input.
    pub fn from_bytes(data: Vec<u8>) -> (r: BufferedPrimaryIo)
        ensures
            r@ == data@,
    {
        BufferedPrimaryIo { buffer: SharedByteBuffer::new(data) }
    }

    /// Buffer a text as the primary input, encoded as its UTF-8 bytes.
    pub fn from_text(text: &str) -> (r: BufferedPrimaryIo)
        ensures
            r@ == text.spec_bytes(),
    {
        BufferedPrimaryIo { buffer: SharedByteBuffer::new(slice_to_vec(text.as_bytes())) }
    }

    /// Open the primary input: always served, as a fresh cursor over the
    /// same shared buffer, positioned at the start.
    pub fn input_open_primary(&mut self) -> (r: StreamOpen<InputCursor>)
        ensures
            final(self)@ == old(self)@,
            r matches StreamOpen::Opened(c) && c@ == fresh_cursor(old(self)@),
    {
        StreamOpen::Opened(InputCursor::open(&self.buffer))
    }
}

/// Law: the primary input is repeatable. Two cursors freshly opened over
/// the same buffered bytes each read back exactly those bytes in full, so
/// their reads agree; and a seek transforms only the cursor it is applied
/// to, never touching the bytes both cursors share.
pub proof fn lemma_repeatable_primary(
    contents: Seq<u8>,
    c1: CursorModel,
    c2: CursorModel,
    whence: SeekAt,
)
    requires
        c1 == fresh_cursor(contents),
        c2 == fresh_cursor(contents),
    ensures
        remaining_of(c1) == contents,
        remaining_of(c1) == remaining_of(c2),
        cursor_after_seek(c1, whence).contents == c2.contents,
{
    assert(remaining_of(c1) =~= contents);
}

} // verus!
