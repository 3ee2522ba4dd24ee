//! The whole-file helpers: reading a file to its end, and writing a byte
//! sequence as the whole content of a file.

use vstd::prelude::*;
use crate::error::{ErrorKind, IoError};

verus! {

/// How a file is to be opened.
#[derive(Clone, Copy, Debug, PartialEq, Eq, Structural)]
pub struct OpenMode {
    pub read: bool,
    pub write: bool,
    pub append: bool,
    pub truncate: bool,
    pub create: bool,
    pub create_new: bool,
}

impl OpenMode {
    /// Every option off.
    pub fn new() -> (r: OpenMode)
        ensures
            !r.read && !r.write && !r.append && !r.truncate && !r.create && !r.create_new,
    {
        OpenMode { read: false, write: false, append: false, truncate: false, create: false, create_new: false }
    }

    /// The mode in which the whole-file read opens: read only.
    pub fn for_whole_read() -> (r: OpenMode)
        ensures
            r.read && !r.write && !r.append && !r.truncate && !r.create && !r.create_new,
    {
        OpenMode { read: true, ..OpenMode::new() }
    }

    /// The mode in which the whole-file write opens: for writing, created
    /// when absent and emptied when present.
    pub fn for_whole_write() -> (r: OpenMode)
        ensures
            !r.read && r.write && !r.append && r.truncate && r.create && !r.create_new,
    {
        OpenMode { write: true, truncate: true, create: true, ..OpenMode::new() }
    }
}

/// The text that `b` encodes in UTF-8, or nothing when `b` is not valid UTF-8.
pub uninterp spec fn utf8_text(b: Seq<u8>) -> Option<Seq<char>>;

/// Relies on `String::from_utf8`: it gives the text that the bytes encode
/// when they are valid UTF-8, and an error otherwise; no bytes are no text.
#[verifier::external_body]
fn decode_utf8(bytes: Vec<u8>) -> (r: Option<String>)
    ensures
        utf8_text(bytes@) == (match r {
            Some(s) => Some(s@),
            None => None,
        }),
        bytes@.len() == 0 ==> r is Some && r->Some_0@.len() == 0,
{
    String::from_utf8(bytes).ok()
}

/// The result of the whole-file text read, given what decoding the bytes
/// gave: the text, or an invalid-data failure when there was none.
pub fn text_of_decoded(decoded: Option<String>) -> (r: Result<String, IoError>)
    ensures
        decoded matches Some(s) ==> r == Ok::<String, IoError>(s),
        decoded is None ==> (r matches Err(e) && e.kind == ErrorKind::InvalidData),
{
    match decoded {
        Some(s) => Ok(s),
        None => Err(IoError::new(ErrorKind::InvalidData, "stream did not contain valid UTF-8")),
    }
}

/// The bytes gathered by a whole-file read.
pub struct WholeRead {
    buffer: Vec<u8>,
}

impl View for WholeRead {
    type V = Seq<u8>;

    closed spec fn view(&self) -> Seq<u8> {
        self.buffer@
    }
}

/// What reading the chunks `chunks` in turn appends to `buffer`.
pub open spec fn read_back(buffer: Seq<u8>, chunks: Seq<Seq<u8>>) -> Seq<u8>
    decreases chunks.len(),
{
    if chunks.len() == 0 {
        buffer
    } else {
        read_back(buffer + chunks[0], chunks.drop_first())
    }
}

impl WholeRead {
    /// An empty read buffer, with room for `size_hint` bytes, the length that
    /// the file's metadata reported; a length that no buffer can hold
    /// reserves nothing, and the buffer grows as bytes come.
    pub fn with_size_hint(size_hint: u64) -> (r: WholeRead)
        ensures
            r@ == Seq::<u8>::empty(),
    {
        let capacity: usize = if size_hint <= isize::MAX as u64 { size_hint as usize } else { 0 };
        WholeRead { buffer: Vec::with_capacity(capacity) }
    }

    /// Takes the bytes of one read; an empty read is the end of the file.
    /// Returns whether the end was reached.
    pub fn accept(&mut self, chunk: &[u8]) -> (done: bool)
        ensures
            final(self)@ == old(self)@ + chunk@,
            done == (chunk@.len() == 0),
    {
        self.buffer.extend_from_slice(chunk);
        assert(self.buffer@ =~= old(self)@ + chunk@);
        chunk.len() == 0
    }

    /// The bytes read.
    pub fn into_bytes(self) -> (r: Vec<u8>)
        ensures
            r@ == self@,
    {
        self.buffer
    }

    /// The bytes read, as text: an invalid-data failure when they are not
    /// valid UTF-8.
    pub fn into_text(self) -> (r: Result<String, IoError>)
        ensures
            r is Ok <==> utf8_text(self@) is Some,
            r matches Ok(s) ==> utf8_text(self@) == Some(s@),
            r matches Err(e) ==> e.kind == ErrorKind::InvalidData,
    {
        text_of_decoded(decode_utf8(self.buffer))
    }
}

/// The progress of a whole-file write: the content, and how much of it the
/// file has taken.
pub struct WriteState {
    pub content: Seq<u8>,
    pub written: nat,
}

/// The state after the file took `n` more bytes.
pub open spec fn write_after(w: WriteState, n: nat) -> WriteState {
    WriteState { written: w.written + n, ..w }
}

/// A whole-file write in progress.
///
/// The driver hands [`WholeWrite::pending`] to the file, reports how many
/// bytes it took with [`WholeWrite::record_written`], and stops when
/// [`WholeWrite::is_done`] holds.
pub struct WholeWrite {
    content: Vec<u8>,
    written: usize,
}

impl View for WholeWrite {
    type V = WriteState;

    closed spec fn view(&self) -> WriteState {
        WriteState { content: self.content@, written: self.written as nat }
    }
}

impl WholeWrite {
    /// The write is well formed when the file has taken no more than the content.
    pub closed spec fn wf(&self) -> bool {
        self.written <= self.content@.len()
    }

    /// A write of `content`, before the file has taken anything.
    pub fn new(content: &[u8]) -> (r: WholeWrite)
        ensures
            r.wf(),
            r@ == (WriteState { content: content@, written: 0 }),
    {
        let mut v: Vec<u8> = Vec::new();
        v.extend_from_slice(content);
        assert(v@ =~= content@);
        WholeWrite { content: v, written: 0 }
    }

    /// Whether the file has taken all of the content.
    pub fn is_done(&self) -> (r: bool)
        requires
            self.wf(),
        ensures
            r == (self@.written == self@.content.len()),
    {
        self.written == self.content.len()
    }

    /// The bytes that the file has yet to take.
    pub fn pending(&self) -> (r: &[u8])
        requires
            self.wf(),
        ensures
            r@ == self@.content.skip(self@.written as int),
    {
        let r = vstd::slice::slice_subrange(self.content.as_slice(), self.written, self.content.len());
        assert(r@ =~= self@.content.skip(self@.written as int));
        r
    }

    /// Records that the file took the first `n` pending bytes. A file that
    /// takes nothing while bytes are pending fails the write with a
    /// write-zero failure. Returns whether the whole content is written.
    pub fn record_written(&mut self, n: usize) -> (r: Result<bool, IoError>)
        requires
            old(self).wf(),
            n <= old(self)@.content.len() - old(self)@.written,
        ensures
            final(self).wf(),
            n == 0 && old(self)@.written < old(self)@.content.len() ==> (r matches Err(e)
                && e.kind == ErrorKind::WriteZero && final(self)@ == old(self)@),
            !(n == 0 && old(self)@.written < old(self)@.content.len()) ==> (r matches Ok(done)
                && final(self)@ == write_after(old(self)@, n as nat)
                && done == (final(self)@.written == final(self)@.content.len())),
    {
        let len = self.content.len();
        if n == 0 && self.written < len {
            Err(IoError::new(ErrorKind::WriteZero, "failed to write whole buffer"))
        } else {
            self.written = self.written + n;
            Ok(self.written == len)
        }
    }
}

/// The pieces that a whole-file write hands to the file, from offset `from`
/// on, when the file takes `sizes` bytes in turn.
pub open spec fn write_pieces(content: Seq<u8>, from: nat, sizes: Seq<nat>) -> Seq<Seq<u8>>
    decreases sizes.len(),
{
    if sizes.len() == 0 {
        seq![]
    } else {
        seq![content.subrange(from as int, (from + sizes[0]) as int)] + write_pieces(content, from + sizes[0], sizes.drop_first())
    }
}

/// The number of bytes in all of `sizes`.
pub open spec fn total(sizes: Seq<nat>) -> nat
    decreases sizes.len(),
{
    if sizes.len() == 0 {
        0
    } else {
        sizes[0] + total(sizes.drop_first())
    }
}

/// The bytes of all `chunks`, one after the other.
pub open spec fn concat(chunks: Seq<Seq<u8>>) -> Seq<u8>
    decreases chunks.len(),
{
    if chunks.len() == 0 {
        seq![]
    } else {
        chunks[0] + concat(chunks.drop_first())
    }
}

proof fn lemma_pieces_cover(content: Seq<u8>, from: nat, sizes: Seq<nat>)
    requires
        from + total(sizes) <= content.len(),
    ensures
        concat(write_pieces(content, from, sizes)) == content.subrange(from as int, (from + total(sizes)) as int),
    decreases sizes.len(),
{
    if sizes.len() == 0 {
        assert(content.subrange(from as int, from as int) =~= Seq::<u8>::empty());
    } else {
        let rest = sizes.drop_first();
        lemma_pieces_cover(content, from + sizes[0], rest);
        let ps = write_pieces(content, from, sizes);
        assert(ps[0] == content.subrange(from as int, (from + sizes[0]) as int));
        assert(ps.drop_first() =~= write_pieces(content, from + sizes[0], rest));
        assert(content.subrange(from as int, (from + sizes[0]) as int) + content.subrange((from + sizes[0]) as int, (from + sizes[0] + total(rest)) as int)
            =~= content.subrange(from as int, (from + total(sizes)) as int));
    }
}

proof fn lemma_read_back(buffer: Seq<u8>, chunks: Seq<Seq<u8>>)
    ensures
        read_back(buffer, chunks) == buffer + concat(chunks),
    decreases chunks.len(),
{
    if chunks.len() == 0 {
        assert(buffer + concat(chunks) =~= buffer);
    } else {
        lemma_read_back(buffer + chunks[0], chunks.drop_first());
        assert(buffer + chunks[0] + concat(chunks.drop_first()) =~= buffer + concat(chunks));
    }
}

/// Writing `content` with the whole-file write, the file taking `sizes`
/// bytes in turn until all is written, and reading the file back with the
/// whole-file read, in whatever chunks the reads give the stored bytes,
/// yields `content` byte for byte.
pub proof fn lemma_write_read_round_trip(content: Seq<u8>, sizes: Seq<nat>, chunks: Seq<Seq<u8>>)
    requires
        total(sizes) == content.len(),
        concat(chunks) == concat(write_pieces(content, 0, sizes)),
    ensures
        read_back(Seq::empty(), chunks) == content,
{
    lemma_pieces_cover(content, 0, sizes);
    lemma_read_back(Seq::empty(), chunks);
    assert(content.subrange(0, content.len() as int) =~= content);
    assert(Seq::<u8>::empty() + concat(chunks) =~= concat(chunks));
}

} // verus!
