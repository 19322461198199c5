//! The tally of one file that is being written.

use vstd::prelude::*;
use crate::bytes::ByteCount;

verus! {

/// A file that is being written at one path. It counts the bytes that have
/// reached it. It ends in one of two ways: finalized, which gives the size
/// of the file that now stands at the path, or discarded, which gives the
/// path of the partial file that is to be deleted.
#[derive(Debug)]
pub struct FileSink {
    path: String,
    size: ByteCount,
}

/// A sink as plain values.
pub struct FileSinkView {
    pub path: Seq<char>,
    pub size: ByteCount,
}

impl View for FileSink {
    type V = FileSinkView;

    closed spec fn view(&self) -> FileSinkView {
        FileSinkView { path: self.path@, size: self.size }
    }
}

impl FileSink {
    /// The sink for a file that has just been created at `path`.
    pub fn new(path: String) -> (r: FileSink)
        ensures
            r@ == (FileSinkView { path: path@, size: ByteCount(0) }),
    {
        FileSink { path, size: ByteCount(0) }
    }

    /// The path of the file.
    pub fn path(&self) -> (r: &str)
        ensures
            r@ == self@.path,
    {
        self.path.as_str()
    }

    /// The number of bytes written so far.
    pub fn size(&self) -> (r: ByteCount)
        ensures
            r == self@.size,
    {
        self.size
    }

    /// Whether `len` more bytes can be counted in a machine word.
    pub fn fits(&self, len: usize) -> (r: bool)
        ensures
            r == (self@.size@ + len <= usize::MAX),
    {
        self.size.checked_add(ByteCount(len)).is_some()
    }

    /// Counts `len` bytes that have been written to the file.
    pub fn write(&mut self, len: usize)
        requires
            old(self)@.size@ + len <= usize::MAX,
        ensures
            final(self)@ == (FileSinkView {
                size: ByteCount((old(self)@.size@ + len) as usize),
                ..old(self)@
            }),
    {
        self.size.add_assign(ByteCount(len));
    }

    /// Ends the sink once the file has been flushed: the size of the file.
    pub fn finalize(self) -> (r: ByteCount)
        ensures
            r == self@.size,
    {
        self.size
    }

    /// Ends the sink before the file is whole: the path of the partial
    /// file, which must not stay.
    pub fn discard(self) -> (r: String)
        ensures
            r@ == self@.path,
    {
        self.path
    }
}

} // verus!
