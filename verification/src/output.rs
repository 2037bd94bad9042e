//! The destination of the result: a file, or standard output.
//!
//! The device gathers what is written to it; whoever owns the file or the stream
//! takes the bytes from it and writes them out.

use crate::text::copy_of;
use vstd::prelude::*;

verus! {

/// The byte that ends a line.
pub const NEWLINE: u8 = 0x0a;

/// The destination that the result or the response is written to, and nothing else.
#[derive(Debug, PartialEq, Eq)]
pub struct OutputDevice {
    path: Option<String>,
    written: Vec<u8>,
}

impl View for OutputDevice {
    type V = Seq<u8>;

    /// The bytes written to the device so far, first to last.
    closed spec fn view(&self) -> Seq<u8> {
        self.written@
    }
}

impl OutputDevice {
    /// The path of the file that the device stands for; `None` is standard output.
    pub closed spec fn path(&self) -> Option<Seq<char>> {
        self.path.deep_view()
    }

    /// A device for the file at `output_dest`, or for standard output where no
    /// path is given. Nothing is written to it yet.
    pub fn new(output_dest: &Option<String>) -> (device: OutputDevice)
        ensures
            device@ == Seq::<u8>::empty(),
            device.path() == output_dest.deep_view(),
    {
        OutputDevice { path: copy_of(output_dest), written: Vec::new() }
    }

    /// Appends `bytes`.
    pub fn write(&mut self, bytes: &[u8])
        ensures
            final(self)@ == old(self)@ + bytes@,
            final(self).path() == old(self).path(),
    {
        let mut i: usize = 0;
        while i < bytes.len()
            invariant
                i <= bytes.len(),
                self.path == old(self).path,
                self.written@ == old(self).written@ + bytes@.take(i as int),
            decreases bytes.len() - i,
        {
            self.written.push(bytes[i]);
            assert(bytes@.take(i + 1) =~= bytes@.take(i as int).push(bytes@[i as int]));
            i = i + 1;
        }
        assert(bytes@.take(bytes.len() as int) =~= bytes@);
    }

    /// Appends `bytes`, then one newline.
    pub fn writeln(&mut self, bytes: &[u8])
        ensures
            final(self)@ == old(self)@ + bytes@ + seq![NEWLINE],
            final(self).path() == old(self).path(),
    {
        self.write(bytes);
        self.written.push(NEWLINE);
        assert(self.written@ =~= old(self).written@ + bytes@ + seq![NEWLINE]);
    }

    /// The path of the file that the device stands for, if it stands for one.
    pub fn file_path(&self) -> (path: &Option<String>)
        ensures
            path.deep_view() == self.path(),
    {
        &self.path
    }

    /// The bytes written so far.
    pub fn bytes(&self) -> (bytes: &[u8])
        ensures
            bytes@ == self@,
    {
        self.written.as_slice()
    }

    /// Hands out the bytes written so far and keeps none of them.
    pub fn take(&mut self) -> (bytes: Vec<u8>)
        ensures
            bytes@ == old(self)@,
            final(self)@ == Seq::<u8>::empty(),
            final(self).path() == old(self).path(),
    {
        let mut bytes: Vec<u8> = Vec::new();
        std::mem::swap(&mut self.written, &mut bytes);
        bytes
    }
}

} // verus!
