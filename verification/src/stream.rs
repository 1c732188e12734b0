//! Where frames go: the terminal, or a buffer in memory.

use vstd::prelude::*;

verus! {

/// The handle of the process's standard output.
#[verifier::external_type_specification]
#[verifier::external_body]
pub struct ExStdout(std::io::Stdout);

/// The error of an input or output operation of the standard library.
#[verifier::external_type_specification]
#[verifier::external_body]
pub struct ExIoError(std::io::Error);

/// A destination for frames.
pub enum OutStream {
    /// Standard output.
    SOut(std::io::Stdout),
    /// A buffer in memory.
    Vector(Vec<u8>),
}

/// A destination for frames as a plain value.
pub enum OutStreamView {
    /// Standard output.
    Terminal,
    /// A buffer in memory that holds these bytes.
    Memory(Seq<u8>),
}

impl View for OutStream {
    type V = OutStreamView;

    open spec fn view(&self) -> OutStreamView {
        match self {
            OutStream::SOut(_) => OutStreamView::Terminal,
            OutStream::Vector(bytes) => OutStreamView::Memory(bytes@),
        }
    }
}

/// Asks crossterm's `IsTty::is_tty` whether standard output is a terminal.
/// The answer depends on how the process was started, so nothing is claimed
/// of it.
#[verifier::external_body]
fn stdout_is_tty(out: &std::io::Stdout) -> (tty: bool) {
    crossterm::tty::IsTty::is_tty(out)
}

/// Calls `Write::write` of the standard library on standard output. As the
/// trait promises, a successful write reports no more bytes than it was
/// given.
#[verifier::external_body]
fn stdout_write(out: &mut std::io::Stdout, buf: &[u8]) -> (res: Result<usize, std::io::Error>)
    ensures
        res is Ok ==> res->Ok_0 <= buf@.len(),
{
    std::io::Write::write(out, buf)
}

/// Calls `Write::flush` of the standard library on standard output. Nothing
/// is claimed of the outcome.
#[verifier::external_body]
fn stdout_flush(out: &mut std::io::Stdout) -> (res: Result<(), std::io::Error>) {
    std::io::Write::flush(out)
}

impl OutStream {
    /// Tells whether the stream is a terminal. A buffer in memory never is.
    pub fn is_tty(&self) -> (tty: bool)
        ensures
            self@ is Memory ==> !tty,
    {
        match self {
            OutStream::SOut(out) => stdout_is_tty(out),
            OutStream::Vector(_) => false,
        }
    }

    /// Writes `buf` to the stream. A buffer in memory takes all of it at its
    /// end and never fails. Standard output may take less or fail; the kind
    /// of stream stays.
    pub fn write(&mut self, buf: &[u8]) -> (res: Result<usize, std::io::Error>)
        ensures
            old(self)@ matches OutStreamView::Memory(bytes) ==> res is Ok && res->Ok_0
                == buf@.len() && final(self)@ == OutStreamView::Memory(bytes + buf@),
            old(self)@ is Terminal ==> final(self)@ is Terminal && (res is Ok ==> res->Ok_0
                <= buf@.len()),
    {
        match self {
            OutStream::SOut(out) => stdout_write(out, buf),
            OutStream::Vector(bytes) => {
                let ghost before = bytes@;
                bytes.extend_from_slice(buf);
                assert(bytes@ =~= before + buf@);
                Ok(buf.len())
            },
        }
    }

    /// Flushes the stream. For a buffer in memory there is nothing to do.
    pub fn flush(&mut self) -> (res: Result<(), std::io::Error>)
        ensures
            final(self)@ == old(self)@,
            old(self)@ is Memory ==> res is Ok,
    {
        match self {
            OutStream::SOut(out) => stdout_flush(out),
            OutStream::Vector(_) => Ok(()),
        }
    }
}

impl From<std::io::Stdout> for OutStream {
    fn from(s: std::io::Stdout) -> (out: OutStream) {
        OutStream::SOut(s)
    }
}

impl vstd::std_specs::convert::FromSpecImpl<std::io::Stdout> for OutStream {
    open spec fn obeys_from_spec() -> bool {
        true
    }

    open spec fn from_spec(s: std::io::Stdout) -> OutStream {
        OutStream::SOut(s)
    }
}

} // verus!
