//! Named input and output handles: a stream together with the name under
//! which diagnostics show it.
use vstd::prelude::*;

verus! {

/// The name of a standard stream.
pub open spec fn standard_name() -> Seq<char> {
    "-"@
}

/// The stream behind a handle: the process's standard stream, or an opened
/// file.
#[derive(Debug)]
pub enum Stream<F> {
    /// Standard input or standard output.
    Standard,
    /// A file that was opened for this handle.
    File(F),
}

/// Wrapper of a readable stream with name.
#[derive(Debug)]
pub struct NamedRead<F> {
    /// The name of the file.
    pub name: String,
    /// The stream that we're wrapping.
    pub stream: Stream<F>,
}

impl<F> NamedRead<F> {
    /// Wraps a file that was opened for reading at `filename`.
    pub fn new(filename: &str, file: F) -> (r: Self)
        ensures
            r.name@ == filename@,
            r.stream == Stream::File(file),
    {
        NamedRead { name: filename.to_owned(), stream: Stream::File(file) }
    }

    /// Create from stdin.
    ///
    /// The filename is `-`.
    pub fn stdin() -> (r: Self)
        ensures
            r.name@ == standard_name(),
            r.stream is Standard,
    {
        NamedRead { name: "-".to_owned(), stream: Stream::Standard }
    }

    /// Whether the handle reads standard input.
    pub fn is_standard(&self) -> (r: bool)
        ensures
            r == self.stream is Standard,
    {
        match self.stream {
            Stream::Standard => true,
            Stream::File(_) => false,
        }
    }
}

/// Wrapper of a writable stream with name.
#[derive(Debug)]
pub struct NamedWrite<F> {
    /// The name of the file.
    pub name: String,
    /// The stream that we're wrapping.
    pub stream: Stream<F>,
}

impl<F> NamedWrite<F> {
    /// Wraps a file that was created (or truncated) for writing at `filename`.
    pub fn new(filename: &str, file: F) -> (r: Self)
        ensures
            r.name@ == filename@,
            r.stream == Stream::File(file),
    {
        NamedWrite { name: filename.to_owned(), stream: Stream::File(file) }
    }

    /// Create from stdout.
    ///
    /// The filename is `-`.
    pub fn stdout() -> (r: Self)
        ensures
            r.name@ == standard_name(),
            r.stream is Standard,
    {
        NamedWrite { name: "-".to_owned(), stream: Stream::Standard }
    }

    /// Whether the handle writes standard output.
    pub fn is_standard(&self) -> (r: bool)
        ensures
            r == self.stream is Standard,
    {
        match self.stream {
            Stream::Standard => true,
            Stream::File(_) => false,
        }
    }
}

} // verus!
