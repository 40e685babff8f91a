use vstd::prelude::*;
use crate::error::StreamError;

verus! {

/// Transport kind of a resolved media source.
#[derive(Clone, Copy, Debug, PartialEq, Eq, Structural)]
pub enum StreamKind {
    /// A single chunked HTTP body.
    Chunked,
    /// An HLS playlist.
    Hls,
}

/// A resolved media source: exactly one transport kind and the URL to request.
#[derive(Clone, Debug)]
pub struct StreamEndpoint {
    pub kind: StreamKind,
    pub url: String,
}

/// The URL that an endpoint requests, whatever its transport kind.
pub fn stream_type_to_url(stream: StreamEndpoint) -> (r: String)
    ensures
        r@ == stream.url@,
{
    match stream.kind {
        StreamKind::Chunked => stream.url,
        StreamKind::Hls => stream.url,
    }
}

/// What the transfer of a stream to its destination reports next.
#[derive(Clone, Debug)]
pub enum WriteEvent {
    /// This many bytes were written to the destination.
    Chunk(u64),
    /// The stream ended normally.
    End,
    /// The network or the file system failed.
    Failed(StreamError),
}

/// What the writer does after an event.
#[derive(Clone, Debug)]
pub enum WriteStep {
    /// Keep copying; the running byte total.
    Continue(u64),
    /// The transfer is complete; the total bytes written.
    Finished(u64),
    /// The transfer is aborted with the underlying error; the partial file stays.
    Aborted(StreamError),
}

/// One step of the single sequential copy: adds a chunk to the total, ends with
/// the total, or surfaces the failure unchanged (no retry, no resumption).
pub fn write_step(written: u64, event: WriteEvent) -> (r: WriteStep)
    requires
        event matches WriteEvent::Chunk(n) ==> written + n <= u64::MAX,
    ensures
        event matches WriteEvent::Chunk(n) ==> r == WriteStep::Continue((written + n) as u64),
        event is End ==> r == WriteStep::Finished(written),
        event matches WriteEvent::Failed(e) ==> r == WriteStep::Aborted(e),
{
    match event {
        WriteEvent::Chunk(n) => WriteStep::Continue(written + n),
        WriteEvent::End => WriteStep::Finished(written),
        WriteEvent::Failed(e) => WriteStep::Aborted(e),
    }
}

} // verus!
