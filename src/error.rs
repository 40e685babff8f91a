use vstd::prelude::*;

verus! {

/// Which piece of metadata could not be extracted from a URL or a page.
#[derive(Clone, Copy, Debug, PartialEq, Eq, Structural)]
pub enum MetadataFault {
    /// The URL holds no `/<digits>` room identifier.
    RoomId,
    /// The landing page holds no embedded host-info blob.
    HostInfo,
    /// The embedded blob did not decode into room metadata.
    Malformed,
}

/// The error taxonomy of site resolution and stream download.
#[derive(Clone, Debug)]
pub enum StreamError {
    /// No registered pattern matched the input, nor its redirect target.
    UnsupportedSite,
    /// A room id or the embedded metadata blob was missing or unreadable.
    MetadataExtraction(MetadataFault),
    /// A transport-level failure, with the transport's message.
    Network(String),
    /// The room is not live.
    StreamOffline,
    /// The destination file could not be created or written.
    Filesystem(String),
    /// A registered URL pattern does not compile.
    MalformedPattern,
}

} // verus!
