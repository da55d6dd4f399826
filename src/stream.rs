use vstd::prelude::*;
use crate::config::Config;
use crate::dialect::same_text;

verus! {

/// The endpoint that stands for a writer that drops everything written to it.
pub open spec fn sink_token() -> Seq<char> {
    "sink"@
}

/// Where a reader takes its bytes from.
#[derive(Clone, Debug, PartialEq, Eq)]
pub enum ReadSource {
    Stdin,
    /// The named file, decompressed on the way where `decompress` holds.
    File { path: String, decompress: bool },
}

/// Where a writer sends its bytes.
#[derive(Clone, Debug, PartialEq, Eq)]
pub enum WriteTarget {
    Stdout,
    /// Consumes every byte and keeps none.
    Sink,
    /// The named file, created or truncated, compressed on the way where `compress`
    /// holds.
    File { path: String, compress: bool },
}

impl Config {
    /// The byte stream a reader of this configuration reads.
    pub fn read_source(&self) -> (r: ReadSource)
        ensures
            self@.path is None <==> r is Stdin,
            r is File ==> r->File_path@ == self@.path->Some_0 && r->File_decompress
                == self@.compressed,
    {
        match self.get_path() {
            None => ReadSource::Stdin,
            Some(p) => ReadSource::File { path: p, decompress: self.is_compressed() },
        }
    }

    /// The byte stream a writer of this configuration writes. The sink endpoint
    /// persists nothing, whatever the compression.
    pub fn write_target(&self) -> (r: WriteTarget)
        ensures
            self@.path is None <==> r is Stdout,
            self@.path is Some && self@.path->Some_0 == sink_token() <==> r is Sink,
            r is File ==> r->File_path@ == self@.path->Some_0 && r->File_compress
                == self@.compressed,
    {
        match self.get_path() {
            None => WriteTarget::Stdout,
            Some(p) => {
                if same_text(p.as_str(), "sink") {
                    WriteTarget::Sink
                } else {
                    WriteTarget::File { path: p, compress: self.is_compressed() }
                }
            },
        }
    }
}

} // verus!
