//! The formats in which usage information is kept on disk.

use vstd::prelude::*;

verus! {

/// A format of a data file.
#[derive(Clone, Copy, Debug, PartialEq, Eq, Structural)]
pub enum FileFormat {
    /// The format that is read and written.
    Json,
    /// The format of earlier versions, which is only read.
    Ron,
}

impl FileFormat {
    /// The file name extension of files in this format.
    pub open spec fn extension_text(self) -> Seq<char> {
        match self {
            FileFormat::Json => "json"@,
            FileFormat::Ron => "ron"@,
        }
    }

    /// The file name extension of files in this format.
    pub fn extension(&self) -> (r: &'static str)
        ensures
            r@ == self.extension_text(),
    {
        match self {
            FileFormat::Json => "json",
            FileFormat::Ron => "ron",
        }
    }
}

} // verus!
