//! What a code generator hands out.

use vstd::prelude::*;

verus! {

/// A generated file.
#[derive(Debug)]
pub struct OutputFile {
    /// The file's name, relative to the output directory.
    pub filename: String,
    /// The file's contents.
    pub code: String,
}

/// The texts of an [`OutputFile`].
#[verifier::ext_equal]
pub struct OutputFileView {
    pub filename: Seq<char>,
    pub code: Seq<char>,
}

impl View for OutputFile {
    type V = OutputFileView;

    open spec fn view(&self) -> OutputFileView {
        OutputFileView { filename: self.filename@, code: self.code@ }
    }
}

} // verus!
