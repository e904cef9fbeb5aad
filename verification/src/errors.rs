use vstd::prelude::*;

verus! {

/// The message carried by every trailing-data error: bytes were left over
/// after the section's logical content ended.
pub open spec fn trailing_data_message() -> Seq<char> {
    "Unexpected data at the end of the section"@
}

/// An error produced while decoding a section: a static description of the
/// failure and the byte offset at which it was detected.
///
/// The offset always points into the input that the section was sliced from,
/// so a caller can localise the failure exactly. An error value is built at
/// the point of failure and never changed afterwards.
#[derive(Clone, Copy, Debug)]
pub struct BinaryReaderError {
    pub message: &'static str,
    pub offset: usize,
}

impl BinaryReaderError {
    /// Holds of exactly the errors that report trailing data at byte
    /// offset `pos`.
    pub open spec fn is_trailing_data_at(self, pos: int) -> bool {
        self.offset == pos && self.message@ == trailing_data_message()
    }
}

} // verus!
