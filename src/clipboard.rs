//! The capability through which the shared text buffer is reached.
use vstd::prelude::*;

verus! {

/// `anyhow::Error`, the error a buffer operation fails with; it is only
/// carried through and turned into its message with `to_string`.
#[verifier::external_type_specification]
#[verifier::external_body]
pub struct ExAnyhowError(anyhow::Error);

/// Read and write access to a shared text buffer, such as the system
/// clipboard. Either operation may fail; nothing is promised of the text read.
pub trait ClipboardIO {
    /// The text the buffer holds now.
    fn get_text(&mut self) -> Result<String, anyhow::Error>;

    /// Replaces the text the buffer holds.
    fn set_text(&mut self, text: &str) -> Result<(), anyhow::Error>;
}

} // verus!
