//! The importer's error.

use vstd::prelude::*;

verus! {

/// Why an import failed, as a message for the caller to report.
#[derive(Debug)]
pub struct GltfImportError {
    pub error_message: String,
}

impl GltfImportError {
    /// An error carrying `error_message`.
    pub fn new(error_message: &str) -> (r: GltfImportError)
        ensures
            r.error_message@ == error_message@,
    {
        GltfImportError { error_message: error_message.to_owned() }
    }

    /// The message the error carries.
    pub fn message(&self) -> (r: &str)
        ensures
            r@ == self.error_message@,
    {
        self.error_message.as_str()
    }
}

} // verus!
