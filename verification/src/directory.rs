//! The directory-creation task.

use vstd::prelude::*;

verus! {

/// The task of ensuring a directory and all its missing ancestors exist. It
/// is idempotent: it succeeds when the directory is already present.
#[derive(Clone, Debug)]
pub struct CreateDirectory {
    /// The path of the directory to create.
    pub directory: String,
}

impl View for CreateDirectory {
    type V = Seq<char>;

    open spec fn view(&self) -> Seq<char> {
        self.directory@
    }
}

} // verus!
