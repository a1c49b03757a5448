//! Where the two cursors are kept between runs.
use vstd::prelude::*;
use crate::model::{ConxianError, PersistentState};
use crate::text::owned;

verus! {

/// A store for the cursors. `save` replaces what is stored; `load` returns
/// what was last saved, or the zero cursors where nothing was.
pub trait Persistence: Send + Sync {
    fn save(&self, state: &PersistentState) -> Result<(), ConxianError>;

    fn load(&self) -> Result<PersistentState, ConxianError>;
}

/// The cursors kept as one JSON document at a path; the program writes it to
/// a temporary file beside it and renames that over it.
pub struct FilePersistence {
    path: String,
}

impl FilePersistence {
    /// A store at `path`.
    pub fn new(path: &str) -> (r: FilePersistence)
        ensures
            r.path_text() == path@,
    {
        FilePersistence { path: owned(path) }
    }

    /// The path of the document, as a specification value.
    pub closed spec fn path_text(&self) -> Seq<char> {
        self.path@
    }

    /// The path of the document.
    pub fn path(&self) -> (r: &str)
        ensures
            r@ == self.path_text(),
    {
        self.path.as_str()
    }
}

} // verus!
