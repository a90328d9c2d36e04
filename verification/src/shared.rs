use vstd::prelude::*;

verus! {

/// Whether an operation only previews its effect or really carries it out.
#[derive(Debug, Clone, Copy, PartialEq, Eq, Structural)]
pub enum Finality {
    Preview,
    Final,
}

impl Finality {
    pub open spec fn is_preview(self) -> bool {
        self is Preview
    }

    /// True for a preview, false for a final run.
    pub fn preview(&self) -> (r: bool)
        ensures
            r == self.is_preview(),
    {
        match self {
            Finality::Preview => true,
            Finality::Final => false,
        }
    }
}


/// Only a preview is a preview: the two finalities are told apart.
pub proof fn lemma_preview_is_not_final(f: Finality)
    ensures
        f.is_preview() <==> f == Finality::Preview,
        f.is_preview() <==> f != Finality::Final,
{
}

/// Direction of a cloud synchronisation.
#[derive(Debug, Clone, Copy, PartialEq, Eq, Structural)]
pub enum SyncDirection {
    Upload,
    Download,
}

/// Whether a value may be shown, for example in an undo history, or must be kept hidden.
#[derive(Debug, Clone, Copy, PartialEq, Eq, Structural)]
pub enum Privacy {
    Public,
    Private,
}

/// An error that an operation records while it runs.
#[derive(Debug, Clone, PartialEq, Eq)]
pub enum Error {
    NoSaveDataFound,
    GameIsUnrecognized,
    SomeEntriesFailed,
    CloudConflict,
    UnableToBrowseFileSystem,
    UnableToOpenDir { path: String },
    UnableToOpenUrl { url: String },
}

} // verus!
