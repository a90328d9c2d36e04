use vstd::prelude::*;

verus! {

/// Which way an entry of a list moves.
#[derive(Debug, Clone, PartialEq, Eq, Structural)]
pub enum EditDirection {
    Up,
    Down,
}

impl EditDirection {
    /// The position an entry at `index` moves to: one before it going up,
    /// one after it going down.
    pub open spec fn shifted(self, index: int) -> int {
        match self {
            EditDirection::Up => index - 1,
            EditDirection::Down => index + 1,
        }
    }

    /// Moving the first entry up, or an entry at the largest index down,
    /// has no position to go to; the caller rules both out.
    pub fn shift(&self, index: usize) -> (r: usize)
        requires
            *self is Up ==> index > 0,
            *self is Down ==> index < usize::MAX,
        ensures
            r == self.shifted(index as int),
    {
        match self {
            Self::Up => index - 1,
            Self::Down => index + 1,
        }
    }
}

/// Moving an entry up and then down again, or down and then up again, brings
/// it back to where it was.
pub proof fn lemma_shift_round_trip(index: int)
    ensures
        EditDirection::Down.shifted(EditDirection::Up.shifted(index)) == index,
        EditDirection::Up.shifted(EditDirection::Down.shifted(index)) == index,
{
}

/// A move goes to the neighbouring position: one lower going up, one higher
/// going down.
pub proof fn lemma_shift_to_neighbour(index: int)
    ensures
        EditDirection::Up.shifted(index) + 1 == index,
        EditDirection::Down.shifted(index) == index + 1,
{
}

/// An edit of one entry of a list shown by the front end.
#[derive(Debug, Clone, PartialEq, Eq)]
pub enum EditAction {
    Add,
    Change(usize, String),
    Remove(usize),
    Move(usize, EditDirection),
}

impl EditAction {
    pub fn move_up(index: usize) -> (r: Self)
        ensures
            r == EditAction::Move(index, EditDirection::Up),
    {
        Self::Move(index, EditDirection::Up)
    }

    pub fn move_down(index: usize) -> (r: Self)
        ensures
            r == EditAction::Move(index, EditDirection::Down),
    {
        Self::Move(index, EditDirection::Down)
    }
}

/// The side of a redirect that an edit changes.
#[derive(Debug, Clone, PartialEq, Eq, Structural)]
pub enum RedirectEditActionField {
    Source,
    Target,
}

/// What a folder picker chooses a folder for.
#[derive(Debug, Clone, PartialEq, Eq, Structural)]
pub enum BrowseSubject {
    BackupTarget,
    RestoreSource,
    Root(usize),
    RedirectSource(usize),
    RedirectTarget(usize),
    CustomGameFile(usize, usize),
    BackupFilterIgnoredPath(usize),
}

/// What a file picker chooses a file for.
#[derive(Debug, Clone, PartialEq, Eq, Structural)]
pub enum BrowseFileSubject {
    RcloneExecutable,
}

} // verus!
