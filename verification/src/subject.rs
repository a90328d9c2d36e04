use vstd::prelude::*;

use crate::shared::Privacy;

verus! {

/// The screens of the front end.
#[derive(Debug, Clone, Copy, PartialEq, Eq, Structural)]
pub enum Screen {
    Backup,
    Restore,
    CustomGames,
    Other,
}

impl Default for Screen {
    fn default() -> (r: Self)
        ensures
            r == Screen::Backup,
    {
        Screen::Backup
    }
}

/// The input fields of a modal dialog.
#[derive(Debug, Clone, Copy, PartialEq, Eq, Hash, Structural)]
pub enum ModalInputKind {
    Url,
    Host,
    Port,
    Username,
    Password,
}

/// What an undo or redo applies to.
#[derive(Debug, Clone, Copy, PartialEq, Eq, Hash, Structural)]
pub enum UndoSubject {
    BackupTarget,
    RestoreSource,
    BackupSearchGameName,
    RestoreSearchGameName,
    Root(usize),
    RedirectSource(usize),
    RedirectTarget(usize),
    CustomGameName(usize),
    CustomGameFile(usize, usize),
    CustomGameRegistry(usize, usize),
    BackupFilterIgnoredPath(usize),
    BackupFilterIgnoredRegistry(usize),
    RcloneExecutable,
    RcloneArguments,
    CloudRemoteId,
    CloudPath,
    ModalField(ModalInputKind),
}

impl UndoSubject {
    /// Only a password typed into a modal dialog is private.
    pub open spec fn is_private(self) -> bool {
        self == UndoSubject::ModalField(ModalInputKind::Password)
    }

    pub fn privacy(&self) -> (r: Privacy)
        ensures
            r == (if self.is_private() { Privacy::Private } else { Privacy::Public }),
    {
        match self {
            UndoSubject::BackupTarget
            | UndoSubject::RestoreSource
            | UndoSubject::BackupSearchGameName
            | UndoSubject::RestoreSearchGameName
            | UndoSubject::Root(_)
            | UndoSubject::RedirectSource(_)
            | UndoSubject::RedirectTarget(_)
            | UndoSubject::CustomGameName(_)
            | UndoSubject::CustomGameFile(_, _)
            | UndoSubject::CustomGameRegistry(_, _)
            | UndoSubject::BackupFilterIgnoredPath(_)
            | UndoSubject::BackupFilterIgnoredRegistry(_)
            | UndoSubject::RcloneExecutable
            | UndoSubject::RcloneArguments
            | UndoSubject::CloudRemoteId
            | UndoSubject::CloudPath => Privacy::Public,
            UndoSubject::ModalField(field) => match field {
                ModalInputKind::Url
                | ModalInputKind::Host
                | ModalInputKind::Port
                | ModalInputKind::Username => Privacy::Public,
                ModalInputKind::Password => Privacy::Private,
            },
        }
    }
}

/// The scrollable areas of the front end.
#[derive(Debug, Clone, Copy, PartialEq, Eq, Hash, Structural)]
pub enum ScrollSubject {
    Backup,
    Restore,
    CustomGames,
    Other,
    Modal,
}

/// The scrollable area that shows a screen.
pub open spec fn scroll_subject_of(screen: Screen) -> ScrollSubject {
    match screen {
        Screen::Backup => ScrollSubject::Backup,
        Screen::Restore => ScrollSubject::Restore,
        Screen::CustomGames => ScrollSubject::CustomGames,
        Screen::Other => ScrollSubject::Other,
    }
}

impl ScrollSubject {
    /// The game list of the restore screen when restoring, else of the backup screen.
    pub fn game_list(restoring: bool) -> (r: Self)
        ensures
            r == (if restoring { ScrollSubject::Restore } else { ScrollSubject::Backup }),
    {
        if restoring {
            Self::Restore
        } else {
            Self::Backup
        }
    }
}

impl From<Screen> for ScrollSubject {
    fn from(value: Screen) -> (r: Self) {
        match value {
            Screen::Backup => Self::Backup,
            Screen::Restore => Self::Restore,
            Screen::CustomGames => Self::CustomGames,
            Screen::Other => Self::Other,
        }
    }
}

impl vstd::std_specs::convert::FromSpecImpl<Screen> for ScrollSubject {
    open spec fn obeys_from_spec() -> bool {
        true
    }

    open spec fn from_spec(v: Screen) -> ScrollSubject {
        scroll_subject_of(v)
    }
}

/// Each screen scrolls in an area of its own: no two screens share one, and
/// none of them uses the area of modal dialogs.
pub proof fn lemma_screens_scroll_apart(a: Screen, b: Screen)
    ensures
        scroll_subject_of(a) == scroll_subject_of(b) ==> a == b,
        scroll_subject_of(a) != ScrollSubject::Modal,
{
}

/// Each screen scrolls in the area of the same name.
pub proof fn lemma_screen_scrolls_in_its_own_area(s: Screen)
    ensures
        scroll_subject_of(s) is Backup <==> s is Backup,
        scroll_subject_of(s) is Restore <==> s is Restore,
        scroll_subject_of(s) is CustomGames <==> s is CustomGames,
        scroll_subject_of(s) is Other <==> s is Other,
{
}

/// A value is private exactly when it is typed into the password field of a
/// modal dialog: every other modal field and every subject outside a modal
/// dialog is public.
pub proof fn lemma_privacy_of_subjects(s: UndoSubject)
    ensures
        s.is_private() ==> s is ModalField,
        s matches UndoSubject::ModalField(kind) ==> (s.is_private() <==> kind
            == ModalInputKind::Password),
        !(s is ModalField) ==> !s.is_private(),
{
}

/// The game list chosen for restoring or backing up is the area of the
/// restore or backup screen.
pub proof fn lemma_game_list_matches_screen(restoring: bool)
    ensures
        (if restoring { ScrollSubject::Restore } else { ScrollSubject::Backup })
            == scroll_subject_of(if restoring { Screen::Restore } else { Screen::Backup }),
{
}

} // verus!
