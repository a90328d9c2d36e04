use ludusavi::edit::{EditAction, EditDirection};
use ludusavi::shared::{Finality, Privacy};
use ludusavi::subject::{ModalInputKind, Screen, ScrollSubject, UndoSubject};
use ludusavi::tree::TreeNodeKey;

#[test]
fn shift_moves_by_one() {
    assert_eq!(EditDirection::Up.shift(5), 4);
    assert_eq!(EditDirection::Down.shift(5), 6);
    assert_eq!(EditDirection::Up.shift(1), 0);
    assert_eq!(EditDirection::Down.shift(0), 1);
}

#[test]
fn shift_round_trip() {
    for i in 1..20usize {
        assert_eq!(EditDirection::Down.shift(EditDirection::Up.shift(i)), i);
        assert_eq!(EditDirection::Up.shift(EditDirection::Down.shift(i)), i);
    }
}

#[test]
fn move_actions() {
    assert_eq!(EditAction::move_up(3), EditAction::Move(3, EditDirection::Up));
    assert_eq!(EditAction::move_down(0), EditAction::Move(0, EditDirection::Down));
}

#[test]
fn only_password_is_private() {
    assert_eq!(UndoSubject::ModalField(ModalInputKind::Password).privacy(), Privacy::Private);
    for kind in [ModalInputKind::Url, ModalInputKind::Host, ModalInputKind::Port, ModalInputKind::Username] {
        assert_eq!(UndoSubject::ModalField(kind).privacy(), Privacy::Public);
    }
    let others = [
        UndoSubject::BackupTarget,
        UndoSubject::RestoreSource,
        UndoSubject::BackupSearchGameName,
        UndoSubject::RestoreSearchGameName,
        UndoSubject::Root(1),
        UndoSubject::RedirectSource(2),
        UndoSubject::RedirectTarget(3),
        UndoSubject::CustomGameName(4),
        UndoSubject::CustomGameFile(5, 6),
        UndoSubject::CustomGameRegistry(7, 8),
        UndoSubject::BackupFilterIgnoredPath(9),
        UndoSubject::BackupFilterIgnoredRegistry(10),
        UndoSubject::RcloneExecutable,
        UndoSubject::RcloneArguments,
        UndoSubject::CloudRemoteId,
        UndoSubject::CloudPath,
    ];
    for subject in others {
        assert_eq!(subject.privacy(), Privacy::Public);
    }
}

#[test]
fn game_list_scroll() {
    assert_eq!(ScrollSubject::game_list(true), ScrollSubject::Restore);
    assert_eq!(ScrollSubject::game_list(false), ScrollSubject::Backup);
    assert_eq!(ScrollSubject::game_list(true), ScrollSubject::from(Screen::Restore));
    assert_eq!(ScrollSubject::game_list(false), ScrollSubject::from(Screen::Backup));
}

#[test]
fn screen_scroll_subjects() {
    assert_eq!(ScrollSubject::from(Screen::Backup), ScrollSubject::Backup);
    assert_eq!(ScrollSubject::from(Screen::Restore), ScrollSubject::Restore);
    assert_eq!(ScrollSubject::from(Screen::CustomGames), ScrollSubject::CustomGames);
    assert_eq!(ScrollSubject::from(Screen::Other), ScrollSubject::Other);
    let s: ScrollSubject = Screen::Other.into();
    assert_eq!(s, ScrollSubject::Other);
}

#[test]
fn default_screen_is_backup() {
    assert_eq!(Screen::default(), Screen::Backup);
}

#[test]
fn finality_preview() {
    assert!(Finality::Preview.preview());
    assert!(!Finality::Final.preview());
}

#[test]
fn tree_node_key_raw() {
    assert_eq!(TreeNodeKey::File("C:/save.dat".to_string()).raw(), "C:/save.dat");
    assert_eq!(TreeNodeKey::RegistryKey("HKCU/Software".to_string()).raw(), "HKCU/Software");
    assert_eq!(TreeNodeKey::RegistryValue("".to_string()).raw(), "");
}
