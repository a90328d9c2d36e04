use ludusavi::game_action::{ButtonLabel, GameAction, Icon};

#[test]
fn options_backup_screen_idle() {
    assert_eq!(
        GameAction::options(false, false, false, false, false),
        vec![
            GameAction::PreviewBackup,
            GameAction::Backup { confirm: true },
            GameAction::Customize,
            GameAction::Wiki,
        ]
    );
}

#[test]
fn options_restore_screen_with_backups() {
    assert_eq!(
        GameAction::options(true, false, false, false, true),
        vec![
            GameAction::PreviewRestore,
            GameAction::Restore { confirm: true },
            GameAction::Comment,
            GameAction::Wiki,
        ]
    );
}

#[test]
fn options_while_operating() {
    assert_eq!(GameAction::options(false, true, false, false, true), vec![GameAction::Customize, GameAction::Wiki]);
    assert_eq!(GameAction::options(true, true, false, true, false), vec![]);
}

#[test]
fn options_customized_invented() {
    assert_eq!(
        GameAction::options(false, false, true, true, true),
        vec![GameAction::PreviewBackup, GameAction::Backup { confirm: true }]
    );
}

#[test]
fn options_never_repeat() {
    for bits in 0..32u32 {
        let o = GameAction::options(bits & 1 != 0, bits & 2 != 0, bits & 4 != 0, bits & 8 != 0, bits & 16 != 0);
        for i in 0..o.len() {
            for j in 0..o.len() {
                if i != j {
                    assert_ne!(o[i], o[j]);
                }
            }
        }
        assert_eq!(o.contains(&GameAction::Wiki), bits & 8 == 0);
    }
}

#[test]
fn icons() {
    assert_eq!(GameAction::Backup { confirm: true }.icon(), Icon::PlayCircleOutline);
    assert_eq!(GameAction::Restore { confirm: true }.icon(), Icon::PlayCircleOutline);
    assert_eq!(GameAction::Backup { confirm: false }.icon(), Icon::FastForward);
    assert_eq!(GameAction::Restore { confirm: false }.icon(), Icon::FastForward);
    assert_eq!(GameAction::PreviewBackup.icon(), Icon::Refresh);
    assert_eq!(GameAction::PreviewRestore.icon(), Icon::Refresh);
    assert_eq!(GameAction::Customize.icon(), Icon::Edit);
    assert_eq!(GameAction::Wiki.icon(), Icon::Language);
    assert_eq!(GameAction::Comment.icon(), Icon::Comment);
}

#[test]
fn labels() {
    assert_eq!(GameAction::PreviewBackup.label(), ButtonLabel::Preview);
    assert_eq!(GameAction::PreviewRestore.label(), ButtonLabel::Preview);
    assert_eq!(GameAction::Backup { confirm: true }.label(), ButtonLabel::Backup);
    assert_eq!(GameAction::Backup { confirm: false }.label(), ButtonLabel::BackupNoConfirmation);
    assert_eq!(GameAction::Restore { confirm: true }.label(), ButtonLabel::Restore);
    assert_eq!(GameAction::Restore { confirm: false }.label(), ButtonLabel::RestoreNoConfirmation);
    assert_eq!(GameAction::Customize.label(), ButtonLabel::Customize);
    assert_eq!(GameAction::Wiki.label(), ButtonLabel::PcGamingWiki);
    assert_eq!(GameAction::Comment.label(), ButtonLabel::Comment);
}
