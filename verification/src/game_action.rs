use vstd::prelude::*;

verus! {

/// An action that the front end offers for one game.
#[derive(Debug, Clone, Copy, PartialEq, Eq, Structural)]
pub enum GameAction {
    Customize,
    PreviewBackup,
    Backup { confirm: bool },
    PreviewRestore,
    Restore { confirm: bool },
    Wiki,
    Comment,
}

/// The icons that game actions are drawn with.
#[derive(Debug, Clone, Copy, PartialEq, Eq, Structural)]
pub enum Icon {
    PlayCircleOutline,
    FastForward,
    Refresh,
    Edit,
    Language,
    Comment,
}

/// The translated text that a game action's button shows, named by its message.
#[derive(Debug, Clone, Copy, PartialEq, Eq, Structural)]
pub enum ButtonLabel {
    Preview,
    Backup,
    BackupNoConfirmation,
    Restore,
    RestoreNoConfirmation,
    Customize,
    PcGamingWiki,
    Comment,
}

/// The actions offered for a game, in the order the menu lists them: first
/// the preview and the confirmed run of the current screen (unless an
/// operation is running), then customising (on the backup screen, for a game
/// not yet customised), then commenting (on the restore screen, for a game
/// with backups), and last the wiki (for a game that is not invented).
pub open spec fn offered_actions(
    restoring: bool,
    operating: bool,
    customized: bool,
    invented: bool,
    has_backups: bool,
) -> Seq<GameAction> {
    let runs = if operating {
        Seq::empty()
    } else if restoring {
        seq![GameAction::PreviewRestore, GameAction::Restore { confirm: true }]
    } else {
        seq![GameAction::PreviewBackup, GameAction::Backup { confirm: true }]
    };
    let customize = if !restoring && !customized {
        seq![GameAction::Customize]
    } else {
        Seq::empty()
    };
    let comment = if restoring && has_backups {
        seq![GameAction::Comment]
    } else {
        Seq::empty()
    };
    let wiki = if !invented {
        seq![GameAction::Wiki]
    } else {
        Seq::empty()
    };
    runs + customize + comment + wiki
}

pub open spec fn icon_of(action: GameAction) -> Icon {
    match action {
        GameAction::Backup { confirm } | GameAction::Restore { confirm } => if confirm {
            Icon::PlayCircleOutline
        } else {
            Icon::FastForward
        },
        GameAction::PreviewBackup | GameAction::PreviewRestore => Icon::Refresh,
        GameAction::Customize => Icon::Edit,
        GameAction::Wiki => Icon::Language,
        GameAction::Comment => Icon::Comment,
    }
}

pub open spec fn label_of(action: GameAction) -> ButtonLabel {
    match action {
        GameAction::PreviewBackup | GameAction::PreviewRestore => ButtonLabel::Preview,
        GameAction::Backup { confirm } => if confirm {
            ButtonLabel::Backup
        } else {
            ButtonLabel::BackupNoConfirmation
        },
        GameAction::Restore { confirm } => if confirm {
            ButtonLabel::Restore
        } else {
            ButtonLabel::RestoreNoConfirmation
        },
        GameAction::Customize => ButtonLabel::Customize,
        GameAction::Wiki => ButtonLabel::PcGamingWiki,
        GameAction::Comment => ButtonLabel::Comment,
    }
}

impl GameAction {
    pub fn options(
        restoring: bool,
        operating: bool,
        customized: bool,
        invented: bool,
        has_backups: bool,
    ) -> (r: Vec<Self>)
        ensures
            r@ == offered_actions(restoring, operating, customized, invented, has_backups),
    {
        let mut options: Vec<GameAction> = Vec::new();

        if !operating {
            if restoring {
                options.push(Self::PreviewRestore);
                options.push(Self::Restore { confirm: true });
            } else {
                options.push(Self::PreviewBackup);
                options.push(Self::Backup { confirm: true });
            }
        }

        if !restoring && !customized {
            options.push(Self::Customize);
        }

        if restoring && has_backups {
            options.push(Self::Comment);
        }

        if !invented {
            options.push(Self::Wiki);
        }

        options
    }

    pub fn icon(&self) -> (r: Icon)
        ensures
            r == icon_of(*self),
    {
        match self {
            GameAction::Backup { confirm } | GameAction::Restore { confirm } => {
                if *confirm {
                    Icon::PlayCircleOutline
                } else {
                    Icon::FastForward
                }
            },
            GameAction::PreviewBackup | GameAction::PreviewRestore => Icon::Refresh,
            GameAction::Customize => Icon::Edit,
            GameAction::Wiki => Icon::Language,
            GameAction::Comment => Icon::Comment,
        }
    }

    /// Which translated text the action's button shows.
    pub fn label(&self) -> (r: ButtonLabel)
        ensures
            r == label_of(*self),
    {
        match self {
            Self::PreviewBackup | Self::PreviewRestore => ButtonLabel::Preview,
            Self::Backup { confirm } => {
                if *confirm {
                    ButtonLabel::Backup
                } else {
                    ButtonLabel::BackupNoConfirmation
                }
            },
            Self::Restore { confirm } => {
                if *confirm {
                    ButtonLabel::Restore
                } else {
                    ButtonLabel::RestoreNoConfirmation
                }
            },
            Self::Customize => ButtonLabel::Customize,
            Self::Wiki => ButtonLabel::PcGamingWiki,
            Self::Comment => ButtonLabel::Comment,
        }
    }
}

/// The menu never lists an action twice.
pub proof fn lemma_options_distinct(
    restoring: bool,
    operating: bool,
    customized: bool,
    invented: bool,
    has_backups: bool,
)
    ensures
        offered_actions(restoring, operating, customized, invented, has_backups).no_duplicates(),
{
}

/// Which actions the menu lists, each exactly when the menu's rule offers it:
/// the runs of the current screen only while no operation is running, never
/// those of the other screen nor an unconfirmed run, customising only on the
/// backup screen for a game not yet customised, commenting only on the
/// restore screen for a game with backups, and the wiki for every game that
/// is not invented.
pub proof fn lemma_options_membership(
    restoring: bool,
    operating: bool,
    customized: bool,
    invented: bool,
    has_backups: bool,
)
    ensures
        ({
            let s = offered_actions(restoring, operating, customized, invented, has_backups);
            &&& s.contains(GameAction::PreviewRestore) <==> (restoring && !operating)
            &&& s.contains(GameAction::Restore { confirm: true }) <==> (restoring && !operating)
            &&& s.contains(GameAction::PreviewBackup) <==> (!restoring && !operating)
            &&& s.contains(GameAction::Backup { confirm: true }) <==> (!restoring && !operating)
            &&& !s.contains(GameAction::Restore { confirm: false })
            &&& !s.contains(GameAction::Backup { confirm: false })
            &&& s.contains(GameAction::Customize) <==> (!restoring && !customized)
            &&& s.contains(GameAction::Comment) <==> (restoring && has_backups)
            &&& s.contains(GameAction::Wiki) <==> !invented
        }),
{
    let s = offered_actions(restoring, operating, customized, invented, has_backups);
    let runs = if operating {
        Seq::<GameAction>::empty()
    } else if restoring {
        seq![GameAction::PreviewRestore, GameAction::Restore { confirm: true }]
    } else {
        seq![GameAction::PreviewBackup, GameAction::Backup { confirm: true }]
    };
    let customize = if !restoring && !customized {
        seq![GameAction::Customize]
    } else {
        Seq::empty()
    };
    let comment = if restoring && has_backups {
        seq![GameAction::Comment]
    } else {
        Seq::empty()
    };
    let wiki = if !invented {
        seq![GameAction::Wiki]
    } else {
        Seq::empty()
    };
    assert(s == runs + customize + comment + wiki);
    assert forall|a: GameAction| s.contains(a) <==> (runs.contains(a) || customize.contains(a)
        || comment.contains(a) || wiki.contains(a)) by {
        if s.contains(a) {
            let k = choose|k: int| 0 <= k < s.len() && s[k] == a;
            if k < runs.len() {
                assert(runs[k] == a);
            } else if k < runs.len() + customize.len() {
                assert(customize[k - runs.len()] == a);
            } else if k < runs.len() + customize.len() + comment.len() {
                assert(comment[k - runs.len() - customize.len()] == a);
            } else {
                assert(wiki[k - runs.len() - customize.len() - comment.len()] == a);
            }
        }
        if runs.contains(a) {
            let k = choose|k: int| 0 <= k < runs.len() && runs[k] == a;
            assert(s[k] == a);
        }
        if customize.contains(a) {
            assert(s[runs.len() as int] == a);
        }
        if comment.contains(a) {
            assert(s[(runs.len() + customize.len()) as int] == a);
        }
        if wiki.contains(a) {
            assert(s[(runs.len() + customize.len() + comment.len()) as int] == a);
        }
    }
    if !operating && restoring {
        assert(runs[0] == GameAction::PreviewRestore);
        assert(runs[1] == GameAction::Restore { confirm: true });
    }
    if !operating && !restoring {
        assert(runs[0] == GameAction::PreviewBackup);
        assert(runs[1] == GameAction::Backup { confirm: true });
    }
    if !restoring && !customized {
        assert(customize[0] == GameAction::Customize);
    }
    if restoring && has_backups {
        assert(comment[0] == GameAction::Comment);
    }
    if !invented {
        assert(wiki[0] == GameAction::Wiki);
    }
}

/// A confirmed run, backup or restore, is drawn as a play button and an
/// unconfirmed one as fast-forward; both previews are drawn as a refresh;
/// customising as an edit, the wiki as a language sign and commenting as a
/// comment.
pub proof fn lemma_icons(confirm: bool)
    ensures
        icon_of(GameAction::Backup { confirm }) == icon_of(GameAction::Restore { confirm }),
        icon_of(GameAction::Backup { confirm }) == if confirm {
            Icon::PlayCircleOutline
        } else {
            Icon::FastForward
        },
        icon_of(GameAction::PreviewBackup) == Icon::Refresh,
        icon_of(GameAction::PreviewRestore) == Icon::Refresh,
        icon_of(GameAction::Customize) == Icon::Edit,
        icon_of(GameAction::Wiki) == Icon::Language,
        icon_of(GameAction::Comment) == Icon::Comment,
{
}

/// Each action's button names that action: a run of a backup or a restore
/// says whether it asks for confirmation, the previews share one text, and
/// customising, the wiki and commenting have texts of their own.
pub proof fn lemma_labels(confirm: bool)
    ensures
        label_of(GameAction::Backup { confirm }) == if confirm {
            ButtonLabel::Backup
        } else {
            ButtonLabel::BackupNoConfirmation
        },
        label_of(GameAction::Restore { confirm }) == if confirm {
            ButtonLabel::Restore
        } else {
            ButtonLabel::RestoreNoConfirmation
        },
        label_of(GameAction::PreviewBackup) == ButtonLabel::Preview,
        label_of(GameAction::PreviewRestore) == ButtonLabel::Preview,
        label_of(GameAction::Customize) == ButtonLabel::Customize,
        label_of(GameAction::Wiki) == ButtonLabel::PcGamingWiki,
        label_of(GameAction::Comment) == ButtonLabel::Comment,
{
}

/// Where actions stand in the menu: while no operation runs, the preview of
/// the current screen comes first and its confirmed run second; the wiki,
/// when offered, comes last; and the menu holds nothing but the offered
/// actions, each counted once.
pub proof fn lemma_options_order(
    restoring: bool,
    operating: bool,
    customized: bool,
    invented: bool,
    has_backups: bool,
)
    ensures
        ({
            let s = offered_actions(restoring, operating, customized, invented, has_backups);
            &&& s.len() == (if operating {
                0int
            } else {
                2int
            }) + (if !restoring && !customized {
                1int
            } else {
                0int
            }) + (if restoring && has_backups {
                1int
            } else {
                0int
            }) + (if !invented {
                1int
            } else {
                0int
            })
            &&& !operating ==> s[0] == (if restoring {
                GameAction::PreviewRestore
            } else {
                GameAction::PreviewBackup
            })
            &&& !operating ==> s[1] == (if restoring {
                GameAction::Restore { confirm: true }
            } else {
                GameAction::Backup { confirm: true }
            })
            &&& !invented ==> s.last() == GameAction::Wiki
        }),
{
}

/// Both previews show the same button text, and every other action a text of its own.
pub proof fn lemma_labels_tell_actions_apart(a: GameAction, b: GameAction)
    ensures
        label_of(a) == label_of(b) ==> (a == b || (a is PreviewBackup || a is PreviewRestore) && (
        b is PreviewBackup || b is PreviewRestore)),
{
}

} // verus!
