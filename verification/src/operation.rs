use vstd::prelude::*;

use crate::shared::{Error, Finality, SyncDirection};

verus! {

/// The operation that the front end is running, if any.
#[derive(Debug, Clone, PartialEq, Eq)]
pub enum Operation {
    Idle,
    Backup {
        finality: Finality,
        cancelling: bool,
        checking_cloud: bool,
        syncing_cloud: bool,
        should_sync_cloud_after: bool,
        games: Option<Vec<String>>,
        errors: Vec<Error>,
        cloud_changes: i64,
    },
    Restore {
        finality: Finality,
        cancelling: bool,
        checking_cloud: bool,
        games: Option<Vec<String>>,
        errors: Vec<Error>,
        cloud_changes: i64,
    },
    Cloud {
        direction: SyncDirection,
        finality: Finality,
        cancelling: bool,
        errors: Vec<Error>,
        cloud_changes: i64,
    },
}

/// Mathematical model of an [`Operation`]: lists become sequences and the
/// change counter an unbounded integer.
pub enum OperationView {
    Idle,
    Backup {
        finality: Finality,
        cancelling: bool,
        checking_cloud: bool,
        syncing_cloud: bool,
        should_sync_cloud_after: bool,
        games: Option<Seq<String>>,
        errors: Seq<Error>,
        cloud_changes: int,
    },
    Restore {
        finality: Finality,
        cancelling: bool,
        checking_cloud: bool,
        games: Option<Seq<String>>,
        errors: Seq<Error>,
        cloud_changes: int,
    },
    Cloud {
        direction: SyncDirection,
        finality: Finality,
        cancelling: bool,
        errors: Seq<Error>,
        cloud_changes: int,
    },
}

/// The model of an optional list of game names.
pub open spec fn games_view(games: Option<Vec<String>>) -> Option<Seq<String>> {
    match games {
        Some(v) => Some(v@),
        None => None,
    }
}

impl View for Operation {
    type V = OperationView;

    open spec fn view(&self) -> OperationView {
        match *self {
            Operation::Idle => OperationView::Idle,
            Operation::Backup {
                finality,
                cancelling,
                checking_cloud,
                syncing_cloud,
                should_sync_cloud_after,
                games,
                errors,
                cloud_changes,
            } => OperationView::Backup {
                finality,
                cancelling,
                checking_cloud,
                syncing_cloud,
                should_sync_cloud_after,
                games: games_view(games),
                errors: errors@,
                cloud_changes: cloud_changes as int,
            },
            Operation::Restore {
                finality,
                cancelling,
                checking_cloud,
                games,
                errors,
                cloud_changes,
            } => OperationView::Restore {
                finality,
                cancelling,
                checking_cloud,
                games: games_view(games),
                errors: errors@,
                cloud_changes: cloud_changes as int,
            },
            Operation::Cloud { direction, finality, cancelling, errors, cloud_changes } =>
                OperationView::Cloud {
                direction,
                finality,
                cancelling,
                errors: errors@,
                cloud_changes: cloud_changes as int,
            },
        }
    }
}

impl OperationView {
    pub open spec fn new_backup(finality: Finality, games: Option<Seq<String>>) -> OperationView {
        OperationView::Backup {
            finality,
            cancelling: false,
            checking_cloud: false,
            syncing_cloud: false,
            should_sync_cloud_after: false,
            games,
            errors: Seq::empty(),
            cloud_changes: 0,
        }
    }

    pub open spec fn new_restore(finality: Finality, games: Option<Seq<String>>) -> OperationView {
        OperationView::Restore {
            finality,
            cancelling: false,
            checking_cloud: false,
            games,
            errors: Seq::empty(),
            cloud_changes: 0,
        }
    }

    pub open spec fn new_cloud(direction: SyncDirection, finality: Finality) -> OperationView {
        OperationView::Cloud {
            direction,
            finality,
            cancelling: false,
            errors: Seq::empty(),
            cloud_changes: 0,
        }
    }

    pub open spec fn idle(self) -> bool {
        self is Idle
    }

    /// Nothing running counts as a preview; otherwise the finality decides.
    pub open spec fn preview(self) -> bool {
        match self {
            OperationView::Idle => true,
            OperationView::Backup { finality, .. } => finality.is_preview(),
            OperationView::Restore { finality, .. } => finality.is_preview(),
            OperationView::Cloud { finality, .. } => finality.is_preview(),
        }
    }

    /// A backup or restore of all games, or any cloud synchronisation.
    pub open spec fn full(self) -> bool {
        match self {
            OperationView::Idle => false,
            OperationView::Backup { games, .. } => games is None,
            OperationView::Restore { games, .. } => games is None,
            OperationView::Cloud { .. } => true,
        }
    }

    pub open spec fn games(self) -> Option<Seq<String>> {
        match self {
            OperationView::Backup { games, .. } => games,
            OperationView::Restore { games, .. } => games,
            _ => None,
        }
    }

    pub open spec fn cancelling(self) -> bool {
        match self {
            OperationView::Idle => false,
            OperationView::Backup { cancelling, .. } => cancelling,
            OperationView::Restore { cancelling, .. } => cancelling,
            OperationView::Cloud { cancelling, .. } => cancelling,
        }
    }

    pub open spec fn errors(self) -> Option<Seq<Error>> {
        match self {
            OperationView::Idle => None,
            OperationView::Backup { errors, .. } => Some(errors),
            OperationView::Restore { errors, .. } => Some(errors),
            OperationView::Cloud { errors, .. } => Some(errors),
        }
    }

    pub open spec fn is_cloud_active(self) -> bool {
        match self {
            OperationView::Idle => false,
            OperationView::Backup { checking_cloud, syncing_cloud, .. } => checking_cloud
                || syncing_cloud,
            OperationView::Restore { checking_cloud, .. } => checking_cloud,
            OperationView::Cloud { .. } => true,
        }
    }

    pub open spec fn integrated_checking_cloud(self) -> bool {
        match self {
            OperationView::Backup { checking_cloud, .. } => checking_cloud,
            OperationView::Restore { checking_cloud, .. } => checking_cloud,
            _ => false,
        }
    }

    pub open spec fn integrated_syncing_cloud(self) -> bool {
        match self {
            OperationView::Backup { syncing_cloud, .. } => syncing_cloud,
            _ => false,
        }
    }

    pub open spec fn should_sync_cloud_after(self) -> bool {
        match self {
            OperationView::Backup { should_sync_cloud_after, .. } => should_sync_cloud_after,
            _ => false,
        }
    }

    pub open spec fn cloud_changes(self) -> int {
        match self {
            OperationView::Idle => 0,
            OperationView::Backup { cloud_changes, .. } => cloud_changes,
            OperationView::Restore { cloud_changes, .. } => cloud_changes,
            OperationView::Cloud { cloud_changes, .. } => cloud_changes,
        }
    }

    /// Marks a running operation as being cancelled.
    pub open spec fn flag_cancel(self) -> OperationView {
        match self {
            OperationView::Idle => OperationView::Idle,
            OperationView::Backup {
                finality,
                checking_cloud,
                syncing_cloud,
                should_sync_cloud_after,
                games,
                errors,
                cloud_changes,
                ..
            } => OperationView::Backup {
                finality,
                cancelling: true,
                checking_cloud,
                syncing_cloud,
                should_sync_cloud_after,
                games,
                errors,
                cloud_changes,
            },
            OperationView::Restore {
                finality,
                checking_cloud,
                games,
                errors,
                cloud_changes,
                ..
            } => OperationView::Restore {
                finality,
                cancelling: true,
                checking_cloud,
                games,
                errors,
                cloud_changes,
            },
            OperationView::Cloud { direction, finality, errors, cloud_changes, .. } =>
                OperationView::Cloud { direction, finality, cancelling: true, errors, cloud_changes },
        }
    }

    /// Records an error on a running operation.
    pub open spec fn push_error(self, error: Error) -> OperationView {
        match self {
            OperationView::Idle => OperationView::Idle,
            OperationView::Backup {
                finality,
                cancelling,
                checking_cloud,
                syncing_cloud,
                should_sync_cloud_after,
                games,
                errors,
                cloud_changes,
            } => OperationView::Backup {
                finality,
                cancelling,
                checking_cloud,
                syncing_cloud,
                should_sync_cloud_after,
                games,
                errors: errors.push(error),
                cloud_changes,
            },
            OperationView::Restore {
                finality,
                cancelling,
                checking_cloud,
                games,
                errors,
                cloud_changes,
            } => OperationView::Restore {
                finality,
                cancelling,
                checking_cloud,
                games,
                errors: errors.push(error),
                cloud_changes,
            },
            OperationView::Cloud { direction, finality, cancelling, errors, cloud_changes } =>
                OperationView::Cloud {
                direction,
                finality,
                cancelling,
                errors: errors.push(error),
                cloud_changes,
            },
        }
    }

    /// Enters the cloud step that a backup or restore runs alongside its own
    /// work: a preview checks the cloud (backup or restore), a final backup
    /// synchronises it; a final restore and a cloud operation are unchanged.
    pub open spec fn update_integrated_cloud(self, finality: Finality) -> OperationView {
        match self {
            OperationView::Backup {
                finality: own,
                cancelling,
                checking_cloud,
                syncing_cloud,
                should_sync_cloud_after,
                games,
                errors,
                cloud_changes,
            } => OperationView::Backup {
                finality: own,
                cancelling,
                checking_cloud: if finality.is_preview() { true } else { checking_cloud },
                syncing_cloud: if finality.is_preview() { syncing_cloud } else { true },
                should_sync_cloud_after,
                games,
                errors,
                cloud_changes,
            },
            OperationView::Restore {
                finality: own,
                cancelling,
                checking_cloud,
                games,
                errors,
                cloud_changes,
            } => OperationView::Restore {
                finality: own,
                cancelling,
                checking_cloud: if finality.is_preview() { true } else { checking_cloud },
                games,
                errors,
                cloud_changes,
            },
            _ => self,
        }
    }

    /// Leaves the current integrated cloud step. A backup that was checking
    /// the cloud decides whether to synchronise after it (only when the check
    /// found the cloud in sync and the backup is final) and records a cloud
    /// conflict when it was not in sync; a backup that was synchronising stops
    /// doing so; a restore stops checking.
    pub open spec fn transition_from_cloud_step(self, synced: bool) -> OperationView {
        match self {
            OperationView::Backup {
                finality,
                cancelling,
                checking_cloud,
                syncing_cloud,
                should_sync_cloud_after,
                games,
                errors,
                cloud_changes,
            } => if checking_cloud {
                OperationView::Backup {
                    finality,
                    cancelling,
                    checking_cloud: false,
                    syncing_cloud,
                    should_sync_cloud_after: synced && !finality.is_preview(),
                    games,
                    errors: if synced { errors } else { errors.push(Error::CloudConflict) },
                    cloud_changes,
                }
            } else {
                OperationView::Backup {
                    finality,
                    cancelling,
                    checking_cloud,
                    syncing_cloud: false,
                    should_sync_cloud_after,
                    games,
                    errors,
                    cloud_changes,
                }
            },
            OperationView::Restore {
                finality,
                cancelling,
                games,
                errors,
                cloud_changes,
                ..
            } => OperationView::Restore {
                finality,
                cancelling,
                checking_cloud: false,
                games,
                errors,
                cloud_changes,
            },
            _ => self,
        }
    }

    /// Counts one more change made in the cloud.
    pub open spec fn add_cloud_change(self) -> OperationView {
        match self {
            OperationView::Idle => OperationView::Idle,
            OperationView::Backup {
                finality,
                cancelling,
                checking_cloud,
                syncing_cloud,
                should_sync_cloud_after,
                games,
                errors,
                cloud_changes,
            } => OperationView::Backup {
                finality,
                cancelling,
                checking_cloud,
                syncing_cloud,
                should_sync_cloud_after,
                games,
                errors,
                cloud_changes: cloud_changes + 1,
            },
            OperationView::Restore {
                finality,
                cancelling,
                checking_cloud,
                games,
                errors,
                cloud_changes,
            } => OperationView::Restore {
                finality,
                cancelling,
                checking_cloud,
                games,
                errors,
                cloud_changes: cloud_changes + 1,
            },
            OperationView::Cloud { direction, finality, cancelling, errors, cloud_changes } =>
                OperationView::Cloud {
                direction,
                finality,
                cancelling,
                errors,
                cloud_changes: cloud_changes + 1,
            },
        }
    }
}

impl Operation {
    pub fn idle(&self) -> (r: bool)
        ensures
            r == self@.idle(),
    {
        match self {
            Operation::Idle => true,
            _ => false,
        }
    }

    pub fn new_backup(finality: Finality, games: Option<Vec<String>>) -> (r: Self)
        ensures
            r@ == OperationView::new_backup(finality, games_view(games)),
            r matches Operation::Backup {
                finality: f,
                cancelling: false,
                checking_cloud: false,
                syncing_cloud: false,
                should_sync_cloud_after: false,
                games: g,
                errors: e,
                cloud_changes: 0,
            } && f == finality && g == games && e@.len() == 0,
    {
        Operation::Backup {
            finality,
            cancelling: false,
            checking_cloud: false,
            syncing_cloud: false,
            should_sync_cloud_after: false,
            games,
            errors: Vec::new(),
            cloud_changes: 0,
        }
    }

    pub fn new_restore(finality: Finality, games: Option<Vec<String>>) -> (r: Self)
        ensures
            r@ == OperationView::new_restore(finality, games_view(games)),
            r matches Operation::Restore {
                finality: f,
                cancelling: false,
                checking_cloud: false,
                games: g,
                errors: e,
                cloud_changes: 0,
            } && f == finality && g == games && e@.len() == 0,
    {
        Operation::Restore {
            finality,
            cancelling: false,
            checking_cloud: false,
            games,
            errors: Vec::new(),
            cloud_changes: 0,
        }
    }

    pub fn new_cloud(direction: SyncDirection, finality: Finality) -> (r: Self)
        ensures
            r@ == OperationView::new_cloud(direction, finality),
            r matches Operation::Cloud {
                direction: d,
                finality: f,
                cancelling: false,
                errors: e,
                cloud_changes: 0,
            } && d == direction && f == finality && e@.len() == 0,
    {
        Operation::Cloud { direction, finality, cancelling: false, errors: Vec::new(), cloud_changes: 0 }
    }

    pub fn preview(&self) -> (r: bool)
        ensures
            r == self@.preview(),
    {
        match self {
            Operation::Idle => true,
            Operation::Backup { finality, .. } => finality.preview(),
            Operation::Restore { finality, .. } => finality.preview(),
            Operation::Cloud { finality, .. } => finality.preview(),
        }
    }

    pub fn full(&self) -> (r: bool)
        ensures
            r == self@.full(),
    {
        match self {
            Operation::Idle => false,
            Operation::Backup { games, .. } => games.is_none(),
            Operation::Restore { games, .. } => games.is_none(),
            Operation::Cloud { .. } => true,
        }
    }

    pub fn games(&self) -> (r: Option<Vec<String>>)
        ensures
            games_view(r) == self@.games(),
    {
        match self {
            Operation::Idle => None,
            Operation::Backup { games, .. } => clone_games(games),
            Operation::Restore { games, .. } => clone_games(games),
            Operation::Cloud { .. } => None,
        }
    }

    pub fn flag_cancel(&mut self)
        ensures
            final(self)@ == old(self)@.flag_cancel(),
    {
        match self {
            Operation::Idle => (),
            Operation::Backup { cancelling, .. } => *cancelling = true,
            Operation::Restore { cancelling, .. } => *cancelling = true,
            Operation::Cloud { cancelling, .. } => *cancelling = true,
        }
    }

    pub fn errors(&self) -> (r: Option<&Vec<Error>>)
        ensures
            match r {
                Some(v) => self@.errors() == Some(v@),
                None => self@.errors() is None,
            },
    {
        match self {
            Operation::Idle => None,
            Operation::Backup { errors, .. } => Some(errors),
            Operation::Restore { errors, .. } => Some(errors),
            Operation::Cloud { errors, .. } => Some(errors),
        }
    }

    pub fn push_error(&mut self, error: Error)
        ensures
            final(self)@ == old(self)@.push_error(error),
    {
        match self {
            Operation::Idle => (),
            Operation::Backup { errors, .. } => errors.push(error),
            Operation::Restore { errors, .. } => errors.push(error),
            Operation::Cloud { errors, .. } => errors.push(error),
        }
    }

    pub fn update_integrated_cloud(&mut self, finality: Finality)
        ensures
            final(self)@ == old(self)@.update_integrated_cloud(finality),
    {
        match self {
            Operation::Idle => (),
            Operation::Backup { checking_cloud, syncing_cloud, .. } => match finality {
                Finality::Preview => *checking_cloud = true,
                Finality::Final => *syncing_cloud = true,
            },
            Operation::Restore { checking_cloud, .. } => match finality {
                Finality::Preview => *checking_cloud = true,
                Finality::Final => (),
            },
            Operation::Cloud { .. } => (),
        }
    }

    pub fn transition_from_cloud_step(&mut self, synced: bool)
        ensures
            final(self)@ == old(self)@.transition_from_cloud_step(synced),
    {
        let preview = self.preview();

        match self {
            Operation::Idle => (),
            Operation::Backup { checking_cloud, syncing_cloud, should_sync_cloud_after, .. } => {
                if *checking_cloud {
                    *checking_cloud = false;
                    *should_sync_cloud_after = synced && !preview;
                    if !synced {
                        self.push_error(Error::CloudConflict);
                    }
                } else if *syncing_cloud {
                    *syncing_cloud = false;
                }
            },
            Operation::Restore { checking_cloud, .. } => {
                if *checking_cloud {
                    *checking_cloud = false;
                }
            },
            Operation::Cloud { .. } => (),
        }
    }

    pub fn is_cloud_active(&self) -> (r: bool)
        ensures
            r == self@.is_cloud_active(),
    {
        match self {
            Operation::Idle => false,
            Operation::Backup { checking_cloud, syncing_cloud, .. } => *checking_cloud
                || *syncing_cloud,
            Operation::Restore { checking_cloud, .. } => *checking_cloud,
            Operation::Cloud { .. } => true,
        }
    }

    pub fn integrated_checking_cloud(&self) -> (r: bool)
        ensures
            r == self@.integrated_checking_cloud(),
    {
        match self {
            Operation::Idle => false,
            Operation::Backup { checking_cloud, .. } => *checking_cloud,
            Operation::Restore { checking_cloud, .. } => *checking_cloud,
            Operation::Cloud { .. } => false,
        }
    }

    pub fn integrated_syncing_cloud(&self) -> (r: bool)
        ensures
            r == self@.integrated_syncing_cloud(),
    {
        match self {
            Operation::Idle => false,
            Operation::Backup { syncing_cloud, .. } => *syncing_cloud,
            Operation::Restore { .. } => false,
            Operation::Cloud { .. } => false,
        }
    }

    pub fn should_sync_cloud_after(&self) -> (r: bool)
        ensures
            r == self@.should_sync_cloud_after(),
    {
        match self {
            Operation::Idle => false,
            Operation::Backup { should_sync_cloud_after, .. } => *should_sync_cloud_after,
            Operation::Restore { .. } => false,
            Operation::Cloud { .. } => false,
        }
    }

    pub fn cloud_changes(&self) -> (r: i64)
        ensures
            r == self@.cloud_changes(),
    {
        match self {
            Operation::Idle => 0,
            Operation::Backup { cloud_changes, .. } => *cloud_changes,
            Operation::Restore { cloud_changes, .. } => *cloud_changes,
            Operation::Cloud { cloud_changes, .. } => *cloud_changes,
        }
    }

    /// The counter is a signed 64-bit integer: one more change than it can
    /// hold is an overflow, which the caller must rule out.
    pub fn add_cloud_change(&mut self)
        requires
            old(self)@.cloud_changes() < i64::MAX,
        ensures
            final(self)@ == old(self)@.add_cloud_change(),
    {
        match self {
            Operation::Idle => (),
            Operation::Backup { cloud_changes, .. } => *cloud_changes += 1,
            Operation::Restore { cloud_changes, .. } => *cloud_changes += 1,
            Operation::Cloud { cloud_changes, .. } => *cloud_changes += 1,
        }
    }
}

/// A copy of an optional list of game names, with the same names in the same order.
fn clone_games(games: &Option<Vec<String>>) -> (r: Option<Vec<String>>)
    ensures
        games_view(r) == games_view(*games),
{
    match games {
        None => None,
        Some(names) => {
            let mut out: Vec<String> = Vec::new();
            let mut i: usize = 0;
            while i < names.len()
                invariant
                    i <= names.len(),
                    out@ == names@.subrange(0, i as int),
                decreases names.len() - i,
            {
                out.push(names[i].clone());
                i = i + 1;
            }
            proof {
                assert(names@.subrange(0, names@.len() as int) =~= names@);
            }
            Some(out)
        },
    }
}

impl OperationView {
    /// The same job: the same kind of operation with the same finality, the
    /// same games and, for a cloud operation, the same direction.
    pub open spec fn same_job(self, other: OperationView) -> bool {
        match (self, other) {
            (OperationView::Idle, OperationView::Idle) => true,
            (
                OperationView::Backup { finality: f1, games: g1, .. },
                OperationView::Backup { finality: f2, games: g2, .. },
            ) => f1 == f2 && g1 == g2,
            (
                OperationView::Restore { finality: f1, games: g1, .. },
                OperationView::Restore { finality: f2, games: g2, .. },
            ) => f1 == f2 && g1 == g2,
            (
                OperationView::Cloud { direction: d1, finality: f1, .. },
                OperationView::Cloud { direction: d2, finality: f2, .. },
            ) => d1 == d2 && f1 == f2,
            _ => false,
        }
    }

    /// What holds of every operation that the constructors and mutators can
    /// produce: the change counter is never negative, and a synchronisation
    /// after a backup is only planned for a final backup.
    pub open spec fn consistent(self) -> bool {
        &&& self.cloud_changes() >= 0
        &&& self.should_sync_cloud_after() ==> !self.preview()
    }
}

/// A new operation is running, not cancelling, has recorded no error and no
/// cloud change, and is consistent; a backup or restore has no cloud step
/// active yet, a cloud operation is one, and a backup or restore is full
/// exactly when it names no games.
pub proof fn lemma_new_operations(
    finality: Finality,
    games: Option<Seq<String>>,
    direction: SyncDirection,
)
    ensures
        ({
            let b = OperationView::new_backup(finality, games);
            let r = OperationView::new_restore(finality, games);
            let c = OperationView::new_cloud(direction, finality);
            &&& !b.idle() && !r.idle() && !c.idle()
            &&& !b.cancelling() && !r.cancelling() && !c.cancelling()
            &&& b.errors() == Some(Seq::<Error>::empty())
            &&& r.errors() == Some(Seq::<Error>::empty())
            &&& c.errors() == Some(Seq::<Error>::empty())
            &&& b.cloud_changes() == 0 && r.cloud_changes() == 0 && c.cloud_changes() == 0
            &&& !b.is_cloud_active() && !r.is_cloud_active() && c.is_cloud_active()
            &&& !b.should_sync_cloud_after()
            &&& b.full() == (games is None) && r.full() == (games is None) && c.full()
            &&& b.preview() == finality.is_preview() && r.preview() == finality.is_preview()
                && c.preview() == finality.is_preview()
            &&& b.games() == games && r.games() == games && c.games() is None
            &&& b.consistent() && r.consistent() && c.consistent()
        }),
{
}

/// Nothing changes an idle front end.
pub proof fn lemma_idle_is_inert(error: Error, finality: Finality, synced: bool)
    ensures
        OperationView::Idle.flag_cancel() == OperationView::Idle,
        OperationView::Idle.push_error(error) == OperationView::Idle,
        OperationView::Idle.update_integrated_cloud(finality) == OperationView::Idle,
        OperationView::Idle.transition_from_cloud_step(synced) == OperationView::Idle,
        OperationView::Idle.add_cloud_change() == OperationView::Idle,
{
}

/// No mutator changes which job is running, whether it previews, whether it
/// is full, or which games it covers; a cancellation once flagged stays
/// flagged; recorded errors are never lost, only added at the end.
pub proof fn lemma_mutators_keep_the_job(
    v: OperationView,
    error: Error,
    finality: Finality,
    synced: bool,
)
    ensures
        ({
            let ms = seq![
                v.flag_cancel(),
                v.push_error(error),
                v.update_integrated_cloud(finality),
                v.transition_from_cloud_step(synced),
                v.add_cloud_change(),
            ];
            forall|i: int|
                0 <= i < ms.len() ==> {
                    let m = #[trigger] ms[i];
                    &&& v.same_job(m)
                    &&& m.idle() == v.idle()
                    &&& m.preview() == v.preview()
                    &&& m.full() == v.full()
                    &&& m.games() == v.games()
                    &&& v.cancelling() ==> m.cancelling()
                    &&& (m.errors() is Some) == (v.errors() is Some)
                    &&& v.errors() is Some ==> v.errors().unwrap().is_prefix_of(
                        m.errors().unwrap(),
                    )
                }
        }),
{
    let ms = seq![
        v.flag_cancel(),
        v.push_error(error),
        v.update_integrated_cloud(finality),
        v.transition_from_cloud_step(synced),
        v.add_cloud_change(),
    ];
    assert forall|i: int| 0 <= i < ms.len() implies {
        let m = #[trigger] ms[i];
        &&& v.same_job(m)
        &&& m.idle() == v.idle()
        &&& m.preview() == v.preview()
        &&& m.full() == v.full()
        &&& m.games() == v.games()
        &&& v.cancelling() ==> m.cancelling()
        &&& (m.errors() is Some) == (v.errors() is Some)
        &&& v.errors() is Some ==> v.errors().unwrap().is_prefix_of(m.errors().unwrap())
    } by {
        if v.errors() is Some {
            let e = v.errors().unwrap();
            assert(e.is_prefix_of(e));
            assert(e.is_prefix_of(e.push(error)));
            assert(e.is_prefix_of(e.push(Error::CloudConflict)));
        }
    }
}

/// Every mutator keeps an operation consistent, so every operation built from
/// a constructor by any sequence of mutations is consistent.
pub proof fn lemma_mutators_keep_consistency(
    v: OperationView,
    error: Error,
    finality: Finality,
    synced: bool,
)
    requires
        v.consistent(),
    ensures
        v.flag_cancel().consistent(),
        v.push_error(error).consistent(),
        v.update_integrated_cloud(finality).consistent(),
        v.transition_from_cloud_step(synced).consistent(),
        v.add_cloud_change().consistent(),
{
}

/// Flagging a cancellation twice is the same as flagging it once, and after
/// it every running operation is cancelling.
pub proof fn lemma_flag_cancel_idempotent(v: OperationView)
    ensures
        v.flag_cancel().flag_cancel() == v.flag_cancel(),
        v.flag_cancel().cancelling() == !v.idle(),
{
}

/// Recording an error on a running operation appends exactly that error;
/// counting a cloud change raises the counter by exactly one; neither touches
/// anything else.
pub proof fn lemma_record_and_count(v: OperationView, error: Error)
    requires
        !v.idle(),
    ensures
        v.push_error(error).errors() == Some(v.errors().unwrap().push(error)),
        v.push_error(error).cloud_changes() == v.cloud_changes(),
        v.push_error(error).is_cloud_active() == v.is_cloud_active(),
        v.push_error(error).cancelling() == v.cancelling(),
        v.add_cloud_change().cloud_changes() == v.cloud_changes() + 1,
        v.add_cloud_change().errors() == v.errors(),
        v.add_cloud_change().is_cloud_active() == v.is_cloud_active(),
        v.add_cloud_change().cancelling() == v.cancelling(),
{
}

/// Entering the integrated cloud step of a backup or restore that has none
/// active, and then leaving it, ends with no cloud step active and nothing
/// else changed, except that a backup that checked the cloud plans a
/// synchronisation afterwards exactly when the cloud was in sync and the
/// backup is final, and records a cloud conflict when it was not in sync.
pub proof fn lemma_integrated_cloud_round_trip(v: OperationView, finality: Finality, synced: bool)
    requires
        v is Backup || v is Restore,
        !v.is_cloud_active(),
    ensures
        ({
            let entered = v.update_integrated_cloud(finality);
            let w = entered.transition_from_cloud_step(synced);
            let checked_backup = v is Backup && finality.is_preview();
            &&& entered.is_cloud_active() == (v is Backup || finality.is_preview())
            &&& entered.integrated_checking_cloud() == finality.is_preview()
            &&& entered.integrated_syncing_cloud() == (v is Backup && !finality.is_preview())
            &&& !w.is_cloud_active()
            &&& v.same_job(w)
            &&& w.cancelling() == v.cancelling()
            &&& w.cloud_changes() == v.cloud_changes()
            &&& w.errors() == if checked_backup && !synced {
                Some(v.errors().unwrap().push(Error::CloudConflict))
            } else {
                v.errors()
            }
            &&& w.should_sync_cloud_after() == if checked_backup {
                synced && !v.preview()
            } else {
                v.should_sync_cloud_after()
            }
        }),
{
}

/// What each query reads from an operation. Nothing running reports a
/// preview, no games, no errors, no cloud activity and no changes. A backup
/// reports its own flags, games, errors and counter, and is cloud-active
/// exactly while it checks or synchronises the cloud. A restore has no
/// synchronising step and never plans a synchronisation. A cloud operation
/// is always cloud-active, whatever else holds of it, but is never in the
/// integrated cloud step of a backup or restore and never plans a
/// synchronisation after itself; it covers no named games and counts as full.
pub proof fn lemma_queries_read_the_operation(v: OperationView)
    ensures
        v is Idle ==> {
            &&& v.idle()
            &&& v.preview()
            &&& !v.full()
            &&& v.games() is None
            &&& v.errors() is None
            &&& !v.cancelling()
            &&& !v.is_cloud_active()
            &&& !v.integrated_checking_cloud()
            &&& !v.integrated_syncing_cloud()
            &&& !v.should_sync_cloud_after()
            &&& v.cloud_changes() == 0
        },
        v matches OperationView::Backup {
            finality,
            cancelling,
            checking_cloud,
            syncing_cloud,
            should_sync_cloud_after,
            games,
            errors,
            cloud_changes,
        } ==> {
            &&& !v.idle()
            &&& v.preview() == (finality == Finality::Preview)
            &&& v.full() == (games is None)
            &&& v.games() == games
            &&& v.errors() == Some(errors)
            &&& v.cancelling() == cancelling
            &&& v.integrated_checking_cloud() == checking_cloud
            &&& v.integrated_syncing_cloud() == syncing_cloud
            &&& v.is_cloud_active() == (checking_cloud || syncing_cloud)
            &&& v.should_sync_cloud_after() == should_sync_cloud_after
            &&& v.cloud_changes() == cloud_changes
        },
        v matches OperationView::Restore {
            finality,
            cancelling,
            checking_cloud,
            games,
            errors,
            cloud_changes,
        } ==> {
            &&& !v.idle()
            &&& v.preview() == (finality == Finality::Preview)
            &&& v.full() == (games is None)
            &&& v.games() == games
            &&& v.errors() == Some(errors)
            &&& v.cancelling() == cancelling
            &&& v.integrated_checking_cloud() == checking_cloud
            &&& !v.integrated_syncing_cloud()
            &&& v.is_cloud_active() == checking_cloud
            &&& !v.should_sync_cloud_after()
            &&& v.cloud_changes() == cloud_changes
        },
        v matches OperationView::Cloud { finality, cancelling, errors, cloud_changes, .. } ==> {
            &&& !v.idle()
            &&& v.preview() == (finality == Finality::Preview)
            &&& v.full()
            &&& v.games() is None
            &&& v.errors() == Some(errors)
            &&& v.cancelling() == cancelling
            &&& v.is_cloud_active()
            &&& !v.integrated_checking_cloud()
            &&& !v.integrated_syncing_cloud()
            &&& !v.should_sync_cloud_after()
            &&& v.cloud_changes() == cloud_changes
        },
{
}

/// Cloud activity is exactly an integrated cloud step of a backup or restore,
/// or a cloud operation; only a backup or restore can be in an integrated
/// step, only a backup synchronises in one, and only a backup plans a
/// synchronisation after itself, which for a consistent operation is a final
/// backup.
pub proof fn lemma_cloud_activity(v: OperationView)
    ensures
        v.is_cloud_active() == (v.integrated_checking_cloud() || v.integrated_syncing_cloud()
            || v is Cloud),
        v.integrated_checking_cloud() ==> v is Backup || v is Restore,
        v.integrated_syncing_cloud() ==> v is Backup,
        v.should_sync_cloud_after() ==> v is Backup,
        v.consistent() && v.should_sync_cloud_after() ==> (v matches OperationView::Backup {
            finality,
            ..
        } && finality == Finality::Final),
{
}

/// A new operation holds exactly what it was started with: its kind, its
/// finality, its games and, for a cloud operation, its direction; it is not
/// cancelling, is in no cloud step and plans no synchronisation, and has
/// recorded no error and no change.
pub proof fn lemma_new_operations_hold_their_arguments(
    finality: Finality,
    games: Option<Seq<String>>,
    direction: SyncDirection,
)
    ensures
        OperationView::new_backup(finality, games) matches OperationView::Backup {
            finality: f,
            cancelling: false,
            checking_cloud: false,
            syncing_cloud: false,
            should_sync_cloud_after: false,
            games: g,
            errors: e,
            cloud_changes: c,
        } && f == finality && g == games && e.len() == 0 && c == 0,
        OperationView::new_restore(finality, games) matches OperationView::Restore {
            finality: f,
            cancelling: false,
            checking_cloud: false,
            games: g,
            errors: e,
            cloud_changes: c,
        } && f == finality && g == games && e.len() == 0 && c == 0,
        OperationView::new_cloud(direction, finality) matches OperationView::Cloud {
            direction: d,
            finality: f,
            cancelling: false,
            errors: e,
            cloud_changes: c,
        } && d == direction && f == finality && e.len() == 0 && c == 0,
        OperationView::new_cloud(direction, finality).same_job(
            OperationView::Cloud {
                direction,
                finality,
                cancelling: false,
                errors: Seq::empty(),
                cloud_changes: 0,
            },
        ),
{
}

/// Flagging a cancellation changes nothing but the cancelling flag: the job,
/// the recorded errors, the counter, every cloud step and cloud activity and
/// any planned synchronisation stay as they were.
pub proof fn lemma_flag_cancel_changes_only_the_flag(v: OperationView)
    ensures
        ({
            let w = v.flag_cancel();
            &&& v.same_job(w)
            &&& w.cancelling() == !(v is Idle)
            &&& w.errors() == v.errors()
            &&& w.cloud_changes() == v.cloud_changes()
            &&& w.is_cloud_active() == v.is_cloud_active()
            &&& w.integrated_checking_cloud() == v.integrated_checking_cloud()
            &&& w.integrated_syncing_cloud() == v.integrated_syncing_cloud()
            &&& w.should_sync_cloud_after() == v.should_sync_cloud_after()
        }),
{
}

/// Recording an error changes nothing but the error list, which gains that
/// error at its end; counting a cloud change changes nothing but the
/// counter, which goes up by one. Neither does anything to an idle front end.
pub proof fn lemma_push_error_and_count_change_only_their_field(v: OperationView, error: Error)
    ensures
        ({
            let w = v.push_error(error);
            &&& v.same_job(w)
            &&& w.errors() == match v.errors() {
                Some(e) => Some(e.push(error)),
                None => None,
            }
            &&& w.cancelling() == v.cancelling()
            &&& w.cloud_changes() == v.cloud_changes()
            &&& w.is_cloud_active() == v.is_cloud_active()
            &&& w.integrated_checking_cloud() == v.integrated_checking_cloud()
            &&& w.integrated_syncing_cloud() == v.integrated_syncing_cloud()
            &&& w.should_sync_cloud_after() == v.should_sync_cloud_after()
        }),
        ({
            let w = v.add_cloud_change();
            &&& v.same_job(w)
            &&& w.cloud_changes() == if v is Idle {
                0
            } else {
                v.cloud_changes() + 1
            }
            &&& w.errors() == v.errors()
            &&& w.cancelling() == v.cancelling()
            &&& w.is_cloud_active() == v.is_cloud_active()
            &&& w.integrated_checking_cloud() == v.integrated_checking_cloud()
            &&& w.integrated_syncing_cloud() == v.integrated_syncing_cloud()
            &&& w.should_sync_cloud_after() == v.should_sync_cloud_after()
        }),
{
}

/// Entering an integrated cloud step: a preview makes a backup or restore
/// check the cloud, a final run makes a backup synchronise it; a step already
/// under way stays; a final restore, a cloud operation and an idle front end
/// are left alone; nothing else changes.
pub proof fn lemma_update_integrated_cloud_effect(v: OperationView, finality: Finality)
    ensures
        ({
            let w = v.update_integrated_cloud(finality);
            let preview = finality == Finality::Preview;
            &&& v.same_job(w)
            &&& w.integrated_checking_cloud() == (v.integrated_checking_cloud() || (preview && (
            v is Backup || v is Restore)))
            &&& w.integrated_syncing_cloud() == (v.integrated_syncing_cloud() || (!preview
                && v is Backup))
            &&& w.errors() == v.errors()
            &&& w.cancelling() == v.cancelling()
            &&& w.cloud_changes() == v.cloud_changes()
            &&& w.should_sync_cloud_after() == v.should_sync_cloud_after()
        }),
{
}

/// Leaving an integrated cloud step: the cloud check ends first; a backup
/// that was checking keeps any synchronisation it also runs, plans a
/// synchronisation afterwards exactly when the cloud was in sync and the
/// backup is final, and records a cloud conflict exactly when the cloud was
/// not in sync; a backup that was only synchronising stops; nothing else
/// changes, and a cloud operation and an idle front end are left alone.
pub proof fn lemma_transition_from_cloud_step_effect(v: OperationView, synced: bool)
    ensures
        ({
            let w = v.transition_from_cloud_step(synced);
            let checked_backup = v is Backup && v.integrated_checking_cloud();
            &&& v.same_job(w)
            &&& !w.integrated_checking_cloud()
            &&& w.integrated_syncing_cloud() == (v.integrated_checking_cloud()
                && v.integrated_syncing_cloud())
            &&& w.errors() == if checked_backup && !synced {
                Some(v.errors().unwrap().push(Error::CloudConflict))
            } else {
                v.errors()
            }
            &&& w.should_sync_cloud_after() == if checked_backup {
                synced && !v.preview()
            } else {
                v.should_sync_cloud_after()
            }
            &&& w.cancelling() == v.cancelling()
            &&& w.cloud_changes() == v.cloud_changes()
            &&& (v is Cloud ==> w == v)
            &&& (v is Idle ==> w == v)
        }),
{
}

/// The model of a list of game names holds the same names in the same order,
/// and no list models as none.
pub proof fn lemma_games_view_keeps_the_names(games: Option<Vec<String>>)
    ensures
        games is None ==> games_view(games) is None,
        games matches Some(v) ==> games_view(games) == Some(v@),
{
}

/// The model of an operation is the operation of the same kind with the same
/// fields: lists as their sequences and the counter as its value.
pub proof fn lemma_view_keeps_the_fields(op: Operation)
    ensures
        op is Idle ==> op@ is Idle,
        op matches Operation::Backup {
            finality,
            cancelling,
            checking_cloud,
            syncing_cloud,
            should_sync_cloud_after,
            games,
            errors,
            cloud_changes,
        } ==> op@ matches OperationView::Backup {
            finality: f,
            cancelling: c,
            checking_cloud: k,
            syncing_cloud: y,
            should_sync_cloud_after: a,
            games: g,
            errors: e,
            cloud_changes: n,
        } && f == finality && c == cancelling && k == checking_cloud && y == syncing_cloud && a
            == should_sync_cloud_after && g == games_view(games) && e == errors@ && n
            == cloud_changes,
        op matches Operation::Restore {
            finality,
            cancelling,
            checking_cloud,
            games,
            errors,
            cloud_changes,
        } ==> op@ matches OperationView::Restore {
            finality: f,
            cancelling: c,
            checking_cloud: k,
            games: g,
            errors: e,
            cloud_changes: n,
        } && f == finality && c == cancelling && k == checking_cloud && g == games_view(games)
            && e == errors@ && n == cloud_changes,
        op matches Operation::Cloud { direction, finality, cancelling, errors, cloud_changes }
            ==> op@ matches OperationView::Cloud {
            direction: d,
            finality: f,
            cancelling: c,
            errors: e,
            cloud_changes: n,
        } && d == direction && f == finality && c == cancelling && e == errors@ && n
            == cloud_changes,
{
}

impl Default for Operation {
    fn default() -> (r: Self)
        ensures
            r@ == OperationView::Idle,
    {
        Operation::Idle
    }
}

} // verus!
