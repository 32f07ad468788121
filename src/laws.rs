use vstd::prelude::*;
use crate::config::{AppConfig, ConfigError, default_model, DEFAULT_KEY_ROTATION};
use crate::paths::{Layout, THEME_COUNT};
use crate::retention::{oldest_removed, RETENTION};
use crate::manager::{ActionModel, Event, ManagerModel, Stage, model_wf, removal_planned, transition};

verus! {

/// A loaded record whose key rotation is zero is repaired: the file is moved
/// to quarantine, the quarantined content is read back, and the record
/// written at the configuration path has the rotation set to the default while
/// its other valid fields are kept.
pub proof fn lemma_zero_rotation_salvaged(
    l: Layout,
    c: AppConfig,
    ts: u64,
    m0: ManagerModel,
    m1: ManagerModel,
    a1: ActionModel,
    m2: ManagerModel,
    a2: ActionModel,
    m3: ManagerModel,
    a3: ActionModel,
    m4: ManagerModel,
    a4: ActionModel,
)
    requires
        c.key_rotation == 0,
        m0.stage == Stage::ConfigLoad,
        transition(l, m0, Event::Loaded(Ok(c)), m1, a1),
        transition(l, m1, Event::Now(Ok(ts)), m2, a2),
        transition(l, m2, Event::Done(Ok(())), m3, a3),
        transition(l, m3, Event::Loaded(Ok(c)), m4, a4),
    ensures
        a1 == ActionModel::ReadClock,
        a2 == ActionModel::Move(l.config_path_spec(), l.quarantine_path_spec(ts)),
        a3 == ActionModel::LoadConfig(l.quarantine_path_spec(ts)),
        a4 matches ActionModel::WriteConfig(p, w) && {
            &&& p == l.config_path_spec()
            &&& w.key_rotation == DEFAULT_KEY_ROTATION
            &&& w.log_level == c.log_level@
            &&& w.auto_connect == c.auto_connect
            &&& (c.theme@.len() > 0 ==> w.theme == c.theme@)
        },
{
}

/// Content that cannot be read or decoded is moved to quarantine as it is;
/// when the quarantined copy reads but does not decode, the default record is
/// written at the configuration path.
pub proof fn lemma_undecodable_replaced_by_default(
    l: Layout,
    e1: ConfigError,
    e2: ConfigError,
    ts: u64,
    m0: ManagerModel,
    m1: ManagerModel,
    a1: ActionModel,
    m2: ManagerModel,
    a2: ActionModel,
    m3: ManagerModel,
    a3: ActionModel,
    m4: ManagerModel,
    a4: ActionModel,
)
    requires
        m0.stage == Stage::ConfigLoad,
        transition(l, m0, Event::Loaded(Err(e1)), m1, a1),
        transition(l, m1, Event::Now(Ok(ts)), m2, a2),
        transition(l, m2, Event::Done(Ok(())), m3, a3),
        transition(l, m3, Event::Loaded(Err(e2)), m4, a4),
        !(e2 is Io),
    ensures
        a1 == ActionModel::ReadClock,
        a2 == ActionModel::Move(l.config_path_spec(), l.quarantine_path_spec(ts)),
        a3 == ActionModel::LoadConfig(l.quarantine_path_spec(ts)),
        a4 == ActionModel::WriteConfig(l.config_path_spec(), default_model()),
{
}

/// A quarantined copy that cannot be read is reported as that I/O error,
/// not taken for content with nothing to salvage: initialization ends and
/// nothing is written.
pub proof fn lemma_unreadable_quarantine_reported(
    l: Layout,
    ts: u64,
    msg: String,
    m0: ManagerModel,
    m1: ManagerModel,
    a1: ActionModel,
)
    requires
        m0.stage == Stage::Salvage(ts),
        transition(l, m0, Event::Loaded(Err(ConfigError::Io(msg))), m1, a1),
    ensures
        m1.stage == Stage::Finished,
        a1 == ActionModel::Finish(Err(ConfigError::Io(msg))),
{
}

/// With no configuration file, exactly one file is written, holding the
/// default record, and initialization then moves on to backups.
pub proof fn lemma_absent_config_gets_default(
    l: Layout,
    m0: ManagerModel,
    m1: ManagerModel,
    a1: ActionModel,
    m2: ManagerModel,
    a2: ActionModel,
)
    requires
        m0.stage == Stage::ConfigProbe,
        transition(l, m0, Event::Exists(false), m1, a1),
        transition(l, m1, Event::Done(Ok(())), m2, a2),
    ensures
        a1 == ActionModel::WriteConfig(l.config_path_spec(), default_model()),
        a2 == ActionModel::ListDir(l.backup_dir_spec()),
        default_model().theme == "dark"@,
        default_model().log_level == "info"@,
        default_model().auto_connect,
        default_model().key_rotation == 86400,
{
    reveal_strlit("dark");
    reveal_strlit("info");
    assert(default_model().theme =~= "dark"@);
    assert(default_model().log_level =~= "info"@);
}

/// Seeding writes a theme file only right after a probe of that very path
/// found nothing there; a theme file already present is never written.
pub proof fn lemma_theme_write_needs_absence(
    l: Layout,
    m0: ManagerModel,
    e0: Event,
    m1: ManagerModel,
    a1: ActionModel,
    e1: Event,
    m2: ManagerModel,
    a2: ActionModel,
)
    requires
        transition(l, m0, e0, m1, a1),
        transition(l, m1, e1, m2, a2),
        a2 is WriteTheme,
    ensures
        m0.stage matches Stage::ThemeProbe(i) && {
            &&& e0 == Event::Exists(false)
            &&& a2->WriteTheme_0 == l.theme_path_spec(i as int)
        },
{
}

/// A probe that finds a theme file leads to no write of it.
pub proof fn lemma_present_theme_untouched(
    l: Layout,
    i: usize,
    m0: ManagerModel,
    m1: ManagerModel,
    a1: ActionModel,
)
    requires
        i < THEME_COUNT,
        m0.stage == Stage::ThemeProbe(i),
        transition(l, m0, Event::Exists(true), m1, a1),
    ensures
        a1 !is WriteTheme,
        m1.stage !is ThemeCheck,
        m1.stage !is ThemeWrite,
{
}

/// No step loses a broken configuration file: the only move takes the
/// configuration file into quarantine, a failed move ends initialization
/// before anything is written, the file is rewritten after its presence was
/// seen only once the move succeeded, and the only deletions are of backups
/// that retention planned.
pub proof fn lemma_quarantine_keeps_data(
    l: Layout,
    m0: ManagerModel,
    ev: Event,
    m1: ManagerModel,
    act: ActionModel,
)
    requires
        model_wf(m0),
        transition(l, m0, ev, m1, act),
    ensures
        act matches ActionModel::Move(from, to) ==> {
            &&& from == l.config_path_spec()
            &&& m1.stage matches Stage::Quarantine(ts) && to == l.quarantine_path_spec(ts)
        },
        m0.stage is Quarantine ==> (ev matches Event::Done(Err(e)) ==> act == ActionModel::Finish(Err(e))),
        act is WriteConfig ==> m0.stage == Stage::ConfigProbe || m0.stage is Salvage,
        m1.stage is Salvage ==> m0.stage is Quarantine && ev matches Event::Done(Ok(_)),
        act matches ActionModel::Remove(p) ==> m1.stage matches Stage::BackupRemove(i) && m1.pending[i as int] == p,
{
    match (m0.stage, ev) {
        (Stage::BackupList, Event::Listed(Ok(entries))) => {
            let removed = choose|removed: Seq<usize>| removal_planned(entries@, removed, m1, act);
            assert(removal_planned(entries@, removed, m1, act));
        },
        _ => {},
    }
}

/// With more than `RETENTION` backups whose modification times are all
/// readable and distinct, pruning leaves exactly `RETENTION` of them, each
/// newer than every backup removed.
pub proof fn lemma_retention_keeps_newest(stamps: Seq<Option<u128>>, removed: Seq<usize>)
    requires
        stamps.len() > RETENTION,
        forall|i: int| 0 <= i < stamps.len() ==> (#[trigger] stamps[i]) is Some,
        forall|i: int, j: int| 0 <= i < stamps.len() && 0 <= j < stamps.len() && i != j
            ==> stamps[i] != stamps[j],
        oldest_removed(stamps, removed),
    ensures
        stamps.len() - removed.len() == RETENTION,
        forall|k: int, j: int|
            0 <= k < removed.len() && 0 <= j < stamps.len() && !removed.contains(j as usize)
                ==> stamps[#[trigger] removed[k] as int]->0 < (#[trigger] stamps[j])->0,
{
    assert forall|k: int, j: int|
        0 <= k < removed.len() && 0 <= j < stamps.len() && !removed.contains(j as usize)
            implies stamps[#[trigger] removed[k] as int]->0 < (#[trigger] stamps[j])->0 by {
        let r = removed[k] as int;
        assert(stamps[r] is Some);
        if r == j {
            assert(removed.contains(j as usize));
        }
    }
}

} // verus!
