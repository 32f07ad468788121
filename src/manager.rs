use vstd::prelude::*;
use vstd::string::*;
use crate::config::{AppConfig, ConfigError, ConfigModel, default_model, model_valid, recreated_model};
use crate::paths::{Layout, DIRECTORY_COUNT, THEME_COUNT, theme_name};
use crate::retention::{backups_to_remove, oldest_removed};

verus! {

/// One entry of the backup directory, as the host lists it.
#[derive(Debug, Clone)]
pub struct BackupEntry {
    pub path: String,
    /// Modification time in nanoseconds since the epoch; `None` when the
    /// metadata could not be read.
    pub modified: Option<u128>,
}

/// A filesystem step that the host performs next, and the event it answers
/// with.
#[derive(Debug)]
pub enum Action {
    /// Create a directory and its parents; answer `Done`.
    CreateDir(String),
    /// Does something exist at this path? Answer `Exists`.
    Probe(String),
    /// Decode the built-in theme of this name against the theme schema;
    /// answer `Checked`.
    CheckTheme(String),
    /// Write the built-in theme of the given name, verbatim, to the path;
    /// answer `Done`.
    WriteTheme(String, String),
    /// Read and decode the configuration record at this path; answer `Loaded`.
    LoadConfig(String),
    /// Read the clock; answer `Now` with seconds since the epoch, or why the
    /// clock could not give them.
    ReadClock,
    /// Rename a file (source, destination); answer `Done`.
    Move(String, String),
    /// Encode the record and write it to the path; answer `Done`.
    WriteConfig(String, AppConfig),
    /// List a directory; answer `Listed`.
    ListDir(String),
    /// Delete a file; answer `Done`.
    Remove(String),
    /// Initialization is over, with this outcome.
    Finish(Result<(), ConfigError>),
}

/// What the host reports after performing an [`Action`].
#[derive(Debug)]
pub enum Event {
    Done(Result<(), ConfigError>),
    Exists(bool),
    /// The theme decoded, or the decoder's message.
    Checked(Result<(), String>),
    /// The decoded record, or why reading (`Io`) or decoding (`Parse`) failed.
    /// While salvaging, a failed read ends initialization with that error,
    /// while content that does not decode leaves nothing to salvage.
    Loaded(Result<AppConfig, ConfigError>),
    Now(Result<u64, ConfigError>),
    Listed(Result<Vec<BackupEntry>, ConfigError>),
}

/// Model of an [`Action`]: paths as character sequences, records as models.
pub enum ActionModel {
    CreateDir(Seq<char>),
    Probe(Seq<char>),
    CheckTheme(Seq<char>),
    WriteTheme(Seq<char>, Seq<char>),
    LoadConfig(Seq<char>),
    ReadClock,
    Move(Seq<char>, Seq<char>),
    WriteConfig(Seq<char>, ConfigModel),
    ListDir(Seq<char>),
    Remove(Seq<char>),
    Finish(Result<(), ConfigError>),
}

impl View for Action {
    type V = ActionModel;

    open spec fn view(&self) -> ActionModel {
        match self {
            Action::CreateDir(p) => ActionModel::CreateDir(p@),
            Action::Probe(p) => ActionModel::Probe(p@),
            Action::CheckTheme(n) => ActionModel::CheckTheme(n@),
            Action::WriteTheme(p, n) => ActionModel::WriteTheme(p@, n@),
            Action::LoadConfig(p) => ActionModel::LoadConfig(p@),
            Action::ReadClock => ActionModel::ReadClock,
            Action::Move(a, b) => ActionModel::Move(a@, b@),
            Action::WriteConfig(p, c) => ActionModel::WriteConfig(p@, c@),
            Action::ListDir(p) => ActionModel::ListDir(p@),
            Action::Remove(p) => ActionModel::Remove(p@),
            Action::Finish(r) => ActionModel::Finish(*r),
        }
    }
}

/// Where initialization stands: which action's answer it waits for.
#[derive(Debug, Clone, Copy, PartialEq, Eq)]
pub enum Stage {
    Directories(usize),
    ThemeProbe(usize),
    ThemeCheck(usize),
    ThemeWrite(usize),
    ConfigProbe,
    ConfigLoad,
    QuarantineClock,
    Quarantine(u64),
    Salvage(u64),
    ConfigWrite,
    BackupList,
    BackupRemove(usize),
    Finished,
}

/// Model of a [`ConfigManager`]: its stage and the backups still to delete.
pub struct ManagerModel {
    pub stage: Stage,
    pub pending: Seq<Seq<char>>,
}

pub open spec fn model_wf(m: ManagerModel) -> bool {
    &&& m.pending.len() <= usize::MAX
    &&& match m.stage {
        Stage::Directories(i) => i < DIRECTORY_COUNT,
        Stage::ThemeProbe(i) => i < THEME_COUNT,
        Stage::ThemeCheck(i) => i < THEME_COUNT,
        Stage::ThemeWrite(i) => i < THEME_COUNT,
        Stage::BackupRemove(i) => i < m.pending.len(),
        _ => true,
    }
}

/// Which answer each stage waits for.
pub open spec fn accepts_spec(stage: Stage, ev: Event) -> bool {
    match stage {
        Stage::Directories(_) | Stage::ThemeWrite(_) | Stage::Quarantine(_) | Stage::ConfigWrite
        | Stage::BackupRemove(_) => ev is Done,
        Stage::ThemeProbe(_) | Stage::ConfigProbe => ev is Exists,
        Stage::ThemeCheck(_) => ev is Checked,
        Stage::ConfigLoad | Stage::Salvage(_) => ev is Loaded,
        Stage::QuarantineClock => ev is Now,
        Stage::BackupList => ev is Listed,
        Stage::Finished => false,
    }
}

pub open spec fn finish_with(r: Result<(), ConfigError>) -> (Stage, ActionModel) {
    (Stage::Finished, ActionModel::Finish(r))
}

/// After directory `i` exists: the next directory, or the first theme.
pub open spec fn after_directory(l: Layout, i: usize) -> (Stage, ActionModel) {
    if i + 1 < DIRECTORY_COUNT {
        (Stage::Directories((i + 1) as usize), ActionModel::CreateDir(l.directory_spec(i + 1)))
    } else {
        (Stage::ThemeProbe(0), ActionModel::Probe(l.theme_path_spec(0)))
    }
}

/// After theme `i` is in place: the next theme, or the configuration file.
pub open spec fn after_theme(l: Layout, i: usize) -> (Stage, ActionModel) {
    if i + 1 < THEME_COUNT {
        (Stage::ThemeProbe((i + 1) as usize), ActionModel::Probe(l.theme_path_spec(i + 1)))
    } else {
        (Stage::ConfigProbe, ActionModel::Probe(l.config_path_spec()))
    }
}

pub open spec fn to_backups(l: Layout) -> (Stage, ActionModel) {
    (Stage::BackupList, ActionModel::ListDir(l.backup_dir_spec()))
}

/// Every transition but the one that plans backup removal: it keeps the
/// pending removals and is fixed by the stage and the event. Failures end
/// initialization with that failure, except while pruning backups, which is
/// not critical: a failed listing or removal ends pruning, and
/// initialization succeeds.
pub open spec fn fixed_step(l: Layout, stage: Stage, pending: Seq<Seq<char>>, ev: Event) -> (Stage, ActionModel) {
    match (stage, ev) {
        (Stage::Directories(i), Event::Done(r)) => match r {
            Ok(_) => after_directory(l, i),
            Err(e) => finish_with(Err(e)),
        },
        (Stage::ThemeProbe(i), Event::Exists(present)) => if present {
            after_theme(l, i)
        } else {
            (Stage::ThemeCheck(i), ActionModel::CheckTheme(theme_name(i as int)))
        },
        (Stage::ThemeCheck(i), Event::Checked(r)) => match r {
            Ok(_) => (Stage::ThemeWrite(i), ActionModel::WriteTheme(l.theme_path_spec(i as int), theme_name(i as int))),
            Err(m) => finish_with(Err(ConfigError::Validation(m))),
        },
        (Stage::ThemeWrite(i), Event::Done(r)) => match r {
            Ok(_) => after_theme(l, i),
            Err(e) => finish_with(Err(e)),
        },
        (Stage::ConfigProbe, Event::Exists(present)) => if present {
            (Stage::ConfigLoad, ActionModel::LoadConfig(l.config_path_spec()))
        } else {
            (Stage::ConfigWrite, ActionModel::WriteConfig(l.config_path_spec(), default_model()))
        },
        (Stage::ConfigLoad, Event::Loaded(r)) => match r {
            Ok(c) => if model_valid(c@) {
                to_backups(l)
            } else {
                (Stage::QuarantineClock, ActionModel::ReadClock)
            },
            Err(_) => (Stage::QuarantineClock, ActionModel::ReadClock),
        },
        (Stage::QuarantineClock, Event::Now(r)) => match r {
            Ok(ts) => (Stage::Quarantine(ts), ActionModel::Move(l.config_path_spec(), l.quarantine_path_spec(ts))),
            Err(e) => finish_with(Err(e)),
        },
        (Stage::Quarantine(ts), Event::Done(r)) => match r {
            Ok(_) => (Stage::Salvage(ts), ActionModel::LoadConfig(l.quarantine_path_spec(ts))),
            Err(e) => finish_with(Err(e)),
        },
        (Stage::Salvage(_), Event::Loaded(r)) => match r {
            Ok(c) => (Stage::ConfigWrite, ActionModel::WriteConfig(l.config_path_spec(), recreated_model(Some(c)))),
            Err(ConfigError::Io(m)) => finish_with(Err(ConfigError::Io(m))),
            Err(_) => (Stage::ConfigWrite, ActionModel::WriteConfig(l.config_path_spec(), recreated_model(None))),
        },
        (Stage::ConfigWrite, Event::Done(r)) => match r {
            Ok(_) => to_backups(l),
            Err(e) => finish_with(Err(e)),
        },
        (Stage::BackupList, Event::Listed(_)) => finish_with(Ok(())),
        (Stage::BackupRemove(i), Event::Done(r)) => match r {
            Ok(_) => if i + 1 < pending.len() {
                (Stage::BackupRemove((i + 1) as usize), ActionModel::Remove(pending[i + 1]))
            } else {
                finish_with(Ok(()))
            },
            Err(_) => finish_with(Ok(())),
        },
        _ => finish_with(Ok(())),
    }
}

pub open spec fn stamps_of(entries: Seq<BackupEntry>) -> Seq<Option<u128>> {
    entries.map_values(|e: BackupEntry| e.modified)
}

/// The paths of the entries at the given indices.
pub open spec fn paths_at(entries: Seq<BackupEntry>, idx: Seq<usize>) -> Seq<Seq<char>> {
    idx.map_values(|k: usize| entries[k as int].path@)
}

/// The backup listing arrived: the oldest entries beyond the retention
/// window, at the indices `removed`, become the pending removals, and the
/// first is removed.
pub open spec fn removal_planned(entries: Seq<BackupEntry>, removed: Seq<usize>, after: ManagerModel, act: ActionModel) -> bool {
    &&& oldest_removed(stamps_of(entries), removed)
    &&& after.pending == paths_at(entries, removed)
    &&& if removed.len() == 0 {
        after.stage == Stage::Finished && act == ActionModel::Finish(Ok(()))
    } else {
        after.stage == Stage::BackupRemove(0) && act == ActionModel::Remove(after.pending[0])
    }
}

pub open spec fn plans_removal(entries: Seq<BackupEntry>, after: ManagerModel, act: ActionModel) -> bool {
    exists|removed: Seq<usize>| removal_planned(entries, removed, after, act)
}

/// One step of initialization: from `before`, on `ev`, to `after`, asking
/// the host for `act`.
pub open spec fn transition(l: Layout, before: ManagerModel, ev: Event, after: ManagerModel, act: ActionModel) -> bool {
    match (before.stage, ev) {
        (Stage::BackupList, Event::Listed(Ok(entries))) => plans_removal(entries@, after, act),
        _ => {
            let (s, a) = fixed_step(l, before.stage, before.pending, ev);
            after.stage == s && after.pending == before.pending && act == a
        },
    }
}

/// Drives initialization: provisions the directories, seeds the themes,
/// loads or repairs the configuration file, and prunes old backups, one
/// filesystem step at a time.
pub struct ConfigManager {
    pub layout: Layout,
    pub stage: Stage,
    /// Backups that retention still has to delete.
    pub pending: Vec<String>,
}

impl ConfigManager {
    pub open spec fn model(&self) -> ManagerModel {
        ManagerModel { stage: self.stage, pending: self.pending@.map_values(|s: String| s@) }
    }

    /// Starts initialization on `layout`: the first step creates the first
    /// directory.
    pub fn initialize(layout: Layout) -> (r: (ConfigManager, Action))
        ensures
            r.0.layout == layout,
            r.0.model().stage == Stage::Directories(0),
            model_wf(r.0.model()),
            r.1@ == ActionModel::CreateDir(layout.directory_spec(0)),
    {
        let first = layout.directory(0);
        (ConfigManager { layout, stage: Stage::Directories(0), pending: Vec::new() }, Action::CreateDir(first))
    }

    /// Whether `ev` is the answer that the current stage waits for.
    pub fn accepts(&self, ev: &Event) -> (r: bool)
        ensures
            r == accepts_spec(self.model().stage, *ev),
    {
        match (self.stage, ev) {
            (Stage::Directories(_), Event::Done(_)) => true,
            (Stage::ThemeWrite(_), Event::Done(_)) => true,
            (Stage::Quarantine(_), Event::Done(_)) => true,
            (Stage::ConfigWrite, Event::Done(_)) => true,
            (Stage::BackupRemove(_), Event::Done(_)) => true,
            (Stage::ThemeProbe(_), Event::Exists(_)) => true,
            (Stage::ConfigProbe, Event::Exists(_)) => true,
            (Stage::ThemeCheck(_), Event::Checked(_)) => true,
            (Stage::ConfigLoad, Event::Loaded(_)) => true,
            (Stage::Salvage(_), Event::Loaded(_)) => true,
            (Stage::QuarantineClock, Event::Now(_)) => true,
            (Stage::BackupList, Event::Listed(_)) => true,
            _ => false,
        }
    }

    /// Whether initialization is over.
    pub fn is_finished(&self) -> (r: bool)
        ensures
            r == (self.model().stage == Stage::Finished),
    {
        match self.stage {
            Stage::Finished => true,
            _ => false,
        }
    }

    fn finish(&mut self, r: Result<(), ConfigError>) -> (act: Action)
        ensures
            final(self).layout == old(self).layout,
            final(self).model().pending == old(self).model().pending,
            (final(self).model().stage, act@) == finish_with(r),
    {
        self.stage = Stage::Finished;
        Action::Finish(r)
    }

    fn next_directory(&mut self, i: usize) -> (act: Action)
        requires
            i < DIRECTORY_COUNT,
        ensures
            final(self).layout == old(self).layout,
            final(self).model().pending == old(self).model().pending,
            (final(self).model().stage, act@) == after_directory(old(self).layout, i),
    {
        if i + 1 < DIRECTORY_COUNT {
            self.stage = Stage::Directories(i + 1);
            Action::CreateDir(self.layout.directory(i + 1))
        } else {
            self.stage = Stage::ThemeProbe(0);
            Action::Probe(self.layout.theme_path(0))
        }
    }

    fn next_theme(&mut self, i: usize) -> (act: Action)
        requires
            i < THEME_COUNT,
        ensures
            final(self).layout == old(self).layout,
            final(self).model().pending == old(self).model().pending,
            (final(self).model().stage, act@) == after_theme(old(self).layout, i),
    {
        if i + 1 < THEME_COUNT {
            self.stage = Stage::ThemeProbe(i + 1);
            Action::Probe(self.layout.theme_path(i + 1))
        } else {
            self.stage = Stage::ConfigProbe;
            Action::Probe(self.layout.config_path())
        }
    }

    fn start_backups(&mut self) -> (act: Action)
        ensures
            final(self).layout == old(self).layout,
            final(self).model().pending == old(self).model().pending,
            (final(self).model().stage, act@) == to_backups(old(self).layout),
    {
        self.stage = Stage::BackupList;
        Action::ListDir(self.layout.backup_dir())
    }

    fn plan_removal(&mut self, entries: Vec<BackupEntry>) -> (act: Action)
        ensures
            final(self).layout == old(self).layout,
            model_wf(final(self).model()),
            plans_removal(entries@, final(self).model(), act@),
    {
        let mut stamps: Vec<Option<u128>> = Vec::new();
        let mut i: usize = 0;
        while i < entries.len()
            invariant
                i <= entries@.len(),
                stamps@.len() == i,
                forall|k: int| 0 <= k < i ==> stamps@[k] == #[trigger] entries@[k].modified,
            decreases entries@.len() - i,
        {
            stamps.push(entries[i].modified);
            i = i + 1;
        }
        assert(stamps@ =~= stamps_of(entries@));
        let removed = backups_to_remove(&stamps);
        let mut pending: Vec<String> = Vec::new();
        let mut k: usize = 0;
        while k < removed.len()
            invariant
                k <= removed@.len(),
                oldest_removed(stamps_of(entries@), removed@),
                pending@.len() == k,
                forall|q: int| 0 <= q < k ==> (#[trigger] pending@[q])@ == entries@[removed@[q] as int].path@,
            decreases removed@.len() - k,
        {
            pending.push(entries[removed[k]].path.clone());
            k = k + 1;
        }
        self.pending = pending;
        assert(self.model().pending =~= paths_at(entries@, removed@));
        let act = if removed.len() == 0 {
            self.stage = Stage::Finished;
            Action::Finish(Ok(()))
        } else {
            self.stage = Stage::BackupRemove(0);
            Action::Remove(self.pending[0].clone())
        };
        assert(removal_planned(entries@, removed@, self.model(), act@));
        act
    }

    /// Takes the host's answer to the last action and returns the next one.
    pub fn step(&mut self, ev: Event) -> (act: Action)
        requires
            model_wf(old(self).model()),
            accepts_spec(old(self).model().stage, ev),
        ensures
            final(self).layout == old(self).layout,
            model_wf(final(self).model()),
            transition(old(self).layout, old(self).model(), ev, final(self).model(), act@),
    {
        assert(self.model().pending.len() == self.pending@.len());
        match (self.stage, ev) {
            (Stage::Directories(i), Event::Done(r)) => match r {
                Ok(()) => self.next_directory(i),
                Err(e) => self.finish(Err(e)),
            },
            (Stage::ThemeProbe(i), Event::Exists(present)) => if present {
                self.next_theme(i)
            } else {
                self.stage = Stage::ThemeCheck(i);
                Action::CheckTheme(String::from_str(Layout::theme_name(i)))
            },
            (Stage::ThemeCheck(i), Event::Checked(r)) => match r {
                Ok(()) => {
                    self.stage = Stage::ThemeWrite(i);
                    Action::WriteTheme(self.layout.theme_path(i), String::from_str(Layout::theme_name(i)))
                },
                Err(m) => self.finish(Err(ConfigError::Validation(m))),
            },
            (Stage::ThemeWrite(i), Event::Done(r)) => match r {
                Ok(()) => self.next_theme(i),
                Err(e) => self.finish(Err(e)),
            },
            (Stage::ConfigProbe, Event::Exists(present)) => if present {
                self.stage = Stage::ConfigLoad;
                Action::LoadConfig(self.layout.config_path())
            } else {
                self.stage = Stage::ConfigWrite;
                Action::WriteConfig(self.layout.config_path(), AppConfig::default_config())
            },
            (Stage::ConfigLoad, Event::Loaded(r)) => {
                let valid = match &r {
                    Ok(c) => c.validate().is_ok(),
                    Err(_) => false,
                };
                if valid {
                    self.start_backups()
                } else {
                    self.stage = Stage::QuarantineClock;
                    Action::ReadClock
                }
            },
            (Stage::QuarantineClock, Event::Now(r)) => match r {
                Ok(ts) => {
                    self.stage = Stage::Quarantine(ts);
                    Action::Move(self.layout.config_path(), self.layout.quarantine_path(ts))
                },
                Err(e) => self.finish(Err(e)),
            },
            (Stage::Quarantine(ts), Event::Done(r)) => match r {
                Ok(()) => {
                    self.stage = Stage::Salvage(ts);
                    Action::LoadConfig(self.layout.quarantine_path(ts))
                },
                Err(e) => self.finish(Err(e)),
            },
            (Stage::Salvage(_), Event::Loaded(r)) => match r {
                Err(ConfigError::Io(m)) => self.finish(Err(ConfigError::Io(m))),
                r => {
                    let decoded = match r {
                        Ok(c) => Some(c),
                        Err(_) => None,
                    };
                    self.stage = Stage::ConfigWrite;
                    Action::WriteConfig(self.layout.config_path(), AppConfig::recreate(decoded))
                },
            },
            (Stage::ConfigWrite, Event::Done(r)) => match r {
                Ok(()) => self.start_backups(),
                Err(e) => self.finish(Err(e)),
            },
            (Stage::BackupList, Event::Listed(r)) => match r {
                Ok(entries) => self.plan_removal(entries),
                Err(_) => self.finish(Ok(())),
            },
            (Stage::BackupRemove(i), Event::Done(r)) => match r {
                Ok(()) => if i < self.pending.len() - 1 {
                    self.stage = Stage::BackupRemove(i + 1);
                    Action::Remove(self.pending[i + 1].clone())
                } else {
                    self.finish(Ok(()))
                },
                Err(_) => self.finish(Ok(())),
            },
            _ => self.finish(Ok(())),
        }
    }
}

} // verus!
