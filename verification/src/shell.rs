use crate::events::EventLog;
use crate::files::FileList;
use crate::files::FileListModel;
use crate::names::is_random_name;
use crate::paths::random_file_path;
use crate::paths::FilePath;
use crate::watch::SessionModel;
use crate::watch::WatchCommand;
use crate::watch::WatchSession;
use notify::Event;
use std::sync::mpsc::Receiver;
use vstd::prelude::*;

verus! {

/// Everything a tick works on: the watch, the files created so far and the log of
/// notifications. One value of it is handed through every tick.
#[derive(Debug)]
pub struct Shell {
    pub session: WatchSession,
    pub files: FileList,
    pub log: EventLog,
}

impl Shell {
    /// The state at startup: a watch on `directory` is asked for, no file is
    /// listed and the log is empty. The command that watches `directory` is handed
    /// out with it.
    pub fn open(directory: String) -> (step: (Shell, WatchCommand))
        ensures
            step.0.session@ == SessionModel::start(directory@),
            step.0.files@ == FileListModel::empty(),
            step.0.log@ == Seq::<Event>::empty(),
            Some(step.1@) == step.0.session@.outstanding(),
    {
        let (session, command) = WatchSession::start(directory);
        (Shell { session, files: FileList::new(), log: EventLog::new() }, command)
    }

    /// Picks the path for a new file: a freshly generated name in the current
    /// directory.
    pub fn plan_create(&self) -> (path: FilePath)
        ensures
            path@.dir == self.session@.current(),
            is_random_name(path@.name),
    {
        random_file_path(self.session.current_directory().to_owned())
    }

    /// Ends a tick: the files removed during the tick leave the list, then at most
    /// one queued notification is received from `rx` and logged. The watch is not
    /// touched.
    pub fn finish_tick(&mut self, rx: &Receiver<Result<Event, notify::Error>>)
        ensures
            final(self).session@ == old(self).session@,
            final(self).files@ == old(self).files@.reconcile(),
            final(self).log@ == old(self).log@ || (final(self).log@.len() == old(self).log@.len()
                + 1 && final(self).log@.drop_last() == old(self).log@),
    {
        self.files.reconcile();
        self.log.poll(rx);
    }
}

} // verus!
