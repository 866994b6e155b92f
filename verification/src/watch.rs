use vstd::prelude::*;

verus! {

/// What a [`WatchCommand`] stands for.
pub enum CommandModel {
    Watch(Seq<char>),
    Unwatch(Seq<char>),
}

impl CommandModel {
    /// The directory the watcher is bound to once the command has succeeded, given
    /// the one it was bound to before.
    pub open spec fn perform(self, bound: Option<Seq<char>>) -> Option<Seq<char>> {
        match self {
            CommandModel::Watch(directory) => Some(directory),
            CommandModel::Unwatch(directory) => if bound == Some(directory) {
                None
            } else {
                bound
            },
        }
    }
}

/// What a [`WatchSession`] stands for.
pub enum SessionModel {
    Binding { current: Seq<char>, next: Seq<char> },
    Watching { current: Seq<char> },
    Releasing { current: Seq<char>, next: Seq<char> },
}

impl SessionModel {
    /// The session at startup: a watch on `directory` is asked for.
    pub open spec fn start(directory: Seq<char>) -> SessionModel {
        SessionModel::Binding { current: directory, next: directory }
    }

    /// The directory shown as the current one.
    pub open spec fn current(self) -> Seq<char> {
        match self {
            SessionModel::Binding { current, .. } => current,
            SessionModel::Watching { current } => current,
            SessionModel::Releasing { current, .. } => current,
        }
    }

    /// The directory the watcher is bound to, if it is bound.
    pub open spec fn bound(self) -> Option<Seq<char>> {
        match self {
            SessionModel::Binding { .. } => None,
            SessionModel::Watching { current } => Some(current),
            SessionModel::Releasing { current, .. } => Some(current),
        }
    }

    /// The command that was handed out and whose outcome is still awaited.
    pub open spec fn outstanding(self) -> Option<CommandModel> {
        match self {
            SessionModel::Binding { next, .. } => Some(CommandModel::Watch(next)),
            SessionModel::Watching { .. } => None,
            SessionModel::Releasing { current, .. } => Some(CommandModel::Unwatch(current)),
        }
    }

    /// The session after a request to watch `next` instead. A request is taken up
    /// only while no command is outstanding; otherwise nothing changes.
    pub open spec fn switch_to(self, next: Seq<char>) -> SessionModel {
        match self {
            SessionModel::Watching { current } => SessionModel::Releasing { current, next },
            _ => self,
        }
    }

    /// The session after its outstanding command has succeeded.
    pub open spec fn confirm(self) -> SessionModel {
        match self {
            SessionModel::Binding { next, .. } => SessionModel::Watching { current: next },
            SessionModel::Watching { .. } => self,
            SessionModel::Releasing { current, next } => SessionModel::Binding { current, next },
        }
    }
}

/// Work for the watcher. Every watch is recursive.
#[derive(Debug)]
pub enum WatchCommand {
    /// Start watching the directory.
    Watch(String),
    /// Stop watching the directory.
    Unwatch(String),
}

impl View for WatchCommand {
    type V = CommandModel;

    open spec fn view(&self) -> CommandModel {
        match self {
            WatchCommand::Watch(directory) => CommandModel::Watch(directory@),
            WatchCommand::Unwatch(directory) => CommandModel::Unwatch(directory@),
        }
    }
}

/// The models of the command that a step hands out, if any.
pub open spec fn command_model(command: Option<WatchCommand>) -> Option<CommandModel> {
    match command {
        Some(c) => Some(c@),
        None => None,
    }
}

/// A command that the watcher could not carry out.
#[derive(Debug)]
pub struct WatchFailure {
    /// The command that failed.
    pub command: WatchCommand,
    /// What the watcher reported.
    pub cause: notify::Error,
}

/// Where a [`WatchSession`] stands in a switch.
#[derive(Clone, Copy, Debug, PartialEq, Eq, Structural)]
pub enum WatchPhase {
    /// A watch on the next directory was asked for; nothing is watched yet.
    Binding,
    /// The current directory is watched and no command is outstanding.
    Watching,
    /// The release of the current directory was asked for.
    Releasing,
}

/// The single watch of the session and the switch from one directory to the next.
///
/// A switch takes two commands: the watch on the current directory is released,
/// then the next directory is watched. The current directory changes when the
/// second one has succeeded.
#[derive(Debug)]
pub struct WatchSession {
    current: String,
    next: String,
    phase: WatchPhase,
}

impl View for WatchSession {
    type V = SessionModel;

    closed spec fn view(&self) -> SessionModel {
        match self.phase {
            WatchPhase::Binding => SessionModel::Binding {
                current: self.current@,
                next: self.next@,
            },
            WatchPhase::Watching => SessionModel::Watching { current: self.current@ },
            WatchPhase::Releasing => SessionModel::Releasing {
                current: self.current@,
                next: self.next@,
            },
        }
    }
}

impl WatchSession {
    /// Opens the session on `directory` and hands out the command that watches it.
    pub fn start(directory: String) -> (step: (WatchSession, WatchCommand))
        ensures
            step.0@ == SessionModel::start(directory@),
            Some(step.1@) == step.0@.outstanding(),
    {
        let command = WatchCommand::Watch(directory.clone());
        let session = WatchSession {
            current: directory.clone(),
            next: directory,
            phase: WatchPhase::Binding,
        };
        (session, command)
    }

    /// The directory shown as the current one.
    pub fn current_directory(&self) -> (directory: &str)
        ensures
            directory@ == self@.current(),
    {
        self.current.as_str()
    }

    /// Where the session stands.
    pub fn phase(&self) -> (phase: WatchPhase)
        ensures
            phase is Binding <==> self@ is Binding,
            phase is Watching <==> self@ is Watching,
            phase is Releasing <==> self@ is Releasing,
    {
        self.phase
    }

    /// The command whose outcome the session awaits, if there is one.
    pub fn outstanding(&self) -> (command: Option<WatchCommand>)
        ensures
            command_model(command) == self@.outstanding(),
    {
        match self.phase {
            WatchPhase::Binding => Some(WatchCommand::Watch(self.next.clone())),
            WatchPhase::Watching => None,
            WatchPhase::Releasing => Some(WatchCommand::Unwatch(self.current.clone())),
        }
    }

    /// Asks to watch `next` in place of the current directory. While no command is
    /// outstanding the switch begins, and the command that releases the current
    /// watch is handed out; while one is outstanding the request is dropped.
    pub fn switch_to(&mut self, next: String) -> (command: Option<WatchCommand>)
        ensures
            final(self)@ == old(self)@.switch_to(next@),
            command is Some <==> old(self)@ is Watching,
            command is Some ==> command_model(command) == final(self)@.outstanding(),
    {
        match self.phase {
            WatchPhase::Watching => {
                self.next = next;
                self.phase = WatchPhase::Releasing;
                Some(WatchCommand::Unwatch(self.current.clone()))
            },
            _ => None,
        }
    }

    /// Takes the outcome of the outstanding command.
    ///
    /// On success the session moves on and hands out the command that follows, if
    /// one does. On failure the session stays where it is, with the command still
    /// outstanding, and the failed command is returned with what the watcher
    /// reported. With no command outstanding nothing changes.
    pub fn complete(&mut self, outcome: Result<(), notify::Error>) -> (step: Result<
        Option<WatchCommand>,
        WatchFailure,
    >)
        ensures
            match (old(self)@.outstanding(), outcome) {
                (Some(failed), Err(cause)) => {
                    &&& final(self)@ == old(self)@
                    &&& step matches Err(failure) && failure.command@ == failed && failure.cause
                        == cause
                },
                _ => {
                    &&& final(self)@ == old(self)@.confirm()
                    &&& step matches Ok(command) && command_model(command)
                        == final(self)@.outstanding()
                },
            },
    {
        match self.phase {
            WatchPhase::Watching => Ok(None),
            WatchPhase::Binding => match outcome {
                Ok(_) => {
                    self.current = self.next.clone();
                    self.phase = WatchPhase::Watching;
                    Ok(None)
                },
                Err(cause) => Err(
                    WatchFailure { command: WatchCommand::Watch(self.next.clone()), cause },
                ),
            },
            WatchPhase::Releasing => match outcome {
                Ok(_) => {
                    self.phase = WatchPhase::Binding;
                    Ok(Some(WatchCommand::Watch(self.next.clone())))
                },
                Err(cause) => Err(
                    WatchFailure { command: WatchCommand::Unwatch(self.current.clone()), cause },
                ),
            },
        }
    }
}

/// A watch is asked for only while the watcher is bound to nothing, and a release
/// only of the directory it is bound to: no two watches are ever active at once.
pub proof fn lemma_one_watch_at_most(session: SessionModel)
    ensures
        session.outstanding() matches Some(CommandModel::Watch(_)) ==> session.bound() is None,
        session.outstanding() matches Some(CommandModel::Unwatch(directory)) ==> session.bound()
            == Some(directory),
        session.outstanding() is None ==> session.bound() == Some(session.current()),
{
}

/// The session follows the watcher: once the outstanding command has succeeded,
/// the session takes the watcher to be bound to what the command left it bound to.
pub proof fn lemma_confirm_follows_watcher(session: SessionModel)
    ensures
        session.outstanding() matches Some(command) ==> session.confirm().bound()
            == command.perform(session.bound()),
        session.outstanding() is None ==> session.confirm() == session,
{
}

/// A switch from `from` to `to` whose two commands succeed releases `from`, then
/// watches `to`, and ends with `to` as the current and only watched directory.
pub proof fn lemma_switch_replaces_watch(from: Seq<char>, to: Seq<char>)
    ensures
        ({
            let releasing = (SessionModel::Watching { current: from }).switch_to(to);
            let binding = releasing.confirm();
            let watching = binding.confirm();
            &&& releasing.outstanding() == Some(CommandModel::Unwatch(from))
            &&& releasing.current() == from
            &&& binding.outstanding() == Some(CommandModel::Watch(to))
            &&& binding.bound() is None
            &&& watching == (SessionModel::Watching { current: to })
            &&& watching.bound() == Some(to)
            &&& watching.outstanding() is None
        }),
{
}

/// A request to switch that arrives while a command is outstanding changes nothing.
pub proof fn lemma_one_switch_in_flight(session: SessionModel, next: Seq<char>)
    requires
        session.outstanding() is Some,
    ensures
        session.switch_to(next) == session,
{
}

} // verus!
