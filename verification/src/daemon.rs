//! The daemon as a machine: it is told what happened and says what to do
//! next.
//!
//! The machine never acts itself. Whoever runs it carries out each action
//! and reports back with an event: that the passphrase was read, that the
//! repository is open, that the fetch is done, that the program runs, that
//! the pause is over, that the program was terminated. After the start the
//! machine goes round one cycle for ever: fetch, start the program, pause,
//! terminate the program. Any failure of a fetch or of a start ends it.

use vstd::prelude::*;
use crate::config::{resolve, Config, ConfigView, Environment, Options};
use crate::error::{Error, ErrorView};
use crate::supervisor::Supervisor;
use crate::text::views;

verus! {

/// What the daemon is waiting for.
#[derive(Clone, Copy, Debug, PartialEq, Eq, Structural)]
pub enum Phase {
    /// For the start: nothing was asked for yet.
    Idle,
    /// For the passphrase of the private key.
    AwaitingPassphrase,
    /// For the repository to be cloned or found.
    OpeningRepository,
    /// For the fetch to end.
    Syncing,
    /// For the program to start.
    Spawning,
    /// For the pause to end, while the program runs.
    Sleeping,
    /// For the program to be terminated.
    Killing,
    /// For nothing: a failure has ended the daemon.
    Stopped,
}

/// What happened outside the daemon. `H` is the handle of a running
/// program.
#[derive(Debug, PartialEq)]
pub enum Event<H> {
    /// The daemon was started.
    Started,
    /// The operator was asked for the passphrase; holds the answer, or
    /// nothing where none could be read.
    PassphraseRead(Option<String>),
    /// The repository was cloned or found, or could not be.
    RepositoryOpened(Result<(), Error>),
    /// The fetch ended, well or not.
    Synced(Result<(), Error>),
    /// The program was started, or could not be.
    Spawned(Result<H, Error>),
    /// The pause is over.
    Slept,
    /// The program was terminated, or was found to have ended by itself.
    Killed,
}

/// What the daemon wants done.
#[derive(Debug, PartialEq)]
pub enum Action<H> {
    /// Ask the operator for the passphrase of the private key.
    AskPassphrase,
    /// Make the directory `path` with all that leads to it, and clone the
    /// repository at `url` into it.
    CloneRepository { url: String, path: String },
    /// Find the repository in which `path` lies.
    DiscoverRepository { path: String },
    /// Fetch `branch` from `remote`.
    Fetch { remote: String, branch: String },
    /// Start `command` with `args` in the directory `working_dir`.
    Spawn { command: String, args: Vec<String>, working_dir: String },
    /// Wait for `seconds` seconds.
    Sleep { seconds: u64 },
    /// Terminate the program with this handle, at once and whatever comes
    /// of it.
    Kill(H),
    /// End the daemon and report the failure.
    Exit(Error),
    /// Nothing: the event was not what the daemon was waiting for, and is
    /// handed back as it came.
    Refused(Event<H>),
}

/// An [`Action`] with its texts as sequences of characters.
pub enum ActionView<H> {
    AskPassphrase,
    CloneRepository { url: Seq<char>, path: Seq<char> },
    DiscoverRepository { path: Seq<char> },
    Fetch { remote: Seq<char>, branch: Seq<char> },
    Spawn { command: Seq<char>, args: Seq<Seq<char>>, working_dir: Seq<char> },
    Sleep { seconds: u64 },
    Kill(H),
    Exit(Error),
    Refused(Event<H>),
}

impl<H> View for Action<H> {
    type V = ActionView<H>;

    open spec fn view(&self) -> ActionView<H> {
        match *self {
            Action::AskPassphrase => ActionView::AskPassphrase,
            Action::CloneRepository { url, path } => ActionView::CloneRepository {
                url: url@,
                path: path@,
            },
            Action::DiscoverRepository { path } => ActionView::DiscoverRepository { path: path@ },
            Action::Fetch { remote, branch } => ActionView::Fetch {
                remote: remote@,
                branch: branch@,
            },
            Action::Spawn { command, args, working_dir } => ActionView::Spawn {
                command: command@,
                args: views(args@),
                working_dir: working_dir@,
            },
            Action::Sleep { seconds } => ActionView::Sleep { seconds },
            Action::Kill(handle) => ActionView::Kill(handle),
            Action::Exit(err) => ActionView::Exit(err),
            Action::Refused(event) => ActionView::Refused(event),
        }
    }
}

/// The daemon: its configuration, what it waits for, and the handle of the
/// program while it runs.
#[derive(Debug)]
pub struct Main<H> {
    config: Config,
    ask_passphrase: bool,
    phase: Phase,
    supervisor: Supervisor<H>,
}

/// The state of the daemon.
pub struct MainView<H> {
    /// The configuration.
    pub config: ConfigView,
    /// Whether the passphrase has to be asked for at the start.
    pub ask_passphrase: bool,
    /// What the daemon is waiting for.
    pub phase: Phase,
    /// The handle of the program that runs.
    pub child: Option<H>,
}

impl<H> View for Main<H> {
    type V = MainView<H>;

    closed spec fn view(&self) -> MainView<H> {
        MainView {
            config: self.config@,
            ask_passphrase: self.ask_passphrase,
            phase: self.phase,
            child: self.supervisor@,
        }
    }
}

/// The passphrase that an answer of the operator gives: the answer, or the
/// empty text where none could be read.
pub open spec fn passphrase_of(answer: Option<String>) -> Seq<char> {
    match answer {
        Some(text) => text@,
        None => Seq::empty(),
    }
}

impl<H> MainView<H> {
    /// The daemon before its start.
    pub open spec fn initial(config: ConfigView, ask_passphrase: bool) -> MainView<H> {
        MainView { config, ask_passphrase, phase: Phase::Idle, child: None }
    }

    /// A child is kept while the daemon pauses, and at no other time.
    pub open spec fn inv(self) -> bool {
        self.child is Some <==> self.phase == Phase::Sleeping
    }

    /// The daemon turns to its repository: it is cloned where a URL says
    /// from where, and looked for otherwise.
    pub open spec fn open_repository(self) -> (MainView<H>, ActionView<H>) {
        (
            MainView { phase: Phase::OpeningRepository, ..self },
            match self.config.clone_url {
                Some(url) => ActionView::CloneRepository { url, path: self.config.repo_path },
                None => ActionView::DiscoverRepository { path: self.config.repo_path },
            },
        )
    }

    /// The daemon begins a cycle with a fetch.
    pub open spec fn fetch(self) -> (MainView<H>, ActionView<H>) {
        (
            MainView { phase: Phase::Syncing, ..self },
            ActionView::Fetch {
                remote: self.config.remote_name,
                branch: self.config.branch_name,
            },
        )
    }

    /// The daemon ends with a failure.
    pub open spec fn stop(self, err: Error) -> (MainView<H>, ActionView<H>) {
        (MainView { phase: Phase::Stopped, ..self }, ActionView::Exit(err))
    }

    /// The state after `event` and the action that answers it.
    ///
    /// An event that the daemon is not waiting for changes nothing and is
    /// handed back.
    pub open spec fn next(self, event: Event<H>) -> (MainView<H>, ActionView<H>) {
        match (self.phase, event) {
            (Phase::Idle, Event::Started) => if self.ask_passphrase {
                (MainView { phase: Phase::AwaitingPassphrase, ..self }, ActionView::AskPassphrase)
            } else {
                self.open_repository()
            },
            (Phase::AwaitingPassphrase, Event::PassphraseRead(answer)) => (MainView {
                config: self.config.with_passphrase(passphrase_of(answer)),
                ..self
            }).open_repository(),
            (Phase::OpeningRepository, Event::RepositoryOpened(Ok(_))) => self.fetch(),
            (Phase::OpeningRepository, Event::RepositoryOpened(Err(err))) => self.stop(err),
            (Phase::Syncing, Event::Synced(Ok(_))) => (
                MainView { phase: Phase::Spawning, ..self },
                ActionView::Spawn {
                    command: self.config.command,
                    args: self.config.args,
                    working_dir: self.config.repo_path,
                },
            ),
            (Phase::Syncing, Event::Synced(Err(err))) => self.stop(err),
            (Phase::Spawning, Event::Spawned(Ok(handle))) => (
                MainView { phase: Phase::Sleeping, child: Some(handle), ..self },
                ActionView::Sleep { seconds: self.config.interval_seconds },
            ),
            (Phase::Spawning, Event::Spawned(Err(err))) => self.stop(err),
            (Phase::Sleeping, Event::Slept) => match self.child {
                Some(handle) => (
                    MainView { phase: Phase::Killing, child: None, ..self },
                    ActionView::Kill(handle),
                ),
                None => self.fetch(),
            },
            (Phase::Killing, Event::Killed) => self.fetch(),
            _ => (self, ActionView::Refused(event)),
        }
    }

    /// The state after all of `events`, one after the other, and the
    /// actions that answered them, in order.
    pub open spec fn run(self, events: Seq<Event<H>>) -> (MainView<H>, Seq<ActionView<H>>)
        decreases events.len(),
    {
        if events.len() == 0 {
            (self, Seq::empty())
        } else {
            let before = self.run(events.drop_last());
            let last = before.0.next(events.last());
            (last.0, before.1.push(last.1))
        }
    }
}

/// A copy of `texts`.
fn clone_texts(texts: &Vec<String>) -> (copy: Vec<String>)
    ensures
        copy@ == texts@,
{
    let mut copy: Vec<String> = Vec::new();
    let mut i: usize = 0;
    while i < texts.len()
        invariant
            i <= texts.len(),
            copy@ == texts@.take(i as int),
        decreases texts.len() - i,
    {
        copy.push(texts[i].clone());
        assert(copy@ =~= texts@.take(i + 1));
        i += 1;
    }
    assert(texts@.take(texts.len() as int) =~= texts@);
    copy
}

impl<H> Main<H> {
    /// Makes the daemon from what the command line and the environment
    /// give, or says what is wrong with them. The daemon has not started
    /// yet and keeps no child.
    pub fn new(options: Options, env: Environment) -> (made: Result<Main<H>, Error>)
        ensures
            match made {
                Ok(main) => resolve(options, env) is Ok && main@ == MainView::<H>::initial(
                    resolve(options, env)->Ok_0,
                    options.use_passphrase,
                ),
                Err(err) => resolve(options, env) == Err::<ConfigView, ErrorView>(err@),
            },
    {
        let ask_passphrase = options.use_passphrase;
        match Config::resolve(options, env) {
            Ok(config) => Ok(
                Main { config, ask_passphrase, phase: Phase::Idle, supervisor: Supervisor::new() },
            ),
            Err(err) => Err(err),
        }
    }

    /// The configuration.
    pub fn config(&self) -> (config: &Config)
        ensures
            config@ == self@.config,
    {
        &self.config
    }

    /// What the daemon is waiting for.
    pub fn phase(&self) -> (phase: Phase)
        ensures
            phase == self@.phase,
    {
        self.phase
    }

    /// Whether the daemon keeps the handle of a running program.
    pub fn has_child(&self) -> (kept: bool)
        ensures
            kept == self@.child is Some,
    {
        self.supervisor.is_occupied()
    }

    fn open_repository(&mut self) -> (action: Action<H>)
        ensures
            (final(self)@, action@) == old(self)@.open_repository(),
    {
        self.phase = Phase::OpeningRepository;
        match &self.config.clone_url {
            Some(url) => Action::CloneRepository {
                url: url.clone(),
                path: self.config.repo_path.clone(),
            },
            None => Action::DiscoverRepository { path: self.config.repo_path.clone() },
        }
    }

    fn fetch(&mut self) -> (action: Action<H>)
        ensures
            (final(self)@, action@) == old(self)@.fetch(),
    {
        self.phase = Phase::Syncing;
        Action::Fetch {
            remote: self.config.remote_name.clone(),
            branch: self.config.branch_name.clone(),
        }
    }

    fn stop(&mut self, err: Error) -> (action: Action<H>)
        ensures
            (final(self)@, action@) == old(self)@.stop(err),
    {
        self.phase = Phase::Stopped;
        Action::Exit(err)
    }

    /// Takes note of `event` and says what to do next.
    pub fn step(&mut self, event: Event<H>) -> (action: Action<H>)
        ensures
            (final(self)@, action@) == old(self)@.next(event),
    {
        match (self.phase, event) {
            (Phase::Idle, Event::Started) => {
                if self.ask_passphrase {
                    self.phase = Phase::AwaitingPassphrase;
                    Action::AskPassphrase
                } else {
                    self.open_repository()
                }
            },
            (Phase::AwaitingPassphrase, Event::PassphraseRead(answer)) => {
                let passphrase = match answer {
                    Some(text) => text,
                    None => String::new(),
                };
                self.config.set_passphrase(passphrase);
                self.open_repository()
            },
            (Phase::OpeningRepository, Event::RepositoryOpened(Ok(_))) => self.fetch(),
            (Phase::OpeningRepository, Event::RepositoryOpened(Err(err))) => self.stop(err),
            (Phase::Syncing, Event::Synced(Ok(_))) => {
                self.phase = Phase::Spawning;
                Action::Spawn {
                    command: self.config.command.clone(),
                    args: clone_texts(&self.config.args),
                    working_dir: self.config.repo_path.clone(),
                }
            },
            (Phase::Syncing, Event::Synced(Err(err))) => self.stop(err),
            (Phase::Spawning, Event::Spawned(Ok(handle))) => {
                let _ = self.supervisor.put(handle);
                self.phase = Phase::Sleeping;
                Action::Sleep { seconds: self.config.interval_seconds }
            },
            (Phase::Spawning, Event::Spawned(Err(err))) => self.stop(err),
            (Phase::Sleeping, Event::Slept) => match self.supervisor.take() {
                Some(handle) => {
                    self.phase = Phase::Killing;
                    Action::Kill(handle)
                },
                None => self.fetch(),
            },
            (Phase::Killing, Event::Killed) => self.fetch(),
            (_, event) => Action::Refused(event),
        }
    }
}

/// No step changes whether a child is kept in any other way than the cycle
/// allows: a daemon that keeps a child exactly while it pauses goes on doing
/// so, whatever happens.
pub proof fn lemma_next_keeps_inv<H>(state: MainView<H>, event: Event<H>)
    requires
        state.inv(),
    ensures
        state.next(event).0.inv(),
{
}

/// At every moment of every run the daemon keeps a child exactly while it
/// pauses. So it never keeps more than one, it keeps none when it starts a
/// program, and none is left with it when it fetches.
pub proof fn lemma_run_keeps_inv<H>(
    config: ConfigView,
    ask_passphrase: bool,
    events: Seq<Event<H>>,
)
    ensures
        MainView::<H>::initial(config, ask_passphrase).run(events).0.inv(),
        MainView::<H>::initial(config, ask_passphrase).run(events).1.len() == events.len(),
    decreases events.len(),
{
    if events.len() > 0 {
        let start = MainView::<H>::initial(config, ask_passphrase);
        lemma_run_keeps_inv::<H>(config, ask_passphrase, events.drop_last());
        lemma_next_keeps_inv(start.run(events.drop_last()).0, events.last());
    }
}

/// One cycle: from a fetch that ends well, through the start of the program
/// and the pause, to the termination of that same program and the next
/// fetch. The cycle leaves the daemon as it found it.
pub proof fn lemma_cycle<H>(state: MainView<H>, handle: H)
    requires
        state.phase == Phase::Syncing,
        state.inv(),
    ensures
        state.run(
            seq![Event::Synced(Ok(())), Event::Spawned(Ok(handle)), Event::Slept, Event::Killed],
        ) == (
            state,
            seq![
                ActionView::Spawn {
                    command: state.config.command,
                    args: state.config.args,
                    working_dir: state.config.repo_path,
                },
                ActionView::Sleep { seconds: state.config.interval_seconds },
                ActionView::Kill(handle),
                ActionView::Fetch {
                    remote: state.config.remote_name,
                    branch: state.config.branch_name,
                },
            ],
        ),
{
    let e0: Event<H> = Event::Synced(Ok(()));
    let e1: Event<H> = Event::Spawned(Ok(handle));
    let e2: Event<H> = Event::Slept;
    let e3: Event<H> = Event::Killed;
    let events = seq![e0, e1, e2, e3];
    assert(events.drop_last() =~= seq![e0, e1, e2]);
    assert(seq![e0, e1, e2].drop_last() =~= seq![e0, e1]);
    assert(seq![e0, e1].drop_last() =~= seq![e0]);
    assert(seq![e0].drop_last() =~= Seq::<Event<H>>::empty());
    reveal_with_fuel(MainView::run, 5);
    let s1 = state.next(e0);
    let s2 = s1.0.next(e1);
    let s3 = s2.0.next(e2);
    let s4 = s3.0.next(e3);
    assert(state.run(events).1 =~= seq![s1.1, s2.1, s3.1, s4.1]);
}

/// A program is started in answer to a fetch that ended well, and to
/// nothing else. An exit leaves the daemon stopped, and a stopped daemon
/// hands every event back.
pub proof fn lemma_spawn_follows_sync<H>(state: MainView<H>, event: Event<H>)
    ensures
        state.next(event).1 is Spawn ==> state.phase == Phase::Syncing && event is Synced
            && event->Synced_0 is Ok,
        state.next(event).1 is Exit ==> state.next(event).0.phase == Phase::Stopped,
        state.phase == Phase::Stopped ==> state.next(event) == (state, ActionView::Refused(event)),
{
}

/// Once the daemon has ended it stays as it is and refuses every event.
pub proof fn lemma_stopped_for_good<H>(state: MainView<H>, events: Seq<Event<H>>)
    requires
        state.phase == Phase::Stopped,
    ensures
        state.run(events).0 == state,
        state.run(events).1.len() == events.len(),
        forall|i: int|
            0 <= i < events.len() ==> #[trigger] state.run(events).1[i] == ActionView::Refused(
                events[i],
            ),
    decreases events.len(),
{
    if events.len() > 0 {
        lemma_stopped_for_good(state, events.drop_last());
    }
}

/// As long as no fetch has ended, no program has been started.
pub proof fn lemma_no_spawn_before_sync<H>(
    config: ConfigView,
    ask_passphrase: bool,
    events: Seq<Event<H>>,
)
    requires
        forall|i: int| 0 <= i < events.len() ==> !(#[trigger] events[i] is Synced),
    ensures
        MainView::<H>::initial(config, ask_passphrase).run(events).1.len() == events.len(),
        forall|i: int|
            0 <= i < events.len() ==> !(#[trigger] MainView::<H>::initial(
                config,
                ask_passphrase,
            ).run(events).1[i] is Spawn),
        MainView::<H>::initial(config, ask_passphrase).run(events).0.child is None,
        MainView::<H>::initial(config, ask_passphrase).run(events).0.phase != Phase::Spawning,
        MainView::<H>::initial(config, ask_passphrase).run(events).0.phase != Phase::Sleeping,
        MainView::<H>::initial(config, ask_passphrase).run(events).0.phase != Phase::Killing,
    decreases events.len(),
{
    if events.len() > 0 {
        lemma_no_spawn_before_sync::<H>(config, ask_passphrase, events.drop_last());
    }
}

/// Where the first fetch fails, the daemon ends with that failure and has
/// started no program; after that it does nothing any more.
pub proof fn lemma_first_fetch_failure<H>(
    config: ConfigView,
    ask_passphrase: bool,
    events: Seq<Event<H>>,
    failure: Error,
    later: Seq<Event<H>>,
)
    requires
        forall|i: int| 0 <= i < events.len() ==> !(#[trigger] events[i] is Synced),
        MainView::<H>::initial(config, ask_passphrase).run(events).0.phase == Phase::Syncing,
    ensures
        ({
            let fetching = MainView::<H>::initial(config, ask_passphrase).run(events);
            let ended = fetching.0.next(Event::Synced(Err(failure)));
            &&& forall|i: int| 0 <= i < fetching.1.len() ==> !(#[trigger] fetching.1[i] is Spawn)
            &&& ended.1 == ActionView::<H>::Exit(failure)
            &&& ended.0.phase == Phase::Stopped
            &&& ended.0.child is None
            &&& ended.0.run(later).0 == ended.0
            &&& forall|i: int|
                0 <= i < later.len() ==> #[trigger] ended.0.run(later).1[i] == ActionView::Refused(
                    later[i],
                )
        }),
{
    lemma_no_spawn_before_sync::<H>(config, ask_passphrase, events);
    let fetching = MainView::<H>::initial(config, ask_passphrase).run(events);
    let ended = fetching.0.next(Event::Synced(Err(failure)));
    lemma_stopped_for_good(ended.0, later);
}

} // verus!
