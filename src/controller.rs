use vstd::prelude::*;

verus! {

/// The playback state of the audio daemon, asked for or reported.
#[derive(Debug, Clone, Copy, PartialEq, Eq, Structural)]
pub enum PlaybackState {
    Play,
    Pause,
    Stop,
}

/// One command of the daemon's control protocol.
#[derive(Debug, Clone, Copy, PartialEq, Eq, Structural)]
pub enum Command {
    Play,
    /// Pause (`true`) or resume (`false`).
    Pause(bool),
    Stop,
}

/// Why a control operation failed.
#[derive(Debug, Clone, Copy, PartialEq, Eq, Structural)]
pub enum ControlError {
    /// The connection to the daemon broke (reset, broken pipe).
    Io,
    /// The daemon refused the command or answered something unreadable.
    Protocol,
}

/// What came of running a command sequence on the daemon.
#[derive(Debug, Clone, Copy, PartialEq, Eq, Structural)]
pub enum Outcome {
    /// The commands went through; the daemon now reports this state.
    Status(PlaybackState),
    /// A command, the status query or the reconnect failed.
    Failed(ControlError),
}

/// What the controller asks its driver to do next.
#[derive(Debug, Clone, Copy, PartialEq, Eq)]
pub enum Action {
    /// Run the command sequence for `state`, then query the status; open a
    /// fresh connection first when `reconnect` is set.
    Send { state: PlaybackState, reconnect: bool },
    /// The operation is over, with this result.
    Done(Result<(), ControlError>),
}

/// An operation in progress: the state aimed for, and whether the one
/// reconnect has been spent.
#[derive(Debug, Clone, Copy, PartialEq, Eq, Structural)]
pub struct Attempt {
    pub target: PlaybackState,
    pub retried: bool,
}

/// The controller of one daemon connection. `last_state`, when known, is
/// what the daemon reported after the last command sequence that went
/// through; `attempt` is the operation in progress.
#[derive(Debug, Clone, PartialEq, Eq)]
pub struct MusicPlayer {
    pub address: String,
    pub last_state: Option<PlaybackState>,
    pub attempt: Option<Attempt>,
}

/// The commands that bring the daemon to `state`, whatever it was doing.
pub open spec fn commands_for(state: PlaybackState) -> Seq<Command> {
    match state {
        PlaybackState::Play => seq![Command::Play, Command::Pause(false)],
        PlaybackState::Pause => seq![Command::Pause(true)],
        PlaybackState::Stop => seq![Command::Stop],
    }
}

/// The controller and the action after asking for `state`: nothing is
/// sent when the daemon is known to be in that state already.
pub open spec fn set_state_step(p: MusicPlayer, state: PlaybackState) -> (MusicPlayer, Action) {
    if p.last_state == Some(state) {
        (MusicPlayer { attempt: None, ..p }, Action::Done(Ok(())))
    } else {
        (
            MusicPlayer { attempt: Some(Attempt { target: state, retried: false }), ..p },
            Action::Send { state, reconnect: false },
        )
    }
}

/// The controller and the action after the driver reports an outcome: a
/// reported status is recorded; a broken connection forgets the known
/// state and, once per operation, asks for a reconnect and a retry; any
/// other failure ends the operation.
pub open spec fn outcome_step(p: MusicPlayer, outcome: Outcome) -> (MusicPlayer, Action) {
    match outcome {
        Outcome::Status(s) => (
            MusicPlayer { last_state: Some(s), attempt: None, ..p },
            Action::Done(Ok(())),
        ),
        Outcome::Failed(ControlError::Io) => match p.attempt {
            Some(a) if !a.retried => (
                MusicPlayer {
                    last_state: None,
                    attempt: Some(Attempt { target: a.target, retried: true }),
                    ..p
                },
                Action::Send { state: a.target, reconnect: true },
            ),
            _ => (
                MusicPlayer { last_state: None, attempt: None, ..p },
                Action::Done(Err(ControlError::Io)),
            ),
        },
        Outcome::Failed(ControlError::Protocol) => (
            MusicPlayer { attempt: None, ..p },
            Action::Done(Err(ControlError::Protocol)),
        ),
    }
}

/// The command sequence that brings the daemon to `state`.
pub fn command_sequence(state: PlaybackState) -> (r: Vec<Command>)
    ensures
        r@ == commands_for(state),
{
    let r = match state {
        PlaybackState::Play => vec![Command::Play, Command::Pause(false)],
        PlaybackState::Pause => vec![Command::Pause(true)],
        PlaybackState::Stop => vec![Command::Stop],
    };
    assert(r@ =~= commands_for(state));
    r
}

impl MusicPlayer {
    /// A controller over a freshly opened connection to `address`: the
    /// daemon's state is not known yet.
    pub fn new(address: String) -> (r: MusicPlayer)
        ensures
            r.address == address,
            r.last_state is None,
            r.attempt is None,
    {
        MusicPlayer { address, last_state: None, attempt: None }
    }

    /// Starts an operation that brings the daemon to `state`.
    pub fn set_state(&mut self, state: PlaybackState) -> (r: Action)
        ensures
            (*final(self), r) == set_state_step(*old(self), state),
    {
        if self.last_state == Some(state) {
            self.attempt = None;
            return Action::Done(Ok(()));
        }
        self.attempt = Some(Attempt { target: state, retried: false });
        Action::Send { state, reconnect: false }
    }

    /// Drops what is known of the daemon after the connection broke, and
    /// spends the one reconnect of the operation on `target`.
    pub fn reset(&mut self, target: PlaybackState) -> (r: Action)
        ensures
            *final(self) == (MusicPlayer {
                last_state: None,
                attempt: Some(Attempt { target, retried: true }),
                ..*old(self)
            }),
            r == (Action::Send { state: target, reconnect: true }),
    {
        self.last_state = None;
        self.attempt = Some(Attempt { target, retried: true });
        Action::Send { state: target, reconnect: true }
    }

    /// Takes in what came of the last action and says what to do next.
    pub fn on_outcome(&mut self, outcome: Outcome) -> (r: Action)
        ensures
            (*final(self), r) == outcome_step(*old(self), outcome),
    {
        match outcome {
            Outcome::Status(s) => {
                self.last_state = Some(s);
                self.attempt = None;
                Action::Done(Ok(()))
            },
            Outcome::Failed(ControlError::Io) => {
                match self.attempt {
                    Some(a) if !a.retried => self.reset(a.target),
                    _ => {
                        self.last_state = None;
                        self.attempt = None;
                        Action::Done(Err(ControlError::Io))
                    },
                }
            },
            Outcome::Failed(ControlError::Protocol) => {
                self.attempt = None;
                Action::Done(Err(ControlError::Protocol))
            },
        }
    }
}

/// Asking twice in a row for the same state, where the daemon reaches it,
/// sends one command sequence at most (one exactly where the state was not
/// already known), and the second request succeeds at once with nothing
/// sent.
pub proof fn lemma_debounce(p: MusicPlayer, state: PlaybackState)
    ensures
        ({
            let (p1, a1) = set_state_step(p, state);
            let (p2, a2) = if a1 is Send {
                outcome_step(p1, Outcome::Status(state))
            } else {
                (p1, a1)
            };
            &&& (a1 is Send <==> p.last_state != Some(state))
            &&& a2 == Action::Done(Ok(()))
            &&& set_state_step(p2, state) == (p2, Action::Done(Ok(())))
        }),
{
}

/// Where the first try of a command sequence breaks the connection and the
/// reconnect and the retry go through, the operation succeeds and the
/// known state is what the daemon reported after the retry.
pub proof fn lemma_reconnect_recovery(p: MusicPlayer, state: PlaybackState, reported: PlaybackState)
    requires
        p.last_state != Some(state),
    ensures
        ({
            let (p1, a1) = set_state_step(p, state);
            let (p2, a2) = outcome_step(p1, Outcome::Failed(ControlError::Io));
            let (p3, a3) = outcome_step(p2, Outcome::Status(reported));
            &&& a1 == Action::Send { state, reconnect: false }
            &&& a2 == Action::Send { state, reconnect: true }
            &&& p2.last_state is None
            &&& a3 == Action::Done(Ok(()))
            &&& p3.last_state == Some(reported)
        }),
{
}

/// Where both the first try and the retry break the connection, the
/// operation ends with the connection error, no third try is made, and
/// the state stays unknown.
pub proof fn lemma_reconnect_exhaustion(p: MusicPlayer, state: PlaybackState)
    requires
        p.last_state != Some(state),
    ensures
        ({
            let (p1, a1) = set_state_step(p, state);
            let (p2, a2) = outcome_step(p1, Outcome::Failed(ControlError::Io));
            let (p3, a3) = outcome_step(p2, Outcome::Failed(ControlError::Io));
            &&& a1 == Action::Send { state, reconnect: false }
            &&& a2 == Action::Send { state, reconnect: true }
            &&& a3 == Action::Done(Err(ControlError::Io))
            &&& p3.last_state is None
        }),
{
}

} // verus!
