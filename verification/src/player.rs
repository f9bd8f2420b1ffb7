//! The decisions of the playback loop.
//!
//! The player never touches the terminal. It is told what happened, as an
//! `Event`, and answers what to do next, as an `Action`; the caller
//! performs the action and reports back. The frames repeat for ever: only
//! the quit key or a failure ends playback, and whichever comes first has
//! the terminal restored, once.

use vstd::prelude::*;

verus! {

/// The key that ends playback.
pub const QUIT_KEY: char = 'q';

/// How playback ended.
#[derive(Clone, Copy, Debug, PartialEq, Eq)]
pub enum Outcome {
    /// The quit key was pressed.
    Quit,
    /// An action failed, or an event came that the player did not wait for.
    Failed,
}

/// What came from the keyboard.
#[derive(Clone, Copy, Debug, PartialEq, Eq)]
pub enum Key {
    /// A character key.
    Char(char),
    /// Any other key or input event.
    Other,
}

/// What the caller reports to the player.
#[derive(Clone, Copy, Debug, PartialEq, Eq)]
pub enum Event {
    /// Playback is asked to begin.
    Start,
    /// Raw mode and the alternate screen are on.
    Acquired,
    /// The frame is on the screen; clearing and writing took this long.
    Rendered { elapsed_nanos: u64 },
    /// Input arrived before the wait was over.
    Input(Key),
    /// The wait ended without input.
    TimedOut,
    /// The terminal is back in its former state.
    Released,
    /// The last action failed.
    Failed,
}

/// What the player asks the caller to do.
#[derive(Clone, Copy, Debug, PartialEq, Eq)]
pub enum Action {
    /// Enter raw mode and the alternate screen.
    Acquire,
    /// Clear what was drawn and write the frame with this index, measuring
    /// the time that takes.
    Render { frame: usize },
    /// Wait for input, at most this long.
    AwaitInput { timeout_nanos: u64 },
    /// Leave the alternate screen and raw mode.
    Release,
    /// Stop: playback is over.
    Exit(Outcome),
}

/// Where the player stands.
#[derive(Clone, Copy, Debug, PartialEq, Eq)]
pub enum Phase {
    /// Not started; the terminal is untouched.
    Idle,
    /// `Acquire` was asked for.
    Acquiring,
    /// `Render` was asked for.
    Rendering,
    /// `AwaitInput` was asked for.
    Waiting,
    /// `Release` was asked for.
    Restoring(Outcome),
    /// Playback is over.
    Finished(Outcome),
}

impl Phase {
    /// The terminal was asked for and not yet given back.
    pub open spec fn holds_terminal(self) -> bool {
        self == Phase::Acquiring || self == Phase::Rendering || self == Phase::Waiting
    }

    /// Playback has ended or is about to: no frame will be drawn any more.
    pub open spec fn is_closing(self) -> bool {
        self is Restoring || self is Finished
    }
}

/// The time left to wait after `elapsed` of the `delay` was spent
/// rendering: their difference, or nothing where rendering took longer.
pub open spec fn remaining(delay: nat, elapsed: nat) -> nat {
    if elapsed >= delay {
        0
    } else {
        (delay - elapsed) as nat
    }
}

/// The index of the frame that follows `index` among `length` frames.
pub open spec fn successor(index: nat, length: nat) -> nat {
    (index + 1) % length
}

/// The player as a value: the number of frames, the delay between them,
/// the index of the current frame and the phase.
pub struct PlayerView {
    pub frame_count: nat,
    pub delay_nanos: nat,
    pub cursor: nat,
    pub phase: Phase,
}

impl PlayerView {
    /// There is a frame to show, the delay is positive, and the cursor
    /// points at a frame.
    pub open spec fn wf(self) -> bool {
        &&& 0 < self.frame_count <= usize::MAX
        &&& 0 < self.delay_nanos <= u64::MAX
        &&& self.cursor < self.frame_count
    }

    /// The player in another phase.
    pub open spec fn in_phase(self, phase: Phase) -> PlayerView {
        PlayerView { phase, ..self }
    }

    /// The player after an event, and what it asks for.
    pub open spec fn next(self, event: Event) -> (PlayerView, Action) {
        match (self.phase, event) {
            (Phase::Idle, Event::Start) => (self.in_phase(Phase::Acquiring), Action::Acquire),
            (Phase::Idle, _) => (
                self.in_phase(Phase::Finished(Outcome::Failed)),
                Action::Exit(Outcome::Failed),
            ),
            (Phase::Acquiring, Event::Acquired) => (
                self.in_phase(Phase::Rendering),
                Action::Render { frame: self.cursor as usize },
            ),
            (Phase::Rendering, Event::Rendered { elapsed_nanos }) => (
                self.in_phase(Phase::Waiting),
                Action::AwaitInput {
                    timeout_nanos: remaining(self.delay_nanos, elapsed_nanos as nat) as u64,
                },
            ),
            (Phase::Waiting, Event::Input(Key::Char(key))) if key == QUIT_KEY => (
                self.in_phase(Phase::Restoring(Outcome::Quit)),
                Action::Release,
            ),
            (Phase::Waiting, Event::Input(_)) | (Phase::Waiting, Event::TimedOut) => {
                let cursor = successor(self.cursor, self.frame_count);
                (
                    PlayerView { cursor, phase: Phase::Rendering, ..self },
                    Action::Render { frame: cursor as usize },
                )
            },
            (Phase::Acquiring, _) | (Phase::Rendering, _) | (Phase::Waiting, _) => (
                self.in_phase(Phase::Restoring(Outcome::Failed)),
                Action::Release,
            ),
            (Phase::Restoring(outcome), Event::Released) => (
                self.in_phase(Phase::Finished(outcome)),
                Action::Exit(outcome),
            ),
            (Phase::Restoring(_), _) => (
                self.in_phase(Phase::Finished(Outcome::Failed)),
                Action::Exit(Outcome::Failed),
            ),
            (Phase::Finished(outcome), _) => (self, Action::Exit(outcome)),
        }
    }
}

/// The player after a sequence of events, and everything it asked for.
pub open spec fn run(start: PlayerView, events: Seq<Event>) -> (PlayerView, Seq<Action>)
    decreases events.len(),
{
    if events.len() == 0 {
        (start, Seq::empty())
    } else {
        let (before, actions) = run(start, events.drop_last());
        let (after, action) = before.next(events.last());
        (after, actions.push(action))
    }
}

/// How often `wanted` occurs among the actions.
pub open spec fn occurrences(actions: Seq<Action>, wanted: Action) -> nat
    decreases actions.len(),
{
    if actions.len() == 0 {
        0
    } else {
        occurrences(actions.drop_last(), wanted) + if actions.last() == wanted {
            1nat
        } else {
            0nat
        }
    }
}

/// The successor of the last index is the first index, and that of any
/// other index is the one behind it.
pub proof fn lemma_successor_wraps(index: nat, length: nat)
    requires
        index < length,
    ensures
        index + 1 == length ==> successor(index, length) == 0,
        index + 1 < length ==> successor(index, length) == index + 1,
        successor(index, length) < length,
{
    let n = length as int;
    let next = index as int + 1;
    if next == n {
        assert(next % n == 0) by (nonlinear_arith)
            requires
                next == n,
                n > 0,
        ;
    } else {
        assert(next % n == next) by (nonlinear_arith)
            requires
                0 <= next < n,
        ;
    }
}

/// A step keeps the player well formed, never changes the frames or the
/// delay, and asks only for frames that exist and for waits within the delay.
pub proof fn lemma_step_is_sound(player: PlayerView, event: Event)
    requires
        player.wf(),
    ensures
        player.next(event).0.wf(),
        player.next(event).0.frame_count == player.frame_count,
        player.next(event).0.delay_nanos == player.delay_nanos,
        (player.next(event).1 matches Action::Render { frame } ==> frame < player.frame_count),
        (player.next(event).1 matches Action::AwaitInput { timeout_nanos } ==> timeout_nanos
            <= player.delay_nanos),
{
    lemma_successor_wraps(player.cursor, player.frame_count);
}

/// A step takes the terminal only from `Idle`, and gives it back exactly
/// when it stops holding it.
pub proof fn lemma_step_accounts_for_terminal(player: PlayerView, event: Event)
    ensures
        player.next(event).1 == Action::Acquire <==> !player.phase.holds_terminal() && player.next(
            event,
        ).0.phase.holds_terminal(),
        player.next(event).1 == Action::Acquire ==> player.phase == Phase::Idle,
        player.next(event).1 == Action::Release <==> player.phase.holds_terminal() && !player.next(
            event,
        ).0.phase.holds_terminal(),
        player.phase.is_closing() ==> player.next(event).0.phase.is_closing(),
        player.next(event).0.phase != Phase::Idle,
{
}

/// The quit key ends playback at once: while the player waits for input,
/// the key makes it ask for the terminal's release, and the release is
/// followed by the exit.
pub proof fn lemma_quit_key_releases(player: PlayerView)
    requires
        player.phase == Phase::Waiting,
    ensures
        player.next(Event::Input(Key::Char(QUIT_KEY))).1 == Action::Release,
        player.next(Event::Input(Key::Char(QUIT_KEY))).0.next(Event::Released).1 == Action::Exit(
            Outcome::Quit,
        ),
{
}

/// While the player waits, anything but the quit key moves it on to the
/// next frame, the first one following the last.
pub proof fn lemma_playback_repeats(player: PlayerView, event: Event)
    requires
        player.wf(),
        player.phase == Phase::Waiting,
        event == Event::TimedOut || (event matches Event::Input(key) && key != Key::Char(QUIT_KEY)),
    ensures
        player.next(event).1 == (Action::Render {
            frame: successor(player.cursor, player.frame_count) as usize,
        }),
        player.cursor + 1 == player.frame_count ==> player.next(event).0.cursor == 0,
        player.cursor + 1 < player.frame_count ==> player.next(event).0.cursor == player.cursor + 1,
{
    lemma_successor_wraps(player.cursor, player.frame_count);
}

/// The terminal is restored exactly once. Whatever events arrive, a player
/// that starts idle takes the terminal at most once and never releases
/// what it has not taken; once it is closing, it has released the terminal
/// as often as it took it.
pub proof fn lemma_restored_exactly_once(start: PlayerView, events: Seq<Event>)
    requires
        start.phase == Phase::Idle,
    ensures
        occurrences(run(start, events).1, Action::Acquire) <= 1,
        occurrences(run(start, events).1, Action::Release) <= occurrences(
            run(start, events).1,
            Action::Acquire,
        ),
        run(start, events).0.phase.is_closing() ==> occurrences(run(start, events).1, Action::Release)
            == occurrences(run(start, events).1, Action::Acquire),
{
    lemma_terminal_balance(start, events);
}

/// The terminals that a player in this phase holds: one or none.
spec fn held(phase: Phase) -> nat {
    if phase.holds_terminal() {
        1
    } else {
        0
    }
}

/// What was taken is either still held or was given back.
proof fn lemma_terminal_balance(start: PlayerView, events: Seq<Event>)
    requires
        start.phase == Phase::Idle,
    ensures
        occurrences(run(start, events).1, Action::Acquire) == occurrences(
            run(start, events).1,
            Action::Release,
        ) + held(run(start, events).0.phase),
        occurrences(run(start, events).1, Action::Acquire) <= 1,
        occurrences(run(start, events).1, Action::Acquire) == 1 <==> events.len() > 0 && events[0]
            == Event::Start,
        run(start, events).0.phase == Phase::Idle <==> events.len() == 0,
    decreases events.len(),
{
    if events.len() > 0 {
        let earlier = events.drop_last();
        lemma_terminal_balance(start, earlier);
        let (before, actions) = run(start, earlier);
        lemma_step_accounts_for_terminal(before, events.last());
        assert(actions.push(before.next(events.last()).1).drop_last() =~= actions);
        if earlier.len() > 0 {
            assert(earlier[0] == events[0]);
        }
    }
}

/// The index of the frame being shown.
pub struct PlaybackCursor {
    index: usize,
    length: usize,
}

impl PlaybackCursor {
    #[verifier::type_invariant]
    spec fn inv(&self) -> bool {
        self.index < self.length
    }

    /// The index of the current frame.
    pub closed spec fn position(&self) -> nat {
        self.index as nat
    }

    /// The number of frames.
    pub closed spec fn frame_count(&self) -> nat {
        self.length as nat
    }

    /// A cursor on the first of `length` frames, if there is one.
    pub fn new(length: usize) -> (made: Option<PlaybackCursor>)
        ensures
            made is Some <==> length > 0,
            made matches Some(cursor) ==> cursor.position() == 0 && cursor.frame_count() == length,
    {
        if length == 0 {
            None
        } else {
            Some(PlaybackCursor { index: 0, length })
        }
    }

    /// The index of the current frame.
    pub fn index(&self) -> (index: usize)
        ensures
            index == self.position(),
            index < self.frame_count(),
    {
        proof {
            use_type_invariant(self);
        }
        self.index
    }

    /// Moves to the next frame, or from the last frame back to the first.
    pub fn advance(&mut self)
        ensures
            final(self).frame_count() == old(self).frame_count(),
            final(self).position() == successor(old(self).position(), old(self).frame_count()),
        no_unwind
    {
        proof {
            use_type_invariant(&*self);
            lemma_successor_wraps(self.index as nat, self.length as nat);
        }
        if self.index + 1 == self.length {
            self.index = 0;
        } else {
            self.index = self.index + 1;
        }
    }
}

/// The time left to wait after rendering took `elapsed_nanos`.
pub fn remaining_wait(delay_nanos: u64, elapsed_nanos: u64) -> (wait: u64)
    ensures
        wait == remaining(delay_nanos as nat, elapsed_nanos as nat),
{
    if elapsed_nanos >= delay_nanos {
        0
    } else {
        delay_nanos - elapsed_nanos
    }
}

/// The player of a fitted animation.
pub struct Player {
    cursor: PlaybackCursor,
    delay_nanos: u64,
    phase: Phase,
}

impl View for Player {
    type V = PlayerView;

    closed spec fn view(&self) -> PlayerView {
        PlayerView {
            frame_count: self.cursor.frame_count(),
            delay_nanos: self.delay_nanos as nat,
            cursor: self.cursor.position(),
            phase: self.phase,
        }
    }
}

impl Player {
    #[verifier::type_invariant]
    spec fn inv(&self) -> bool {
        self.delay_nanos > 0
    }

    /// An idle player on the first of `frame_count` frames, shown
    /// `delay_nanos` apart. There is none without frames or without a delay.
    pub fn new(frame_count: usize, delay_nanos: u64) -> (made: Option<Player>)
        ensures
            made is Some <==> frame_count > 0 && delay_nanos > 0,
            made matches Some(player) ==> player@ == (PlayerView {
                frame_count: frame_count as nat,
                delay_nanos: delay_nanos as nat,
                cursor: 0,
                phase: Phase::Idle,
            }),
    {
        if delay_nanos == 0 {
            return None;
        }
        match PlaybackCursor::new(frame_count) {
            Some(cursor) => Some(Player { cursor, delay_nanos, phase: Phase::Idle }),
            None => None,
        }
    }

    /// Where the player stands.
    pub fn phase(&self) -> (phase: Phase)
        ensures
            phase == self@.phase,
    {
        self.phase
    }

    /// The index of the current frame.
    pub fn frame(&self) -> (frame: usize)
        ensures
            frame == self@.cursor,
            frame < self@.frame_count,
    {
        self.cursor.index()
    }

    /// Takes in what happened and says what to do next.
    pub fn step(&mut self, event: Event) -> (action: Action)
        ensures
            (final(self)@, action) == old(self)@.next(event),
            old(self)@.wf(),
            final(self)@.wf(),
    {
        proof {
            use_type_invariant(&*self);
            use_type_invariant(&self.cursor);
            lemma_step_is_sound(self@, event);
        }
        match self.phase {
            Phase::Idle => match event {
                Event::Start => {
                    self.phase = Phase::Acquiring;
                    Action::Acquire
                },
                _ => {
                    self.phase = Phase::Finished(Outcome::Failed);
                    Action::Exit(Outcome::Failed)
                },
            },
            Phase::Acquiring => match event {
                Event::Acquired => {
                    self.phase = Phase::Rendering;
                    Action::Render { frame: self.cursor.index() }
                },
                _ => self.fail(),
            },
            Phase::Rendering => match event {
                Event::Rendered { elapsed_nanos } => {
                    self.phase = Phase::Waiting;
                    Action::AwaitInput { timeout_nanos: remaining_wait(self.delay_nanos, elapsed_nanos) }
                },
                _ => self.fail(),
            },
            Phase::Waiting => match event {
                Event::Input(Key::Char(key)) if key == QUIT_KEY => {
                    self.phase = Phase::Restoring(Outcome::Quit);
                    Action::Release
                },
                Event::Input(_) | Event::TimedOut => {
                    self.cursor.advance();
                    self.phase = Phase::Rendering;
                    Action::Render { frame: self.cursor.index() }
                },
                _ => self.fail(),
            },
            Phase::Restoring(outcome) => match event {
                Event::Released => {
                    self.phase = Phase::Finished(outcome);
                    Action::Exit(outcome)
                },
                _ => {
                    self.phase = Phase::Finished(Outcome::Failed);
                    Action::Exit(Outcome::Failed)
                },
            },
            Phase::Finished(outcome) => Action::Exit(outcome),
        }
    }

    /// Gives up playback and asks for the terminal's release.
    fn fail(&mut self) -> (action: Action)
        ensures
            final(self)@ == old(self)@.in_phase(Phase::Restoring(Outcome::Failed)),
            action == Action::Release,
    {
        proof {
            use_type_invariant(&*self);
        }
        self.phase = Phase::Restoring(Outcome::Failed);
        Action::Release
    }
}

} // verus!
