//! The game engine: a state machine that grows a signal sequence round by
//! round, replays it step by step, and validates the player's input against
//! it, publishing score and status changes through observable cells.
//!
//! The engine owns no timer and no randomness source. The driver supplies
//! each fresh signal id (drawn uniformly from `[0, signal_count)`) and calls
//! [`Game::playback_tick`] once per replay step at its own pace; the return
//! values say which signal to highlight and which feedback mark to show.

use crate::observable::ChangeHandler;
use crate::observable::ObservableValue;
use vstd::prelude::*;

verus! {

/// The lifecycle status of the game.
#[derive(Clone, Copy, PartialEq, Eq, Structural, Debug)]
pub enum GameStatus {
    /// No round is in progress: the initial state, and the state after a
    /// mismatch ends a round.
    WaitingForStart,
    /// The sequence is being replayed to the player; input is ignored.
    PlayingSequence,
    /// The player may submit input.
    WaitingForUser,
}

/// What one replay step asks the driver to do.
#[derive(Clone, Copy, PartialEq, Eq, Structural, Debug)]
pub enum PlaybackStep {
    /// Highlight this signal (and schedule its un-highlight).
    Flash(usize),
    /// The whole sequence has been revealed; the game now awaits input.
    Done,
}

/// What one player submission led to, and so which feedback to show.
#[derive(Clone, Copy, PartialEq, Eq, Structural, Debug)]
pub enum ClickOutcome {
    /// The game was not awaiting input: the submission was dropped silently.
    Ignored,
    /// The signal index was outside `[0, signal_count)`: rejected, no state
    /// was touched.
    InvalidIndex,
    /// The submission matched the expected element; more elements remain.
    Matched,
    /// The submission matched and completed the sequence: the score went up,
    /// a fresh element was appended, and replay begins again.
    RoundComplete,
    /// The submission did not match: the round is over.
    Mismatch,
}

/// The memory-game engine.
pub struct Game {
    sequence: Vec<usize>,
    player_input: Vec<usize>,
    signal_count: usize,
    index_to_flash: usize,
    /// Completed rounds this game; set to 0 by `start_game`.
    pub score: ObservableValue<i32>,
    /// The lifecycle status; drives whether input is accepted.
    pub status: ObservableValue<GameStatus>,
}

impl Game {
    /// The signal ids the player must reproduce, in order.
    pub closed spec fn sequence(&self) -> Seq<usize> {
        self.sequence@
    }

    /// The player's submissions accepted so far this round, in order.
    pub closed spec fn player_input(&self) -> Seq<usize> {
        self.player_input@
    }

    /// How many distinct signals the game was built with.
    pub closed spec fn signal_count(&self) -> usize {
        self.signal_count
    }

    /// The index of the next sequence element to reveal during playback.
    pub closed spec fn replay_cursor(&self) -> usize {
        self.index_to_flash
    }

    /// The value the score cell currently publishes.
    pub closed spec fn score_value(&self) -> i32 {
        self.score.value()
    }

    /// The value the status cell currently publishes.
    pub closed spec fn status_value(&self) -> GameStatus {
        self.status.value()
    }

    /// The subscribers of the score cell, in subscription order.
    pub closed spec fn score_handlers(&self) -> Seq<Box<dyn ChangeHandler<i32>>> {
        self.score.handlers()
    }

    /// The subscribers of the status cell, in subscription order.
    pub closed spec fn status_handlers(&self) -> Seq<Box<dyn ChangeHandler<GameStatus>>> {
        self.status.handlers()
    }

    /// The engine's invariant, established by `new` and preserved by every
    /// operation:
    /// - every sequence element is a valid signal id;
    /// - the accepted player input is a matched prefix of the sequence, and
    ///   a strict prefix while input is awaited;
    /// - the replay cursor stays within the sequence and rests at 0 outside
    ///   playback;
    /// - outside `WaitingForStart`, the score equals the number of completed
    ///   rounds: one less than the sequence's length.
    pub open spec fn wf(&self) -> bool {
        &&& self.signal_count() >= 1
        &&& forall|i: int|
            0 <= i < self.sequence().len() ==> self.sequence()[i] < self.signal_count()
        &&& self.player_input().len() <= self.sequence().len()
        &&& forall|i: int|
            0 <= i < self.player_input().len() ==> self.player_input()[i] == self.sequence()[i]
        &&& self.replay_cursor() <= self.sequence().len()
        &&& (self.status_value() != GameStatus::PlayingSequence ==> self.replay_cursor() == 0)
        &&& (self.status_value() == GameStatus::PlayingSequence ==> self.player_input().len()
            == 0)
        &&& (self.status_value() == GameStatus::WaitingForUser ==> self.player_input().len()
            < self.sequence().len())
        &&& (self.status_value() != GameStatus::WaitingForStart ==> self.sequence().len() >= 1
            && self.score_value() == self.sequence().len() - 1)
        &&& self.score_value() >= 0
    }

    /// How many elements the sequence currently has.
    pub fn sequence_len(&self) -> (n: usize)
        ensures
            n == self.sequence().len(),
    {
        self.sequence.len()
    }

    /// How many submissions the player's input currently holds.
    pub fn player_input_len(&self) -> (n: usize)
        ensures
            n == self.player_input().len(),
    {
        self.player_input.len()
    }

    /// Creates an engine for `signal_count` signals, idle, with an empty
    /// sequence and a score of 0.
    pub fn new(signal_count: usize) -> (game: Game)
        requires
            signal_count >= 1,
        ensures
            game.wf(),
            game.signal_count() == signal_count,
            game.sequence() == Seq::<usize>::empty(),
            game.player_input() == Seq::<usize>::empty(),
            game.replay_cursor() == 0,
            game.status_value() == GameStatus::WaitingForStart,
            game.score_value() == 0,
            game.score_handlers().len() == 0,
            game.status_handlers().len() == 0,
    {
        Game {
            sequence: Vec::new(),
            player_input: Vec::new(),
            signal_count,
            index_to_flash: 0,
            score: ObservableValue::new(0),
            status: ObservableValue::new(GameStatus::WaitingForStart),
        }
    }

    /// Starts a game (or restarts one, in any state): clears the sequence
    /// and the player's input, publishes a score of 0, appends `first_signal`
    /// as the sequence's one element, and enters playback.
    ///
    /// `first_signal` is the round's fresh signal id; the driver draws it
    /// uniformly from `[0, signal_count)`.
    pub fn start_game(&mut self, first_signal: usize)
        requires
            old(self).wf(),
            first_signal < old(self).signal_count(),
        ensures
            final(self).wf(),
            final(self).signal_count() == old(self).signal_count(),
            final(self).sequence() == seq![first_signal],
            final(self).player_input().len() == 0,
            final(self).replay_cursor() == 0,
            final(self).status_value() == GameStatus::PlayingSequence,
            final(self).score_value() == 0,
            final(self).score_handlers() == old(self).score_handlers(),
            final(self).status_handlers() == old(self).status_handlers(),
    {
        self.sequence.clear();
        self.player_input.clear();
        self.index_to_flash = 0;
        self.score.set(0);
        self.add_to_sequence(first_signal);
        self.status.set(GameStatus::PlayingSequence);
    }

    /// Appends one fresh element to the sequence.
    fn add_to_sequence(&mut self, signal: usize)
        requires
            signal < old(self).signal_count(),
        ensures
            final(self).sequence() == old(self).sequence().push(signal),
            final(self).player_input() == old(self).player_input(),
            final(self).signal_count() == old(self).signal_count(),
            final(self).replay_cursor() == old(self).replay_cursor(),
            final(self).score == old(self).score,
            final(self).status == old(self).status,
    {
        self.sequence.push(signal);
    }

    /// Performs one step of the timed replay: while elements remain past the
    /// cursor, reveals the next one and advances; once all have been shown,
    /// rests the cursor and opens the game for input.
    ///
    /// The driver calls this once per replay interval while the status is
    /// `PlayingSequence`.
    pub fn playback_tick(&mut self) -> (step: PlaybackStep)
        requires
            old(self).wf(),
            old(self).status_value() == GameStatus::PlayingSequence,
        ensures
            final(self).wf(),
            final(self).signal_count() == old(self).signal_count(),
            final(self).sequence() == old(self).sequence(),
            final(self).player_input() == old(self).player_input(),
            final(self).score_value() == old(self).score_value(),
            final(self).score_handlers() == old(self).score_handlers(),
            final(self).status_handlers() == old(self).status_handlers(),
            old(self).replay_cursor() < old(self).sequence().len() ==> {
                &&& step == PlaybackStep::Flash(
                    old(self).sequence()[old(self).replay_cursor() as int],
                )
                &&& final(self).replay_cursor() == old(self).replay_cursor() + 1
                &&& final(self).status_value() == GameStatus::PlayingSequence
            },
            old(self).replay_cursor() >= old(self).sequence().len() ==> {
                &&& step == PlaybackStep::Done
                &&& final(self).replay_cursor() == 0
                &&& final(self).status_value() == GameStatus::WaitingForUser
            },
    {
        if self.index_to_flash < self.sequence.len() {
            let signal = self.sequence[self.index_to_flash];
            self.index_to_flash = self.index_to_flash + 1;
            PlaybackStep::Flash(signal)
        } else {
            self.index_to_flash = 0;
            self.status.set(GameStatus::WaitingForUser);
            PlaybackStep::Done
        }
    }

    /// Handles the player activating signal `button_index`.
    ///
    /// Unless the game is awaiting input (anything else drops the submission
    /// untouched) and the index is a valid signal id (anything else is
    /// rejected untouched), the submission is appended to the player's input
    /// and validated against the sequence:
    /// - a mismatch ends the round: input cleared, status `WaitingForStart`,
    ///   sequence and score kept;
    /// - a match that completes the sequence wins the round: score up by one,
    ///   input cleared, `next_signal` appended, playback begins again;
    /// - any other match just records the submission and keeps waiting.
    ///
    /// `next_signal` is the next round's fresh signal id, used only when the
    /// round is won; the driver draws it uniformly from `[0, signal_count)`.
    pub fn button_clicked(&mut self, button_index: usize, next_signal: usize) -> (outcome:
        ClickOutcome)
        requires
            old(self).wf(),
            next_signal < old(self).signal_count(),
            old(self).status_value() == GameStatus::WaitingForUser ==> old(self).score_value()
                < i32::MAX,
        ensures
            final(self).wf(),
            final(self).signal_count() == old(self).signal_count(),
            final(self).score_handlers() == old(self).score_handlers(),
            final(self).status_handlers() == old(self).status_handlers(),
            old(self).status_value() != GameStatus::WaitingForUser ==> {
                &&& outcome == ClickOutcome::Ignored
                &&& *final(self) == *old(self)
            },
            (old(self).status_value() == GameStatus::WaitingForUser && button_index >= old(self).signal_count()) ==> {
                &&& outcome == ClickOutcome::InvalidIndex
                &&& *final(self) == *old(self)
            },
            (old(self).status_value() == GameStatus::WaitingForUser && button_index < old(self).signal_count()) ==> {
                let expected = old(self).sequence()[old(self).player_input().len() as int];
                if button_index != expected {
                    &&& outcome == ClickOutcome::Mismatch
                    &&& final(self).status_value() == GameStatus::WaitingForStart
                    &&& final(self).player_input().len() == 0
                    &&& final(self).sequence() == old(self).sequence()
                    &&& final(self).score_value() == old(self).score_value()
                } else if old(self).player_input().len() + 1 < old(self).sequence().len() {
                    &&& outcome == ClickOutcome::Matched
                    &&& final(self).status_value() == GameStatus::WaitingForUser
                    &&& final(self).player_input() == old(self).player_input().push(button_index)
                    &&& final(self).sequence() == old(self).sequence()
                    &&& final(self).score_value() == old(self).score_value()
                } else {
                    &&& outcome == ClickOutcome::RoundComplete
                    &&& final(self).status_value() == GameStatus::PlayingSequence
                    &&& final(self).player_input().len() == 0
                    &&& final(self).sequence() == old(self).sequence().push(next_signal)
                    &&& final(self).score_value() == old(self).score_value() + 1
                    &&& final(self).replay_cursor() == 0
                }
            },
    {
        if self.status.get() != GameStatus::WaitingForUser {
            return ClickOutcome::Ignored;
        }
        if button_index >= self.signal_count {
            return ClickOutcome::InvalidIndex;
        }
        // Every earlier entry of player_input matched its sequence element
        // when it was accepted, so only the newest entry can disagree.
        let expected = self.sequence[self.player_input.len()];
        self.player_input.push(button_index);
        if button_index != expected {
            self.player_input.clear();
            self.status.set(GameStatus::WaitingForStart);
            return ClickOutcome::Mismatch;
        }
        if self.player_input.len() == self.sequence.len() {
            self.increment_score();
            self.player_input.clear();
            self.add_to_sequence(next_signal);
            self.status.set(GameStatus::PlayingSequence);
            return ClickOutcome::RoundComplete;
        }
        ClickOutcome::Matched
    }

    /// Publishes a score one higher than the current one.
    fn increment_score(&mut self)
        requires
            old(self).score_value() < i32::MAX,
        ensures
            final(self).score_value() == old(self).score_value() + 1,
            final(self).score_handlers() == old(self).score_handlers(),
            final(self).sequence() == old(self).sequence(),
            final(self).player_input() == old(self).player_input(),
            final(self).signal_count() == old(self).signal_count(),
            final(self).replay_cursor() == old(self).replay_cursor(),
            final(self).status == old(self).status,
    {
        let current = self.score.get();
        self.score.set(current + 1);
    }
}

/// Law: in any well-formed engine state in which a game is under way (any
/// status but `WaitingForStart`), the published score equals the number of
/// completed rounds, which is one less than the length the sequence has
/// grown to.
pub proof fn lemma_score_counts_completed_rounds(game: &Game)
    requires
        game.wf(),
        game.status_value() != GameStatus::WaitingForStart,
    ensures
        game.score_value() == game.sequence().len() - 1,
{
}

/// Law: in any well-formed engine state, the player's accepted input is a
/// matched prefix of the sequence: element for element equal to it, and
/// never longer.
pub proof fn lemma_player_input_matches_prefix(game: &Game)
    requires
        game.wf(),
    ensures
        game.player_input().len() <= game.sequence().len(),
        forall|i: int|
            0 <= i < game.player_input().len() ==> game.player_input()[i] == game.sequence()[i],
{
}

} // verus!
