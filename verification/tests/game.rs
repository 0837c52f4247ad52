use simon::game::ClickOutcome;
use simon::game::Game;
use simon::game::GameStatus;
use simon::game::PlaybackStep;
use simon::observable::ChangeHandler;
use std::cell::RefCell;
use std::rc::Rc;

struct ScoreRecorder {
    log: Rc<RefCell<Vec<i32>>>,
}

impl ChangeHandler<i32> for ScoreRecorder {
    fn on_change(&self, value: i32) {
        self.log.borrow_mut().push(value);
    }
}

struct StatusRecorder {
    log: Rc<RefCell<Vec<GameStatus>>>,
}

impl ChangeHandler<GameStatus> for StatusRecorder {
    fn on_change(&self, value: GameStatus) {
        self.log.borrow_mut().push(value);
    }
}

/// Drives the replay to completion, returning the signals flashed, in order.
fn run_playback(game: &mut Game) -> Vec<usize> {
    let mut flashes = Vec::new();
    loop {
        match game.playback_tick() {
            PlaybackStep::Flash(signal) => flashes.push(signal),
            PlaybackStep::Done => return flashes,
        }
    }
}

#[test]
fn start_game_resets_everything() {
    let mut game = Game::new(4);
    assert_eq!(game.status.get(), GameStatus::WaitingForStart);
    assert_eq!(game.sequence_len(), 0);
    game.start_game(2);
    assert_eq!(game.status.get(), GameStatus::PlayingSequence);
    assert_eq!(game.score.get(), 0);
    assert_eq!(game.sequence_len(), 1);
    assert_eq!(game.player_input_len(), 0);
}

#[test]
fn restart_resets_after_progress() {
    let mut game = Game::new(4);
    game.start_game(2);
    assert_eq!(run_playback(&mut game), vec![2]);
    assert_eq!(game.button_clicked(2, 1), ClickOutcome::RoundComplete);
    assert_eq!(game.score.get(), 1);
    assert_eq!(game.sequence_len(), 2);
    // startGame is unconditional: even mid-playback it starts over.
    game.start_game(3);
    assert_eq!(game.status.get(), GameStatus::PlayingSequence);
    assert_eq!(game.score.get(), 0);
    assert_eq!(game.sequence_len(), 1);
    assert_eq!(game.player_input_len(), 0);
    assert_eq!(run_playback(&mut game), vec![3]);
}

#[test]
fn playback_reveals_sequence_in_order_then_awaits_input() {
    let mut game = Game::new(4);
    game.start_game(2);
    run_playback(&mut game);
    assert_eq!(game.button_clicked(2, 1), ClickOutcome::RoundComplete);
    // The grown sequence [2, 1] is replayed in order, one element per tick.
    assert_eq!(game.playback_tick(), PlaybackStep::Flash(2));
    assert_eq!(game.playback_tick(), PlaybackStep::Flash(1));
    assert_eq!(game.playback_tick(), PlaybackStep::Done);
    assert_eq!(game.status.get(), GameStatus::WaitingForUser);
}

#[test]
fn scenario_one_element_round_won() {
    // 4 signals; injected draws yield the sequence [2]; after playback the
    // game awaits input; submitting 2 wins the one-element round.
    let mut game = Game::new(4);
    game.start_game(2);
    assert_eq!(run_playback(&mut game), vec![2]);
    assert_eq!(game.status.get(), GameStatus::WaitingForUser);
    let outcome = game.button_clicked(2, 1);
    assert_eq!(outcome, ClickOutcome::RoundComplete);
    assert_eq!(game.score.get(), 1);
    assert_eq!(game.sequence_len(), 2);
    assert_eq!(game.status.get(), GameStatus::PlayingSequence);
    assert_eq!(run_playback(&mut game), vec![2, 1]);
}

#[test]
fn scenario_mismatch_ends_round() {
    // Sequence [2, 1]; the player submits 2 (match) then 0 (mismatch at
    // index 1): the round ends, the score keeps its pre-round value, and the
    // player's input is cleared.
    let mut game = Game::new(4);
    game.start_game(2);
    run_playback(&mut game);
    game.button_clicked(2, 1);
    run_playback(&mut game);
    let score_before_round = game.score.get();
    assert_eq!(game.button_clicked(2, 3), ClickOutcome::Matched);
    assert_eq!(game.player_input_len(), 1);
    assert_eq!(game.button_clicked(0, 3), ClickOutcome::Mismatch);
    assert_eq!(game.status.get(), GameStatus::WaitingForStart);
    assert_eq!(game.score.get(), score_before_round);
    assert_eq!(game.player_input_len(), 0);
    assert_eq!(game.sequence_len(), 2);
}

#[test]
fn input_after_mismatch_is_a_no_op() {
    let mut game = Game::new(4);
    game.start_game(2);
    run_playback(&mut game);
    assert_eq!(game.button_clicked(0, 1), ClickOutcome::Mismatch);
    // Once idle, further submissions change nothing until the next start.
    for i in 0..4 {
        assert_eq!(game.button_clicked(i, 1), ClickOutcome::Ignored);
        assert_eq!(game.status.get(), GameStatus::WaitingForStart);
        assert_eq!(game.score.get(), 0);
        assert_eq!(game.sequence_len(), 1);
        assert_eq!(game.player_input_len(), 0);
    }
}

#[test]
fn input_during_playback_is_dropped() {
    let mut game = Game::new(4);
    game.start_game(2);
    assert_eq!(game.status.get(), GameStatus::PlayingSequence);
    assert_eq!(game.button_clicked(2, 1), ClickOutcome::Ignored);
    assert_eq!(game.player_input_len(), 0);
    assert_eq!(game.sequence_len(), 1);
    assert_eq!(game.score.get(), 0);
    assert_eq!(game.status.get(), GameStatus::PlayingSequence);
}

#[test]
fn invalid_signal_index_is_rejected() {
    let mut game = Game::new(4);
    game.start_game(2);
    run_playback(&mut game);
    assert_eq!(game.status.get(), GameStatus::WaitingForUser);
    assert_eq!(game.button_clicked(4, 1), ClickOutcome::InvalidIndex);
    assert_eq!(game.button_clicked(usize::MAX, 1), ClickOutcome::InvalidIndex);
    // Nothing was touched: the expected submission still wins the round.
    assert_eq!(game.player_input_len(), 0);
    assert_eq!(game.status.get(), GameStatus::WaitingForUser);
    assert_eq!(game.button_clicked(2, 1), ClickOutcome::RoundComplete);
}

#[test]
fn score_counts_completed_rounds() {
    // Three rounds without a mistake: the sequence grows by one per round
    // and the score equals the number of completed rounds.
    let mut game = Game::new(4);
    game.start_game(0);
    let draws = [1usize, 2, 3];
    for (round, draw) in draws.iter().enumerate() {
        let shown = run_playback(&mut game);
        assert_eq!(shown.len(), round + 1);
        for (k, signal) in shown.iter().enumerate() {
            let outcome = game.button_clicked(*signal, *draw);
            if k + 1 == shown.len() {
                assert_eq!(outcome, ClickOutcome::RoundComplete);
            } else {
                assert_eq!(outcome, ClickOutcome::Matched);
            }
        }
        assert_eq!(game.score.get(), (round + 1) as i32);
        assert_eq!(game.sequence_len(), round + 2);
    }
}

#[test]
fn score_subscribers_hear_reset_and_increments() {
    let log = Rc::new(RefCell::new(Vec::new()));
    let mut game = Game::new(4);
    game.score.subscribe(Box::new(ScoreRecorder { log: Rc::clone(&log) }));
    game.start_game(1);
    assert_eq!(*log.borrow(), vec![0]);
    run_playback(&mut game);
    game.button_clicked(1, 0);
    assert_eq!(*log.borrow(), vec![0, 1]);
    game.start_game(2);
    assert_eq!(*log.borrow(), vec![0, 1, 0]);
}

#[test]
fn status_subscribers_hear_every_transition() {
    let log = Rc::new(RefCell::new(Vec::new()));
    let mut game = Game::new(4);
    game.status.subscribe(Box::new(StatusRecorder { log: Rc::clone(&log) }));
    game.start_game(1);
    run_playback(&mut game);
    game.button_clicked(0, 2);
    assert_eq!(
        *log.borrow(),
        vec![
            GameStatus::PlayingSequence,
            GameStatus::WaitingForUser,
            GameStatus::WaitingForStart,
        ]
    );
}
