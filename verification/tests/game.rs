use std::cell::RefCell;
use std::rc::Rc;

use tandem::error::GameError;
use tandem::game::{Game, Step};
use tandem::locale::Locale;
use tandem::request::{Action, Request};
use tandem::vocab::{Vocab, VocabWord};

/// A writing half that keeps what is written to it, or fails every write.
#[derive(Clone, Debug)]
struct Half {
    frames: Rc<RefCell<Vec<String>>>,
    broken: bool,
}

impl Half {
    fn new() -> Half {
        Half { frames: Rc::new(RefCell::new(Vec::new())), broken: false }
    }

    fn broken() -> Half {
        Half { frames: Rc::new(RefCell::new(Vec::new())), broken: true }
    }

    fn write(&mut self, frame: String) -> Result<(), GameError> {
        if self.broken {
            Err(GameError::Transport("broken pipe".to_string()))
        } else {
            self.frames.borrow_mut().push(frame);
            Ok(())
        }
    }

    fn count(&self) -> usize {
        self.frames.borrow().len()
    }

    fn last(&self) -> serde_json::Value {
        let frames = self.frames.borrow();
        serde_json::from_str(frames.last().expect("a frame")).expect("valid JSON")
    }
}

fn vocab() -> Vocab {
    Vocab::from_words(vec![
        VocabWord {
            word: "\u{4f60}\u{597d}".to_string(),
            word_detail: "n\u{1d0} h\u{1ce}o".to_string(),
            definition: vec!["hello".to_string(), "hi".to_string()],
        },
        VocabWord {
            word: "\u{8c22}\u{8c22}".to_string(),
            word_detail: "xi\u{e8}xie".to_string(),
            definition: vec!["thanks".to_string()],
        },
    ])
    .expect("two words")
}

fn join(game: &mut Game<Half>, side: Locale, mut half: Half) -> Result<(), (GameError, Half)> {
    let pushed = match game.push_state(side) {
        Ok(frame) => half.write(frame),
        Err(error) => Err(error),
    };
    game.set_participant(side, half, pushed)
}

fn run(game: &mut Game<Half>, first: Step) -> Result<(), GameError> {
    let mut step = first;
    loop {
        match step {
            Step::Finished(result) => return result,
            Step::Send { to, frame, pending } => {
                let outcome = match game.get_participant(to) {
                    Some(half) => half.write(frame),
                    None => panic!("a push to a side that is not attached"),
                };
                step = game.pushed(pending, outcome);
            }
        }
    }
}

#[test]
fn a_new_game_is_fresh_and_vacant() {
    let game: Game<Half> = Game::new(vocab());
    for side in [Locale::English, Locale::Chinese] {
        assert!(!game.has_participant(side));
        let shown = game.client_state(side);
        assert_eq!(shown.scored(), None);
        assert!(!shown.has_score());
        assert!(!shown.ready());
        let word = shown.my_card().word.word().to_string();
        assert!(word == "\u{4f60}\u{597d}" || word == "\u{8c22}\u{8c22}");
    }
}

#[test]
fn push_state_is_the_frame_of_what_is_shown() {
    let game: Game<Half> = Game::new(vocab());
    for side in [Locale::English, Locale::Chinese] {
        assert_eq!(
            game.push_state(side).expect("a frame"),
            game.client_state(side).to_json().expect("a frame")
        );
    }
}

#[test]
fn joining_attaches_after_a_delivered_push() {
    let mut game = Game::new(vocab());
    let half = Half::new();
    assert!(join(&mut game, Locale::English, half.clone()).is_ok());
    assert!(game.has_participant(Locale::English));
    assert!(!game.has_participant(Locale::Chinese));
    assert_eq!(half.count(), 1);
    let first = half.last();
    assert_eq!(first["ready"], false);
    assert_eq!(first["hasScore"], false);
    assert!(first["scored"].is_null());
}

#[test]
fn joining_fails_with_the_push_and_hands_the_half_back() {
    let mut game = Game::new(vocab());
    let earlier = Half::new();
    assert!(join(&mut game, Locale::Chinese, earlier.clone()).is_ok());
    let refused = join(&mut game, Locale::Chinese, Half::broken());
    match refused {
        Err((error, half)) => {
            assert_eq!(error, GameError::Transport("broken pipe".to_string()));
            assert!(half.broken);
        }
        Ok(()) => panic!("joined over a broken connection"),
    }
    assert!(game.has_participant(Locale::Chinese));
    assert!(!game.get_participant(Locale::Chinese).as_ref().expect("attached").broken);
    let vacant = join(&mut game, Locale::English, Half::broken());
    assert!(vacant.is_err());
    assert!(!game.has_participant(Locale::English));
}

#[test]
fn set_participant_goes_by_the_outcome_it_is_given() {
    let mut game: Game<u32> = Game::new(vocab());
    assert_eq!(game.set_participant(Locale::English, 1, Ok(())), Ok(()));
    assert_eq!(
        game.set_participant(Locale::English, 2, Err(GameError::Encode("no".to_string()))),
        Err((GameError::Encode("no".to_string()), 2))
    );
    assert_eq!(game.take_participant(Locale::English), Some(1));
}

#[test]
fn a_later_connection_takes_the_place_of_an_earlier_one() {
    let mut game = Game::new(vocab());
    let earlier = Half::new();
    let later = Half::new();
    let peer = Half::new();
    assert!(join(&mut game, Locale::English, earlier.clone()).is_ok());
    assert!(join(&mut game, Locale::Chinese, peer.clone()).is_ok());
    assert!(join(&mut game, Locale::English, later.clone()).is_ok());
    assert_eq!(earlier.count(), 1);
    assert_eq!(later.count(), 1);
    let step = game.set_score(Locale::Chinese, 4);
    assert_eq!(run(&mut game, step), Ok(()));
    let step = game.set_ready(Locale::English);
    assert_eq!(run(&mut game, step), Ok(()));
    assert_eq!(earlier.count(), 1);
    assert_eq!(later.count(), 3);
    assert_eq!(peer.count(), 3);
    assert!(game.take_participant(Locale::English).is_some());
    assert!(game.take_participant(Locale::English).is_none());
}

#[test]
fn taking_from_a_vacant_side_gives_nothing() {
    let mut game: Game<Half> = Game::new(vocab());
    assert!(game.take_participant(Locale::English).is_none());
    assert!(game.take_participant(Locale::Chinese).is_none());
    assert!(join(&mut game, Locale::Chinese, Half::new()).is_ok());
    assert!(game.take_participant(Locale::English).is_none());
    assert!(game.has_participant(Locale::Chinese));
    assert!(game.take_participant(Locale::Chinese).is_some());
    assert!(!game.has_participant(Locale::Chinese));
    assert!(game.take_participant(Locale::Chinese).is_none());
}

#[test]
fn get_participant_is_the_place_of_the_side() {
    let mut game: Game<u32> = Game::new(vocab());
    assert_eq!(*game.get_participant(Locale::English), None);
    assert_eq!(game.set_participant(Locale::English, 7, Ok(())), Ok(()));
    assert_eq!(*game.get_participant(Locale::English), Some(7));
    assert_eq!(*game.get_participant(Locale::Chinese), None);
    *game.get_participant(Locale::Chinese) = Some(9);
    assert_eq!(game.take_participant(Locale::Chinese), Some(9));
    assert_eq!(game.take_participant(Locale::English), Some(7));
}

#[test]
fn a_request_pushes_to_the_acting_side_first_and_then_to_the_peer() {
    let mut game: Game<u32> = Game::new(vocab());
    assert_eq!(game.set_participant(Locale::English, 1, Ok(())), Ok(()));
    assert_eq!(game.set_participant(Locale::Chinese, 2, Ok(())), Ok(()));
    let own = match game.set_score(Locale::Chinese, 9) {
        Step::Send { to, frame, pending } => {
            assert_eq!(to, Locale::Chinese);
            assert_eq!(frame, game.push_state(Locale::Chinese).expect("a frame"));
            pending
        }
        Step::Finished(_) => panic!("no push to the acting side"),
    };
    let peer = match game.pushed(own, Ok(())) {
        Step::Send { to, frame, pending } => {
            assert_eq!(to, Locale::English);
            assert_eq!(frame, game.push_state(Locale::English).expect("a frame"));
            pending
        }
        Step::Finished(_) => panic!("no push to the peer"),
    };
    assert!(matches!(game.pushed(peer, Ok(())), Step::Finished(Ok(()))));
}

#[test]
fn a_failed_push_to_the_acting_side_fails_the_request() {
    let mut game: Game<u32> = Game::new(vocab());
    assert_eq!(game.set_participant(Locale::English, 1, Ok(())), Ok(()));
    assert_eq!(game.set_participant(Locale::Chinese, 2, Ok(())), Ok(()));
    let own = match game.set_ready(Locale::English) {
        Step::Send { to, pending, .. } => {
            assert_eq!(to, Locale::English);
            pending
        }
        Step::Finished(_) => panic!("no push to the acting side"),
    };
    let failure = GameError::Transport("reset".to_string());
    match game.pushed(own, Err(failure)) {
        Step::Finished(result) => {
            assert_eq!(result, Err(GameError::Transport("reset".to_string())))
        }
        Step::Send { .. } => panic!("a push after the request has failed"),
    }
    assert!(game.client_state(Locale::English).ready());
}

#[test]
fn a_failed_push_to_the_peer_is_passed_over() {
    let mut game = Game::new(vocab());
    let acting = Half::new();
    assert!(join(&mut game, Locale::English, acting.clone()).is_ok());
    assert!(join(&mut game, Locale::Chinese, Half::new()).is_ok());
    game.get_participant(Locale::Chinese).as_mut().expect("attached").broken = true;
    let step = game.set_score(Locale::English, 3);
    assert_eq!(run(&mut game, step), Ok(()));
    assert_eq!(acting.count(), 2);
    assert!(game.has_participant(Locale::Chinese));
    let step = game.set_score(Locale::Chinese, 3);
    assert_eq!(run(&mut game, step), Err(GameError::Transport("broken pipe".to_string())));
    assert_eq!(acting.count(), 2);
}

#[test]
fn a_vacant_side_is_passed_over() {
    let mut game: Game<Half> = Game::new(vocab());
    assert!(matches!(game.set_score(Locale::English, 1), Step::Finished(Ok(()))));
    assert_eq!(game.client_state(Locale::Chinese).scored(), Some(1));
    let peer = Half::new();
    assert!(join(&mut game, Locale::Chinese, peer.clone()).is_ok());
    let pending = match game.set_score(Locale::English, 2) {
        Step::Send { to, pending, .. } => {
            assert_eq!(to, Locale::Chinese);
            pending
        }
        Step::Finished(_) => panic!("no push to the peer"),
    };
    let failure = GameError::Transport("reset".to_string());
    assert!(matches!(game.pushed(pending, Err(failure)), Step::Finished(Ok(()))));
    let step = game.set_score(Locale::Chinese, 5);
    assert_eq!(run(&mut game, step), Ok(()));
    assert_eq!(peer.count(), 2);
    assert_eq!(peer.last()["scored"], 2);
    assert_eq!(peer.last()["hasScore"], true);
}

#[test]
fn serve_does_what_the_request_asks() {
    let mut game: Game<Half> = Game::new(vocab());
    assert!(matches!(
        game.serve(Locale::English, Request::Score { score: 8 }),
        Step::Finished(Ok(()))
    ));
    assert_eq!(game.client_state(Locale::Chinese).scored(), Some(8));
    assert!(game.client_state(Locale::English).has_score());
    assert!(matches!(
        game.serve(Locale::English, Request::Action { action: Action::AdvanceRound }),
        Step::Finished(Ok(()))
    ));
    assert!(game.client_state(Locale::English).ready());
    assert!(!game.client_state(Locale::Chinese).ready());
    assert_eq!(game.client_state(Locale::Chinese).scored(), Some(8));
}

#[test]
fn scoring_never_deals_a_new_round() {
    let mut game = Game::new(vocab());
    let half = Half::new();
    assert!(join(&mut game, Locale::English, half.clone()).is_ok());
    let before = half.last();
    for points in [0u8, 1, 200, 255] {
        let step = game.set_score(Locale::English, points);
        assert_eq!(run(&mut game, step), Ok(()));
        let step = game.set_score(Locale::Chinese, points);
        assert_eq!(run(&mut game, step), Ok(()));
        let shown = half.last();
        assert_eq!(shown["myCard"], before["myCard"]);
        assert_eq!(shown["theirCard"], before["theirCard"]);
        assert_eq!(shown["scored"], points);
        assert_eq!(shown["hasScore"], true);
        assert_eq!(shown["ready"], false);
    }
}

#[test]
fn two_players_play_a_round() {
    let mut game = Game::new(vocab());
    let a = Half::new();
    let b = Half::new();

    assert!(join(&mut game, Locale::English, a.clone()).is_ok());
    let first = a.last();
    assert_eq!(first["ready"], false);
    assert_eq!(first["hasScore"], false);
    assert!(first["scored"].is_null());

    assert!(join(&mut game, Locale::Chinese, b.clone()).is_ok());
    assert_eq!(a.count(), 1);
    assert_eq!(b.last()["myCard"], first["theirCard"]);
    assert_eq!(b.last()["theirCard"], first["myCard"]);

    let step = game.serve(Locale::English, Request::Score { score: 7 });
    assert_eq!(run(&mut game, step), Ok(()));
    assert_eq!(a.count(), 2);
    assert_eq!(b.count(), 2);
    assert!(a.last()["scored"].is_null());
    assert_eq!(a.last()["hasScore"], true);
    assert_eq!(b.last()["scored"], 7);
    assert_eq!(b.last()["hasScore"], false);
    assert_eq!(a.last()["myCard"], first["myCard"]);

    let advance = Request::Action { action: Action::AdvanceRound };
    let step = game.serve(Locale::English, advance);
    assert_eq!(run(&mut game, step), Ok(()));
    assert_eq!(a.last()["ready"], true);
    assert_eq!(b.last()["ready"], false);
    assert_eq!(b.last()["scored"], 7);
    assert_eq!(a.last()["myCard"], first["myCard"]);
    assert_eq!(a.last()["theirCard"], first["theirCard"]);

    let step = game.serve(Locale::Chinese, advance);
    assert_eq!(run(&mut game, step), Ok(()));
    assert_eq!(a.count(), 4);
    assert_eq!(b.count(), 4);
    for half in [&a, &b] {
        let shown = half.last();
        assert!(shown["scored"].is_null());
        assert_eq!(shown["hasScore"], false);
        assert_eq!(shown["ready"], false);
        assert!(shown["myCard"]["word"].is_string());
        assert!(shown["theirCard"]["word"].is_string());
    }
    assert_eq!(a.last()["myCard"], b.last()["theirCard"]);
    assert_eq!(a.last()["theirCard"], b.last()["myCard"]);
}
