use tandem::error::GameError;
use tandem::request::{Action, Request};

fn refused(text: &str) {
    assert_eq!(Request::decode(text), Err(GameError::Decode(text.to_string())));
}

#[test]
fn a_score_is_read() {
    assert_eq!(Request::decode("{\"score\": 7}"), Ok(Request::Score { score: 7 }));
    assert_eq!(Request::decode("{\"score\":0}"), Ok(Request::Score { score: 0 }));
    assert_eq!(Request::decode("{\"score\":255}"), Ok(Request::Score { score: 255 }));
    assert_eq!(Request::decode(" {\n\t\"score\" : 12 }\n"), Ok(Request::Score { score: 12 }));
}

#[test]
fn the_call_for_the_next_round_is_read() {
    let advance = Request::Action { action: Action::AdvanceRound };
    assert_eq!(Request::decode("{\"action\": \"advance-round\"}"), Ok(advance));
    assert_eq!(Request::decode("{\"action\":\"advance-round\"}"), Ok(advance));
    assert_eq!(Request::decode("{ \"action\" : \"advance\\u002dround\" }"), Ok(advance));
}

#[test]
fn a_score_must_fit_eight_bits() {
    refused("{\"score\": 256}");
    refused("{\"score\": -1}");
    refused("{\"score\": 7.5}");
    refused("{\"score\": 1e2}");
    refused("{\"score\": \"7\"}");
    refused("{\"score\": null}");
    refused("{\"score\": true}");
    refused("{\"score\": [7]}");
}

#[test]
fn only_the_known_action_is_read() {
    refused("{\"action\": \"advance\"}");
    refused("{\"action\": \"AdvanceRound\"}");
    refused("{\"action\": \"advance_round\"}");
    refused("{\"action\": \"\"}");
    refused("{\"action\": 1}");
    refused("{\"action\": null}");
}

#[test]
fn unknown_members_are_refused() {
    refused("{\"foo\": 1}");
    refused("{\"foo\": \"advance-round\"}");
    refused("{\"Score\": 7}");
    refused("{\"score\": 7, \"extra\": 1}");
    refused("{\"extra\": 1, \"score\": 7}");
    refused("{\"action\": \"advance-round\", \"extra\": \"x\"}");
    refused("{\"score\": 7, \"action\": \"advance-round\"}");
    refused("{}");
}

#[test]
fn what_is_no_object_is_refused() {
    refused("7");
    refused("[7]");
    refused("[\"advance-round\"]");
    refused("\"advance-round\"");
    refused("null");
    refused("true");
    refused("score");
    refused("{\"score\": 7");
    refused("{\"score\": 7} x");
    refused("{\"score\": 7}{\"score\": 7}");
    refused(" ");
}

#[test]
fn members_decide_the_request() {
    let advance = Request::Action { action: Action::AdvanceRound };
    let score = |points: u8| Some(vec![("score".to_string(), points)]);
    let action = |name: &str| Some(vec![("action".to_string(), name.to_string())]);
    assert_eq!(Request::from_members(score(3), None), Some(Request::Score { score: 3 }));
    assert_eq!(Request::from_members(None, action("advance-round")), Some(advance));
    assert_eq!(
        Request::from_members(score(3), action("advance-round")),
        Some(Request::Score { score: 3 })
    );
    assert_eq!(Request::from_members(None, None), None);
    assert_eq!(Request::from_members(Some(Vec::new()), Some(Vec::new())), None);
    assert_eq!(Request::from_members(None, action("stop")), None);
    assert_eq!(Request::from_members(Some(vec![("points".to_string(), 3)]), None), None);
    assert_eq!(
        Request::from_members(Some(vec![("a".to_string(), 1), ("score".to_string(), 3)]), None),
        None
    );
    assert_eq!(
        Request::from_members(
            None,
            Some(vec![
                ("action".to_string(), "advance-round".to_string()),
                ("b".to_string(), "c".to_string()),
            ])
        ),
        None
    );
    assert_eq!(
        Request::from_members(
            Some(vec![("points".to_string(), 3)]),
            Some(vec![("score".to_string(), "advance-round".to_string())])
        ),
        None
    );
}
