use orca::action::{TransitionAction, ACTION_COUNT};
use orca::error::Error;
use orca::markov::{
    scaled_normal_delay, select_column, ActorMarkov, PROBABILITY_ONE, ROW_SUM_TOLERANCE,
};
use orca::model::{classify, ActorBasic, EventDetail, Transition, TransitionResult};
use orca::state::{
    request_for, Actor, Credential, FacadeRequest, Flag, Model, Person, PreflightState, State,
};
use std::collections::BTreeSet;

const ONE: u64 = PROBABILITY_ONE;

fn cycle_matrix() -> Vec<u64> {
    vec![
        0, 0, ONE, 0, // Login -> ReadProperty
        ONE, 0, 0, 0, // Logout -> Login
        0, 0, 0, ONE, // ReadProperty -> WriteProperty
        0, ONE, 0, 0, // WriteProperty -> Logout
    ]
}

fn uniform_matrix() -> Vec<u64> {
    vec![ONE / 4; 16]
}

#[test]
fn transition_action_try_from_test() {
    for i in 0..TransitionAction::COUNT {
        let transition_action = TransitionAction::try_from(i as i32);
        assert!(transition_action.is_ok());
        assert_eq!(transition_action.unwrap() as usize, i);
    }
}

#[test]
fn try_from_rejects_out_of_range() {
    for v in [-1, 4, 5, i32::MAX, i32::MIN] {
        assert_eq!(TransitionAction::try_from(v), Err(Error::InvalidOrdinal));
    }
}

#[test]
fn ordinal_round_trip() {
    assert_eq!(ACTION_COUNT, 4);
    for a in [
        TransitionAction::Login,
        TransitionAction::Logout,
        TransitionAction::ReadProperty,
        TransitionAction::WriteProperty,
    ] {
        assert_eq!(TransitionAction::try_from(a.ordinal() as i32), Ok(a));
    }
    assert_eq!(TransitionAction::WriteProperty.ordinal(), 3);
}

#[test]
fn classify_success_and_failure() {
    assert_eq!(
        classify(TransitionAction::Login, true),
        (TransitionResult::Success, EventDetail::Authentication)
    );
    assert_eq!(
        classify(TransitionAction::Logout, true),
        (TransitionResult::Success, EventDetail::Logout)
    );
    assert_eq!(
        classify(TransitionAction::ReadProperty, true),
        (TransitionResult::Success, EventDetail::PersonGet)
    );
    assert_eq!(
        classify(TransitionAction::WriteProperty, true),
        (TransitionResult::Success, EventDetail::PersonSet)
    );
    for a in [TransitionAction::Login, TransitionAction::WriteProperty] {
        assert_eq!(classify(a, false), (TransitionResult::Error, EventDetail::Error));
    }
}

#[test]
fn failed_call_leaves_actor_untouched() {
    let mut a = ActorMarkov::new(&cycle_matrix(), 11, None).unwrap();
    let first = a.next_transition();
    assert_eq!(classify(first.action, false), (TransitionResult::Error, EventDetail::Error));
    assert_eq!(a.next_transition().action, TransitionAction::WriteProperty);
}

#[test]
fn transition_delay_getter() {
    let t = Transition { delay: Some(250), action: TransitionAction::Logout };
    assert_eq!(t.delay(), Some(250));
    let u = Transition { delay: None, action: TransitionAction::Login };
    assert_eq!(u.delay(), None);
}

#[test]
fn basic_script_repeats() {
    let mut b = ActorBasic::new();
    let got: Vec<TransitionAction> = (0..5).map(|_| b.next_transition().action).collect();
    assert_eq!(
        got,
        vec![
            TransitionAction::Login,
            TransitionAction::ReadProperty,
            TransitionAction::WriteProperty,
            TransitionAction::Logout,
            TransitionAction::Login,
        ]
    );
}

#[test]
fn markov_rejects_bad_matrices() {
    assert!(matches!(ActorMarkov::new(&vec![ONE / 4; 15], 1, None), Err(Error::ActorConstruction)));
    assert!(matches!(ActorMarkov::new(&vec![], 1, None), Err(Error::ActorConstruction)));
    let mut m = uniform_matrix();
    m[5] = ONE + 1;
    assert!(matches!(ActorMarkov::new(&m, 1, None), Err(Error::ActorConstruction)));
    m[4] = ONE;
    m[5] = 0;
    m[6] = 0;
    m[7] = 0;
    assert!(ActorMarkov::new(&m, 1, None).is_ok());
    m[4] = ONE - ROW_SUM_TOLERANCE;
    assert!(ActorMarkov::new(&m, 1, None).is_ok());
    m[4] = ONE - ROW_SUM_TOLERANCE - 1;
    assert!(matches!(ActorMarkov::new(&m, 1, None), Err(Error::ActorConstruction)));
    m[4] = ONE;
    m[7] = ROW_SUM_TOLERANCE + 1;
    assert!(matches!(ActorMarkov::new(&m, 1, None), Err(Error::ActorConstruction)));
    assert!(matches!(ActorMarkov::new(&vec![0; 16], 1, None), Err(Error::ActorConstruction)));
}

#[test]
fn deterministic_cycle_for_any_seed() {
    let expected = vec![
        TransitionAction::ReadProperty,
        TransitionAction::WriteProperty,
        TransitionAction::Logout,
        TransitionAction::Login,
        TransitionAction::ReadProperty,
        TransitionAction::WriteProperty,
        TransitionAction::Logout,
        TransitionAction::Login,
    ];
    for seed in [0u64, 1, 42, 0xdead_beef, u64::MAX] {
        let mut a = ActorMarkov::new(&cycle_matrix(), seed, None).unwrap();
        let got: Vec<TransitionAction> = (0..8).map(|_| a.next_transition().action).collect();
        assert_eq!(got, expected);
    }
}

#[test]
fn same_seed_same_sequence() {
    let mut a = ActorMarkov::new(&uniform_matrix(), 1234, Some((100, 20))).unwrap();
    let mut b = ActorMarkov::new(&uniform_matrix(), 1234, Some((100, 20))).unwrap();
    let ta: Vec<Transition> = (0..64).map(|_| a.next_transition()).collect();
    let tb: Vec<Transition> = (0..64).map(|_| b.next_transition()).collect();
    assert_eq!(ta, tb);
    assert!(ta.iter().all(|t| t.delay.is_some()));
    let mut c = ActorMarkov::new(&uniform_matrix(), 1235, Some((100, 20))).unwrap();
    let tc: Vec<Transition> = (0..64).map(|_| c.next_transition()).collect();
    assert_ne!(ta, tc);
}

#[test]
fn sampling_uses_every_column_of_a_uniform_row() {
    let mut a = ActorMarkov::new(&uniform_matrix(), 7, None).unwrap();
    let mut seen = [false; 4];
    for _ in 0..200 {
        let t = a.next_transition();
        assert!(t.delay.is_none());
        seen[t.action.ordinal()] = true;
    }
    assert_eq!(seen, [true; 4]);
}

#[test]
fn short_row_falls_back_to_last_action() {
    let mut m = uniform_matrix();
    m[0] = ONE - ROW_SUM_TOLERANCE;
    m[1] = 0;
    m[2] = 0;
    m[3] = 0;
    assert!(ActorMarkov::new(&m, 99, None).is_ok());
    assert_eq!(select_column(&m, 0, ONE - ROW_SUM_TOLERANCE - 1), 0);
    assert_eq!(select_column(&m, 0, ONE - ROW_SUM_TOLERANCE), 3);
    assert_eq!(select_column(&m, 0, ONE - 1), 3);
}

#[test]
fn from_ordinal_reads_table() {
    assert_eq!(TransitionAction::from_ordinal(0), TransitionAction::Login);
    assert_eq!(TransitionAction::from_ordinal(1), TransitionAction::Logout);
    assert_eq!(TransitionAction::from_ordinal(2), TransitionAction::ReadProperty);
    assert_eq!(TransitionAction::from_ordinal(3), TransitionAction::WriteProperty);
}

#[test]
fn select_column_exact() {
    let m = uniform_matrix();
    assert_eq!(select_column(&m, 0, 0), 0);
    assert_eq!(select_column(&m, 0, ONE / 4 - 1), 0);
    assert_eq!(select_column(&m, 0, ONE / 4), 1);
    assert_eq!(select_column(&m, 2, ONE / 2), 2);
    assert_eq!(select_column(&m, 3, ONE - 1), 3);
    let c = cycle_matrix();
    assert_eq!(select_column(&c, 1, 0), 0);
    assert_eq!(select_column(&c, 1, ONE - 1), 0);
}

#[test]
fn normal_delay_exact() {
    assert_eq!(scaled_normal_delay(100, 10, 6 * 65536), 100);
    assert_eq!(scaled_normal_delay(100, 10, 7 * 65536), 110);
    assert_eq!(scaled_normal_delay(100, 10, 5 * 65536), 90);
    assert_eq!(scaled_normal_delay(1, 1, 0), 0);
    assert_eq!(scaled_normal_delay(0, 5, 6 * 65536), 0);
    assert_eq!(scaled_normal_delay(i64::MAX, u64::MAX, 12 * 0xffff), u64::MAX);
    assert_eq!(scaled_normal_delay(-50, 100, 7 * 65536), 50);
    assert_eq!(scaled_normal_delay(-50, 10, 6 * 65536), 0);
    assert_eq!(scaled_normal_delay(i64::MIN, 0, 0), 0);
}

#[test]
fn model_default_is_basic() {
    assert!(matches!(Model::default(), Model::Basic));
    let mut actor = Model::default().as_dyn_object(0).unwrap();
    assert!(matches!(actor, Actor::Basic(_)));
    assert_eq!(actor.next_transition().action, TransitionAction::Login);
}

#[test]
fn model_seed_or_entropy() {
    let seeded = Model::Markov {
        distributions_matrix: uniform_matrix(),
        rng_seed: Some(77),
        normal_dist_mean_and_std_dev: None,
    };
    let unseeded = Model::Markov {
        distributions_matrix: uniform_matrix(),
        rng_seed: None,
        normal_dist_mean_and_std_dev: None,
    };
    let mut a = seeded.as_dyn_object(5).unwrap();
    let mut b = unseeded.as_dyn_object(77).unwrap();
    for _ in 0..32 {
        assert_eq!(a.next_transition(), b.next_transition());
    }
    let bad = Model::Markov {
        distributions_matrix: vec![0; 3],
        rng_seed: None,
        normal_dist_mean_and_std_dev: None,
    };
    assert!(matches!(bad.as_dyn_object(1), Err(Error::ActorConstruction)));
}

fn person(name: &str, model: Model) -> Person {
    Person {
        preflight_state: PreflightState::Present,
        username: name.to_string(),
        display_name: name.to_string(),
        member_of: BTreeSet::new(),
        credential: Credential::Password { plain: "hunter2".to_string() },
        model,
    }
}

#[test]
fn state_builds_one_actor_per_person() {
    let mut state = State {
        profile: "{}".to_string(),
        preflight_flags: vec![Flag::DisableAllPersonsMFAPolicy],
        persons: vec![
            person("alice", Model::Basic),
            person(
                "bob",
                Model::Markov {
                    distributions_matrix: cycle_matrix(),
                    rng_seed: Some(3),
                    normal_dist_mean_and_std_dev: None,
                },
            ),
        ],
    };
    let actors = state.actors(&vec![1, 2]).unwrap();
    assert_eq!(actors.len(), 2);
    assert!(matches!(actors[0], Actor::Basic(_)));
    assert!(matches!(actors[1], Actor::Markov(_)));
    state.persons.push(person(
        "carol",
        Model::Markov {
            distributions_matrix: vec![ONE; 17],
            rng_seed: None,
            normal_dist_mean_and_std_dev: None,
        },
    ));
    assert!(matches!(state.actors(&vec![1, 2, 3]), Err(Error::ActorConstruction)));
    let empty = State { profile: String::new(), preflight_flags: vec![], persons: vec![] };
    assert_eq!(empty.actors(&vec![]).unwrap().len(), 0);
}

#[test]
fn row_over_one_within_tolerance_is_accepted() {
    let mut m = uniform_matrix();
    m[0] = ONE + 1;
    m[1] = 0;
    m[2] = 0;
    m[3] = 0;
    assert!(ActorMarkov::new(&m, 5, None).is_ok());
    m[0] = ONE + ROW_SUM_TOLERANCE;
    let mut a = ActorMarkov::new(&m, 5, None).unwrap();
    for _ in 0..8 {
        assert!(a.next_transition().action.ordinal() < ACTION_COUNT);
    }
    m[0] = ONE + ROW_SUM_TOLERANCE + 1;
    assert!(matches!(ActorMarkov::new(&m, 5, None), Err(Error::ActorConstruction)));
    let model = Model::Markov {
        distributions_matrix: m.clone(),
        rng_seed: None,
        normal_dist_mean_and_std_dev: None,
    };
    assert!(matches!(model.as_dyn_object(1), Err(Error::ActorConstruction)));
    m[0] = ONE + 1;
    let model = Model::Markov {
        distributions_matrix: m,
        rng_seed: None,
        normal_dist_mean_and_std_dev: None,
    };
    assert!(model.as_dyn_object(1).is_ok());
}

#[test]
fn sample_matches_stepping_and_repeats_per_seed() {
    let mut a = ActorMarkov::new(&uniform_matrix(), 2024, Some((-20, 300))).unwrap();
    let mut b = ActorMarkov::new(&uniform_matrix(), 2024, Some((-20, 300))).unwrap();
    let sa = a.sample(40);
    let sb: Vec<Transition> = (0..40).map(|_| b.next_transition()).collect();
    assert_eq!(sa.len(), 40);
    assert_eq!(sa, sb);
    assert_eq!(a.next_transition(), b.next_transition());
    let mut c = ActorMarkov::new(&cycle_matrix(), 8, None).unwrap();
    assert_eq!(c.sample(0), vec![]);
    assert_eq!(
        c.sample(2),
        vec![
            Transition { delay: None, action: TransitionAction::ReadProperty },
            Transition { delay: None, action: TransitionAction::WriteProperty },
        ]
    );
}

#[test]
fn facade_request_per_action() {
    let p = person("alice", Model::Basic);
    assert!(matches!(
        request_for(TransitionAction::Login, &p),
        FacadeRequest::Authenticate { ref username, ref secret } if username == "alice" && secret == "hunter2"
    ));
    assert!(matches!(
        request_for(TransitionAction::ReadProperty, &p),
        FacadeRequest::FetchPerson { ref username } if username == "alice"
    ));
    assert!(matches!(
        request_for(TransitionAction::WriteProperty, &p),
        FacadeRequest::SetDisplayName { ref username, ref value } if username == "alice" && value == "alice"
    ));
    assert!(matches!(request_for(TransitionAction::Logout, &p), FacadeRequest::TerminateSession));
}
