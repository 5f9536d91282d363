use vstd::prelude::*;
use std::collections::BTreeSet;
use crate::action::TransitionAction;
use crate::error::Error;
use crate::markov::{markov_step_ok, valid_matrix, ActorMarkov};
use crate::model::{basic_successor, ActorBasic, Transition};

verus! {

/// A setting applied to the directory before the run.
#[derive(Clone, Copy, Debug, PartialEq, Eq, Structural)]
pub enum Flag {
    DisableAllPersonsMFAPolicy,
}

/// Whether an identity is expected to exist in the directory before the run.
#[derive(Clone, Copy, Debug, PartialEq, Eq, Structural)]
pub enum PreflightState {
    Present,
    Absent,
}

/// The secret an identity authenticates with.
#[derive(Clone, Debug)]
pub enum Credential {
    Password { plain: String },
}

/// Description of an identity's behaviour strategy.
#[derive(Clone, Debug)]
pub enum Model {
    /// A fixed script that authenticates, reads and writes the profile, and
    /// ends the session.
    Basic,
    /// Sampling from a transition-probability matrix.
    Markov {
        /// Row-major matrix of fixed-point probabilities.
        distributions_matrix: Vec<u64>,
        /// Seed of the actor's generator; without one, entropy is used.
        rng_seed: Option<u64>,
        /// Mean and standard deviation of the pause, in milliseconds.
        normal_dist_mean_and_std_dev: Option<(i64, u64)>,
    },
}

/// A live strategy, built from a [`Model`].
pub enum Actor {
    Basic(ActorBasic),
    Markov(ActorMarkov),
}

/// Whether the description can be turned into a live strategy.
pub open spec fn model_valid(m: Model) -> bool {
    match m {
        Model::Basic => true,
        Model::Markov { distributions_matrix, .. } => valid_matrix(distributions_matrix@),
    }
}

/// `r` is what building a strategy from `m` gives, with `entropy` seeding
/// a Markov generator that has no seed of its own.
pub open spec fn builds(m: Model, entropy: u64, r: Result<Actor, Error>) -> bool {
    match m {
        Model::Basic => r == Ok::<Actor, Error>(
            Actor::Basic(ActorBasic { next: TransitionAction::Login }),
        ),
        Model::Markov { distributions_matrix, rng_seed, normal_dist_mean_and_std_dev } => {
            if valid_matrix(distributions_matrix@) {
                r matches Ok(Actor::Markov(a)) && a.wf() && a.matrix() == distributions_matrix@
                    && a.rng() == (match rng_seed {
                    Some(s) => s,
                    None => entropy,
                }) && a.current() == TransitionAction::Login && a.delay_params()
                    == normal_dist_mean_and_std_dev
            } else {
                r == Err::<Actor, Error>(Error::ActorConstruction)
            }
        },
    }
}

impl Default for Model {
    fn default() -> (r: Model)
        ensures
            r == Model::Basic,
    {
        Model::Basic
    }
}

impl Model {
    /// Builds the live strategy that the description names. `entropy`
    /// seeds the generator of a Markov strategy that has no seed.
    pub fn as_dyn_object(&self, entropy: u64) -> (r: Result<Actor, Error>)
        ensures
            builds(*self, entropy, r),
            r is Ok <==> model_valid(*self),
    {
        match self {
            Model::Basic => Ok(Actor::Basic(ActorBasic::new())),
            Model::Markov { distributions_matrix, rng_seed, normal_dist_mean_and_std_dev } => {
                let seed = match rng_seed {
                    Some(s) => *s,
                    None => entropy,
                };
                match ActorMarkov::new(distributions_matrix, seed, *normal_dist_mean_and_std_dev) {
                    Ok(a) => Ok(Actor::Markov(a)),
                    Err(e) => Err(e),
                }
            },
        }
    }
}

impl Actor {
    /// The actor's invariant.
    pub open spec fn wf(&self) -> bool {
        match self {
            Actor::Basic(_) => true,
            Actor::Markov(a) => a.wf(),
        }
    }

    /// Produces the next transition of the strategy and advances it.
    pub fn next_transition(&mut self) -> (r: Transition)
        requires
            old(self).wf(),
        ensures
            final(self).wf(),
            match *old(self) {
                Actor::Basic(b) => {
                    &&& r == (Transition { delay: None, action: b.next })
                    &&& *final(self) == Actor::Basic(ActorBasic { next: basic_successor(b.next) })
                },
                Actor::Markov(a) => *final(self) matches Actor::Markov(a2) && markov_step_ok(
                    a,
                    a2,
                    r,
                ),
            },
    {
        match self {
            Actor::Basic(b) => b.next_transition(),
            Actor::Markov(a) => a.next_transition(),
        }
    }
}

/// One simulated identity.
#[derive(Clone, Debug)]
pub struct Person {
    pub preflight_state: PreflightState,
    pub username: String,
    pub display_name: String,
    /// Names of the groups the identity belongs to.
    pub member_of: BTreeSet<String>,
    pub credential: Credential,
    pub model: Model,
}

/// The complete simulation plan.
#[derive(Clone, Debug)]
pub struct State {
    /// The run profile, carried through unread as its serialized document.
    pub profile: String,
    pub preflight_flags: Vec<Flag>,
    pub persons: Vec<Person>,
}

impl State {
    /// Builds one live strategy per person, in order; `entropy[i]` seeds the
    /// generator of person `i` if its model has no seed. Fails with
    /// `ActorConstruction` if any person's model is invalid.
    pub fn actors(&self, entropy: &Vec<u64>) -> (r: Result<Vec<Actor>, Error>)
        requires
            entropy@.len() == self.persons@.len(),
        ensures
            r is Ok <==> forall|i: int| 0 <= i < self.persons@.len() ==> model_valid(
                self.persons@[i].model,
            ),
            r is Err ==> r == Err::<Vec<Actor>, Error>(Error::ActorConstruction),
            r matches Ok(v) ==> {
                &&& v@.len() == self.persons@.len()
                &&& forall|i: int|
                    0 <= i < v@.len() ==> builds(
                        self.persons@[i].model,
                        entropy@[i],
                        Ok::<Actor, Error>(#[trigger] v@[i]),
                    )
            },
    {
        let mut out: Vec<Actor> = Vec::new();
        let mut i: usize = 0;
        while i < self.persons.len()
            invariant
                i <= self.persons@.len(),
                entropy@.len() == self.persons@.len(),
                out@.len() == i,
                forall|j: int| 0 <= j < i ==> model_valid(self.persons@[j].model),
                forall|j: int|
                    0 <= j < i ==> builds(
                        self.persons@[j].model,
                        entropy@[j],
                        Ok::<Actor, Error>(#[trigger] out@[j]),
                    ),
            decreases self.persons@.len() - i,
        {
            match self.persons[i].model.as_dyn_object(entropy[i]) {
                Ok(a) => out.push(a),
                Err(e) => return Err(e),
            }
            i = i + 1;
        }
        Ok(out)
    }
}


/// A call of the directory facade.
#[derive(Clone, Debug)]
pub enum FacadeRequest {
    Authenticate { username: String, secret: String },
    FetchPerson { username: String },
    SetDisplayName { username: String, value: String },
    TerminateSession,
}

/// The facade call that performs `action` for `person`: authenticate with
/// the person's credential, read the person's entry, set the person's
/// display name to their username, or end the session.
pub open spec fn spec_request(action: TransitionAction, person: Person) -> FacadeRequest {
    match action {
        TransitionAction::Login => match person.credential {
            Credential::Password { plain } => FacadeRequest::Authenticate {
                username: person.username,
                secret: plain,
            },
        },
        TransitionAction::ReadProperty => FacadeRequest::FetchPerson { username: person.username },
        TransitionAction::WriteProperty => FacadeRequest::SetDisplayName {
            username: person.username,
            value: person.username,
        },
        TransitionAction::Logout => FacadeRequest::TerminateSession,
    }
}

/// Describes the facade call that performs `action` for `person`.
pub fn request_for(action: TransitionAction, person: &Person) -> (r: FacadeRequest)
    ensures
        r == spec_request(action, *person),
{
    match action {
        TransitionAction::Login => match &person.credential {
            Credential::Password { plain } => FacadeRequest::Authenticate {
                username: person.username.clone(),
                secret: plain.clone(),
            },
        },
        TransitionAction::ReadProperty => FacadeRequest::FetchPerson {
            username: person.username.clone(),
        },
        TransitionAction::WriteProperty => FacadeRequest::SetDisplayName {
            username: person.username.clone(),
            value: person.username.clone(),
        },
        TransitionAction::Logout => FacadeRequest::TerminateSession,
    }
}

} // verus!
