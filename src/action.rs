use vstd::prelude::*;
use crate::error::Error;

verus! {

/// Number of variants of [`TransitionAction`]; the dimension of every
/// transition-probability matrix.
pub const ACTION_COUNT: usize = 4;

/// A directory operation an actor can perform next.
///
/// Ordinals are dense and start at zero, in declaration order.
#[derive(Clone, Copy, Debug, PartialEq, Eq, Structural)]
pub enum TransitionAction {
    Login,
    Logout,
    ReadProperty,
    WriteProperty,
}

/// Every action, indexed by its ordinal: the one table from which both
/// directions of the ordinal mapping are read.
pub const ACTIONS: [TransitionAction; 4] = [
    TransitionAction::Login,
    TransitionAction::Logout,
    TransitionAction::ReadProperty,
    TransitionAction::WriteProperty,
];

impl TransitionAction {
    /// Number of variants, for callers that reach it through the type.
    pub const COUNT: usize = ACTION_COUNT;

    /// The zero-based position of the action in declaration order.
    pub open spec fn spec_ordinal(self) -> int {
        match self {
            TransitionAction::Login => 0,
            TransitionAction::Logout => 1,
            TransitionAction::ReadProperty => 2,
            TransitionAction::WriteProperty => 3,
        }
    }

    /// The action whose ordinal is `v`, if there is one.
    pub open spec fn spec_from_ordinal(v: int) -> Option<TransitionAction> {
        if v == 0 {
            Some(TransitionAction::Login)
        } else if v == 1 {
            Some(TransitionAction::Logout)
        } else if v == 2 {
            Some(TransitionAction::ReadProperty)
        } else if v == 3 {
            Some(TransitionAction::WriteProperty)
        } else {
            None
        }
    }

    /// The ordinal of the action; total and infallible.
    pub fn ordinal(&self) -> (r: usize)
        ensures
            r == self.spec_ordinal(),
            r < ACTION_COUNT,
    {
        match self {
            TransitionAction::Login => 0,
            TransitionAction::Logout => 1,
            TransitionAction::ReadProperty => 2,
            TransitionAction::WriteProperty => 3,
        }
    }

    /// The action whose ordinal is `i`, read from [`ACTIONS`].
    pub fn from_ordinal(i: usize) -> (r: TransitionAction)
        requires
            i < ACTION_COUNT,
        ensures
            TransitionAction::spec_from_ordinal(i as int) == Some(r),
            r.spec_ordinal() == i,
    {
        let table = ACTIONS;
        assert(table@ =~= seq![
            TransitionAction::Login,
            TransitionAction::Logout,
            TransitionAction::ReadProperty,
            TransitionAction::WriteProperty,
        ]);
        table[i]
    }

    /// Decodes an ordinal; integers outside `[0, ACTION_COUNT)` are refused
    /// with [`Error::InvalidOrdinal`].
    pub fn try_from(v: i32) -> (r: Result<TransitionAction, Error>)
        ensures
            0 <= v < ACTION_COUNT ==> r == Ok::<TransitionAction, Error>(
                TransitionAction::spec_from_ordinal(v as int).unwrap(),
            ),
            !(0 <= v < ACTION_COUNT) ==> r == Err::<TransitionAction, Error>(Error::InvalidOrdinal),
    {
        if 0 <= v && (v as usize) < ACTION_COUNT {
            Ok(TransitionAction::from_ordinal(v as usize))
        } else {
            Err(Error::InvalidOrdinal)
        }
    }
}

/// Decoding a valid ordinal and encoding the action again gives the ordinal
/// back: the mapping is a bijection on `[0, ACTION_COUNT)`.
pub proof fn lemma_ordinal_round_trip(v: int)
    requires
        0 <= v < ACTION_COUNT,
    ensures
        TransitionAction::spec_from_ordinal(v) is Some,
        TransitionAction::spec_from_ordinal(v).unwrap().spec_ordinal() == v,
{
}

/// Encoding an action and decoding the ordinal gives the action back.
pub proof fn lemma_action_round_trip(a: TransitionAction)
    ensures
        0 <= a.spec_ordinal() < ACTION_COUNT,
        TransitionAction::spec_from_ordinal(a.spec_ordinal()) == Some(a),
{
}

/// Every integer outside `[0, ACTION_COUNT)` fails to decode.
pub proof fn lemma_invalid_ordinal(v: int)
    requires
        v < 0 || v >= ACTION_COUNT,
    ensures
        TransitionAction::spec_from_ordinal(v) is None,
{
}

} // verus!
