use vstd::prelude::*;

verus! {

/// The stages a receipt passes through.
#[derive(Clone, Copy, Debug, PartialEq, Eq, Structural)]
pub enum LifecycleState {
    Draft,
    Observed,
    Validated,
    Attested,
    Sealed,
    Superseded,
    Revoked,
    Expired,
    Renewed,
}

/// The wire code of a lifecycle state.
pub open spec fn lifecycle_code(s: LifecycleState) -> u8 {
    match s {
        LifecycleState::Draft => 1,
        LifecycleState::Observed => 2,
        LifecycleState::Validated => 3,
        LifecycleState::Attested => 4,
        LifecycleState::Sealed => 5,
        LifecycleState::Superseded => 6,
        LifecycleState::Revoked => 7,
        LifecycleState::Expired => 8,
        LifecycleState::Renewed => 9,
    }
}

/// The lifecycle state with wire code `v`, if any.
pub open spec fn lifecycle_from_code(v: u8) -> Option<LifecycleState> {
    if v == 1 {
        Some(LifecycleState::Draft)
    } else if v == 2 {
        Some(LifecycleState::Observed)
    } else if v == 3 {
        Some(LifecycleState::Validated)
    } else if v == 4 {
        Some(LifecycleState::Attested)
    } else if v == 5 {
        Some(LifecycleState::Sealed)
    } else if v == 6 {
        Some(LifecycleState::Superseded)
    } else if v == 7 {
        Some(LifecycleState::Revoked)
    } else if v == 8 {
        Some(LifecycleState::Expired)
    } else if v == 9 {
        Some(LifecycleState::Renewed)
    } else {
        None
    }
}

/// The moves the lifecycle allows besides staying put.
pub open spec fn lifecycle_step(from: LifecycleState, to: LifecycleState) -> bool {
    ||| from == LifecycleState::Draft && to == LifecycleState::Observed
    ||| from == LifecycleState::Observed && to == LifecycleState::Validated
    ||| from == LifecycleState::Validated && to == LifecycleState::Attested
    ||| from == LifecycleState::Validated && to == LifecycleState::Sealed
    ||| from == LifecycleState::Attested && to == LifecycleState::Sealed
    ||| from == LifecycleState::Sealed && to == LifecycleState::Superseded
    ||| from == LifecycleState::Sealed && to == LifecycleState::Revoked
    ||| from == LifecycleState::Sealed && to == LifecycleState::Expired
    ||| from == LifecycleState::Expired && to == LifecycleState::Renewed
    ||| from == LifecycleState::Renewed && to == LifecycleState::Sealed
}

impl LifecycleState {
    /// The state with wire code `value`.
    pub fn from_u8(value: u8) -> (r: Option<Self>)
        ensures
            r == lifecycle_from_code(value),
    {
        match value {
            1u8 => Some(LifecycleState::Draft),
            2u8 => Some(LifecycleState::Observed),
            3u8 => Some(LifecycleState::Validated),
            4u8 => Some(LifecycleState::Attested),
            5u8 => Some(LifecycleState::Sealed),
            6u8 => Some(LifecycleState::Superseded),
            7u8 => Some(LifecycleState::Revoked),
            8u8 => Some(LifecycleState::Expired),
            9u8 => Some(LifecycleState::Renewed),
            _ => None,
        }
    }

    /// The wire code of the state.
    pub fn as_u8(self) -> (r: u8)
        ensures
            r == lifecycle_code(self),
    {
        match self {
            LifecycleState::Draft => 1,
            LifecycleState::Observed => 2,
            LifecycleState::Validated => 3,
            LifecycleState::Attested => 4,
            LifecycleState::Sealed => 5,
            LifecycleState::Superseded => 6,
            LifecycleState::Revoked => 7,
            LifecycleState::Expired => 8,
            LifecycleState::Renewed => 9,
        }
    }
}

/// Whether a receipt may move from `from` to `to`: staying put, or one of the
/// steps of the lifecycle.
pub fn is_valid_transition(from: LifecycleState, to: LifecycleState) -> (r: bool)
    ensures
        r == (from == to || lifecycle_step(from, to)),
{
    match (from, to) {
        (LifecycleState::Draft, LifecycleState::Observed)
        | (LifecycleState::Observed, LifecycleState::Validated)
        | (LifecycleState::Validated, LifecycleState::Attested)
        | (LifecycleState::Validated, LifecycleState::Sealed)
        | (LifecycleState::Attested, LifecycleState::Sealed)
        | (LifecycleState::Sealed, LifecycleState::Superseded)
        | (LifecycleState::Sealed, LifecycleState::Revoked)
        | (LifecycleState::Sealed, LifecycleState::Expired)
        | (LifecycleState::Expired, LifecycleState::Renewed)
        | (LifecycleState::Renewed, LifecycleState::Sealed) => true,
        _ => from == to,
    }
}

/// Every wire code the kernel writes reads back as the same state.
pub proof fn lemma_lifecycle_code_roundtrip(s: LifecycleState)
    ensures
        lifecycle_from_code(lifecycle_code(s)) == Some(s),
{
}

/// A state reached from `Draft` can never return to `Draft`: no step of the
/// lifecycle leads into `Draft`.
pub proof fn lemma_no_step_into_draft(from: LifecycleState)
    ensures
        !lifecycle_step(from, LifecycleState::Draft),
{
}

/// Revoked and superseded receipts are final: no step leaves them.
pub proof fn lemma_revoked_and_superseded_are_final(to: LifecycleState)
    ensures
        !lifecycle_step(LifecycleState::Revoked, to),
        !lifecycle_step(LifecycleState::Superseded, to),
{
}

/// Whether each state of `p` may move to the next one.
pub open spec fn lifecycle_path(p: Seq<LifecycleState>) -> bool {
    forall|i: int| 0 <= i < p.len() - 1 ==> (#[trigger] p[i] == p[i + 1] || lifecycle_step(p[i], p[i + 1]))
}

/// A sealed receipt may stay sealed, or be superseded, revoked or expired, and
/// nothing else.
pub proof fn law_sealed_receipt_moves(to: LifecycleState)
    ensures
        (LifecycleState::Sealed == to || lifecycle_step(LifecycleState::Sealed, to)) <==> (to == LifecycleState::Sealed
            || to == LifecycleState::Superseded || to == LifecycleState::Revoked || to == LifecycleState::Expired),
{
}

/// Only a sealed receipt can be superseded, revoked or expired: every other
/// state reaches those outcomes only through sealing.
pub proof fn law_outcomes_follow_sealing(from: LifecycleState, to: LifecycleState)
    requires
        to == LifecycleState::Superseded || to == LifecycleState::Revoked || to == LifecycleState::Expired,
        from != to,
    ensures
        lifecycle_step(from, to) <==> from == LifecycleState::Sealed,
{
}

/// Revocation can be reached from every state but a superseded one: there is a
/// chain of allowed transitions from the state to `Revoked`.
pub proof fn law_revocation_reachable(s: LifecycleState)
    requires
        s != LifecycleState::Superseded,
    ensures
        exists|p: Seq<LifecycleState>| p.len() >= 1 && p[0] == s && p.last() == LifecycleState::Revoked && #[trigger] lifecycle_path(p),
{
    let p: Seq<LifecycleState> = match s {
        LifecycleState::Draft => seq![LifecycleState::Draft, LifecycleState::Observed, LifecycleState::Validated, LifecycleState::Sealed, LifecycleState::Revoked],
        LifecycleState::Observed => seq![LifecycleState::Observed, LifecycleState::Validated, LifecycleState::Sealed, LifecycleState::Revoked],
        LifecycleState::Validated => seq![LifecycleState::Validated, LifecycleState::Sealed, LifecycleState::Revoked],
        LifecycleState::Attested => seq![LifecycleState::Attested, LifecycleState::Sealed, LifecycleState::Revoked],
        LifecycleState::Sealed => seq![LifecycleState::Sealed, LifecycleState::Revoked],
        LifecycleState::Expired => seq![LifecycleState::Expired, LifecycleState::Renewed, LifecycleState::Sealed, LifecycleState::Revoked],
        LifecycleState::Renewed => seq![LifecycleState::Renewed, LifecycleState::Sealed, LifecycleState::Revoked],
        _ => seq![LifecycleState::Revoked],
    };
    assert(lifecycle_path(p));
}

} // verus!
