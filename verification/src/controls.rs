use vstd::prelude::*;
use crate::error::{Error, Result};
use crate::limits::MAX_CONTROLS;
use crate::types::{Sha256Digest, TimestampUtc, NANOS_PER_SECOND};

verus! {

/// A kind of human or organisational control over an action.
#[derive(Clone, Copy, Debug, PartialEq, Eq, Structural)]
pub enum ControlType {
    HumanReview,
    Approval,
    DualControl,
    PolicyException,
    SupervisorOverride,
    ExternalAudit,
}

/// The number that stands for a control type in transcripts.
pub open spec fn control_type_code(v: ControlType) -> u8 {
    match v {
        ControlType::HumanReview => 0,
        ControlType::Approval => 1,
        ControlType::DualControl => 2,
        ControlType::PolicyException => 3,
        ControlType::SupervisorOverride => 4,
        ControlType::ExternalAudit => 5,
    }
}

impl ControlType {
    /// The number that stands for this value in transcripts.
    pub fn as_u8(self) -> (r: u8)
        ensures
            r == control_type_code(self),
    {
        match self {
            ControlType::HumanReview => 0,
            ControlType::Approval => 1,
            ControlType::DualControl => 2,
            ControlType::PolicyException => 3,
            ControlType::SupervisorOverride => 4,
            ControlType::ExternalAudit => 5,
        }
    }
}

/// The state a control was observed in.
#[derive(Clone, Copy, Debug, PartialEq, Eq, Structural)]
pub enum ControlStatus {
    Present,
    Approved,
    Rejected,
    Expired,
    Invalid,
}

/// The number that stands for a control status in transcripts.
pub open spec fn control_status_code(v: ControlStatus) -> u8 {
    match v {
        ControlStatus::Present => 0,
        ControlStatus::Approved => 1,
        ControlStatus::Rejected => 2,
        ControlStatus::Expired => 3,
        ControlStatus::Invalid => 4,
    }
}

impl ControlStatus {
    /// The number that stands for this value in transcripts.
    pub fn as_u8(self) -> (r: u8)
        ensures
            r == control_status_code(self),
    {
        match self {
            ControlStatus::Present => 0,
            ControlStatus::Approved => 1,
            ControlStatus::Rejected => 2,
            ControlStatus::Expired => 3,
            ControlStatus::Invalid => 4,
        }
    }
}

/// One observation of a control over an action.
#[derive(Clone, Copy, Debug)]
pub struct ControlObservation {
    pub control_type: ControlType,
    pub action_hash: Sha256Digest,
    pub status: ControlStatus,
    pub actor_hash: Sha256Digest,
    pub observed_at: TimestampUtc,
    pub evidence_hash: Option<Sha256Digest>,
}

/// Whether an observation's timestamp is valid.
pub open spec fn observation_ok(o: ControlObservation) -> bool {
    o.observed_at.nanos < NANOS_PER_SECOND
}

impl ControlObservation {
    /// Checks the observation's timestamp.
    pub fn validate(&self) -> (r: Result<()>)
        ensures
            observation_ok(*self) ==> r is Ok,
            !observation_ok(*self) ==> r == Err::<(), Error>(Error::InvalidTimestamp),
    {
        self.observed_at.validate()
    }
}

/// The failure, if any, of a set of observations: more than `MAX_CONTROLS`, or
/// an observation with an invalid timestamp.
pub open spec fn control_set_error(obs: Seq<ControlObservation>) -> Option<Error> {
    if obs.len() > MAX_CONTROLS {
        Some(Error::TooManyControls)
    } else if exists|i: int| 0 <= i < obs.len() && !#[trigger] observation_ok(obs[i]) {
        Some(Error::InvalidTimestamp)
    } else {
        None
    }
}

fn check_controls(observations: &[ControlObservation]) -> (r: Result<()>)
    ensures
        control_set_error(observations@) matches Some(e) ==> r == Err::<(), Error>(e),
        control_set_error(observations@) is None ==> r is Ok,
{
    if observations.len() > MAX_CONTROLS {
        return Err(Error::TooManyControls);
    }
    let mut i: usize = 0;
    while i < observations.len()
        invariant
            i <= observations@.len(),
            observations@.len() <= MAX_CONTROLS,
            forall|j: int| 0 <= j < i ==> #[trigger] observation_ok(observations@[j]),
        decreases observations@.len() - i,
    {
        if observations[i].validate().is_err() {
            assert(!observation_ok(observations@[i as int]));
            return Err(Error::InvalidTimestamp);
        }
        i = i + 1;
    }
    Ok(())
}

/// A checked set of control observations.
#[derive(Clone, Copy, Debug)]
pub struct ControlSet<'a> {
    observations: &'a [ControlObservation],
}

impl<'a> View for ControlSet<'a> {
    type V = Seq<ControlObservation>;

    closed spec fn view(&self) -> Seq<ControlObservation> {
        self.observations@
    }
}

impl<'a> ControlSet<'a> {
    #[verifier::type_invariant]
    closed spec fn inv(self) -> bool {
        control_set_error(self.observations@) is None
    }

    /// A set of the given observations, which must pass `validate`.
    pub fn new(observations: &'a [ControlObservation]) -> (r: Result<Self>)
        ensures
            control_set_error(observations@) matches Some(e) ==> r == Err::<Self, Error>(e),
            control_set_error(observations@) is None ==> (r matches Ok(s) && s@ == observations@),
    {
        check_controls(observations)?;
        Ok(ControlSet { observations })
    }

    /// Checks that there are at most `MAX_CONTROLS` observations, each with a
    /// valid timestamp; a set built by `new` always passes.
    pub fn validate(&self) -> (r: Result<()>)
        ensures
            r is Ok,
            control_set_error(self@) is None,
    {
        proof {
            use_type_invariant(self);
        }
        check_controls(self.observations)
    }

    /// The observations.
    pub fn as_slice(&self) -> (r: &'a [ControlObservation])
        ensures
            r@ == self@,
    {
        self.observations
    }
}

} // verus!
