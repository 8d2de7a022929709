use jiff::Timestamp as Instant;
use vstd::prelude::*;

verus! {

#[verifier::external_type_specification]
#[verifier::external_body]
pub struct ExInstant(Instant);

/// Relies on jiff's `Timestamp::now`: the system clock read at the call. Nothing
/// is promised of the instant. It panics only when the system clock lies outside
/// the years -9999 to 9999.
pub assume_specification[ Instant::now ]() -> Instant;

/// The instant at which an event was captured.
#[derive(Debug)]
pub struct Timestamp(pub Instant);

impl Timestamp {
    /// The instant of the call, read from the system clock.
    pub fn now() -> (r: Self) {
        Timestamp(Instant::now())
    }

    /// The instant held.
    pub fn instant(&self) -> (r: Instant)
        ensures
            r == self.0,
    {
        self.0
    }
}

impl From<Instant> for Timestamp {
    fn from(t: Instant) -> (r: Self)
        ensures
            r.0 == t,
    {
        Timestamp(t)
    }
}

impl vstd::std_specs::convert::FromSpecImpl<Instant> for Timestamp {
    open spec fn obeys_from_spec() -> bool {
        true
    }

    open spec fn from_spec(t: Instant) -> Timestamp {
        Timestamp(t)
    }
}

} // verus!
