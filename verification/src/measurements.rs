//! The snapshot that the driver produces per flush, and the record that
//! carries its six fields across the policy boundary.

use vstd::prelude::*;

verus! {

/// One flushed snapshot of a flow's accumulated events.
#[derive(Clone, Copy, Debug, PartialEq, Eq, Structural)]
pub struct GenericCongAvoidMeasurements {
    pub acked: u32,
    pub was_timeout: bool,
    pub sacked: u32,
    pub loss: u32,
    pub rtt: u32,
    pub inflight: u32,
}

/// The record handed to a policy that lives on the far side of the adapter
/// boundary: six fields, in this order and with these widths.
#[derive(Clone, Copy, Debug, PartialEq, Eq, Structural)]
pub struct Measurements {
    pub acked: u32,
    pub was_timeout: bool,
    pub sacked: u32,
    pub loss: u32,
    pub rtt: u32,
    pub inflight: u32,
}

impl Measurements {
    /// The record that carries the fields of `m`.
    pub open spec fn spec_from_snapshot(m: GenericCongAvoidMeasurements) -> Measurements {
        Measurements {
            acked: m.acked,
            was_timeout: m.was_timeout,
            sacked: m.sacked,
            loss: m.loss,
            rtt: m.rtt,
            inflight: m.inflight,
        }
    }

    /// The snapshot that this record carries.
    pub open spec fn spec_to_snapshot(self) -> GenericCongAvoidMeasurements {
        GenericCongAvoidMeasurements {
            acked: self.acked,
            was_timeout: self.was_timeout,
            sacked: self.sacked,
            loss: self.loss,
            rtt: self.rtt,
            inflight: self.inflight,
        }
    }

    /// Packs a snapshot into the record for the policy boundary.
    pub fn from_snapshot(m: &GenericCongAvoidMeasurements) -> (r: Measurements)
        ensures
            r == Self::spec_from_snapshot(*m),
            r.spec_to_snapshot() == *m,
    {
        Measurements {
            acked: m.acked,
            was_timeout: m.was_timeout,
            sacked: m.sacked,
            loss: m.loss,
            rtt: m.rtt,
            inflight: m.inflight,
        }
    }

    /// Unpacks the record on the far side of the boundary.
    pub fn to_snapshot(&self) -> (m: GenericCongAvoidMeasurements)
        ensures
            m == self.spec_to_snapshot(),
            Self::spec_from_snapshot(m) == *self,
    {
        GenericCongAvoidMeasurements {
            acked: self.acked,
            was_timeout: self.was_timeout,
            sacked: self.sacked,
            loss: self.loss,
            rtt: self.rtt,
            inflight: self.inflight,
        }
    }
}

/// Crossing the policy boundary and coming back changes nothing: each of
/// the six fields of a snapshot arrives with its own value, and so does each
/// field of a record that is unpacked and packed again.
pub proof fn lemma_boundary_round_trip(m: GenericCongAvoidMeasurements, r: Measurements)
    ensures
        Measurements::spec_from_snapshot(m).spec_to_snapshot() == m,
        Measurements::spec_from_snapshot(r.spec_to_snapshot()) == r,
        Measurements::spec_from_snapshot(m).acked == m.acked,
        Measurements::spec_from_snapshot(m).was_timeout == m.was_timeout,
        Measurements::spec_from_snapshot(m).sacked == m.sacked,
        Measurements::spec_from_snapshot(m).loss == m.loss,
        Measurements::spec_from_snapshot(m).rtt == m.rtt,
        Measurements::spec_from_snapshot(m).inflight == m.inflight,
{
}

} // verus!
