//! Dead-zone classifier from a tilt angle to the three indicator flags.

use vstd::prelude::*;

verus! {

/// The two states of one binary indicator output.
#[derive(Clone, Copy, Debug, PartialEq, Eq, Structural)]
pub enum ActivationFlag {
    Active,
    Inactive,
}

/// What `consolidate_lights` returns for a tilt angle and a dead-zone
/// limit: left active below `-limit`, right active above `limit`, and
/// center active inside the dead-zone, both endpoints included.
pub open spec fn classified(tilt: int, limit: int) -> (
    ActivationFlag,
    ActivationFlag,
    ActivationFlag,
) {
    if tilt < -limit {
        (ActivationFlag::Active, ActivationFlag::Inactive, ActivationFlag::Inactive)
    } else if tilt > limit {
        (ActivationFlag::Inactive, ActivationFlag::Inactive, ActivationFlag::Active)
    } else {
        (ActivationFlag::Inactive, ActivationFlag::Active, ActivationFlag::Inactive)
    }
}

/// Exactly one of the three flags is active.
pub open spec fn exactly_one_active(flags: (ActivationFlag, ActivationFlag, ActivationFlag)) -> bool {
    ||| flags == (ActivationFlag::Active, ActivationFlag::Inactive, ActivationFlag::Inactive)
    ||| flags == (ActivationFlag::Inactive, ActivationFlag::Active, ActivationFlag::Inactive)
    ||| flags == (ActivationFlag::Inactive, ActivationFlag::Inactive, ActivationFlag::Active)
}

/// Chooses which of the three indicators (left, center, right) is
/// active for the tilt angle `tilt` under the symmetric dead-zone
/// `[-limit, limit]`.
pub fn consolidate_lights(tilt: i32, limit: i32) -> (flags: (
    ActivationFlag,
    ActivationFlag,
    ActivationFlag,
))
    requires
        limit >= 0,
    ensures
        flags == classified(tilt as int, limit as int),
{
    if tilt < -limit {
        (ActivationFlag::Active, ActivationFlag::Inactive, ActivationFlag::Inactive)
    } else if tilt > limit {
        (ActivationFlag::Inactive, ActivationFlag::Inactive, ActivationFlag::Active)
    } else {
        (ActivationFlag::Inactive, ActivationFlag::Active, ActivationFlag::Inactive)
    }
}

/// For every tilt angle and non-negative limit, exactly one of the
/// three indicator flags is active: the three classifier branches are
/// mutually exclusive and exhaustive.
pub proof fn lemma_exactly_one_active(tilt: int, limit: int)
    requires
        limit >= 0,
    ensures
        exactly_one_active(classified(tilt, limit)),
{
}

/// The dead-zone includes both of its endpoints: at `tilt == limit` and
/// at `tilt == -limit` the center indicator is the active one.
pub proof fn lemma_dead_zone_inclusive(limit: int)
    requires
        limit >= 0,
    ensures
        classified(limit, limit) == (
            ActivationFlag::Inactive,
            ActivationFlag::Active,
            ActivationFlag::Inactive,
        ),
        classified(-limit, limit) == (
            ActivationFlag::Inactive,
            ActivationFlag::Active,
            ActivationFlag::Inactive,
        ),
{
}

/// For a fixed limit the classifier is monotone in the tilt angle:
/// every angle below `-limit` activates the left indicator, every angle
/// above `limit` the right one, and everything between, endpoints
/// included, the center one.
pub proof fn lemma_threshold_bands(tilt: int, limit: int)
    requires
        limit >= 0,
    ensures
        tilt < -limit ==> classified(tilt, limit) == (
            ActivationFlag::Active,
            ActivationFlag::Inactive,
            ActivationFlag::Inactive,
        ),
        tilt > limit ==> classified(tilt, limit) == (
            ActivationFlag::Inactive,
            ActivationFlag::Inactive,
            ActivationFlag::Active,
        ),
        -limit <= tilt <= limit ==> classified(tilt, limit) == (
            ActivationFlag::Inactive,
            ActivationFlag::Active,
            ActivationFlag::Inactive,
        ),
{
}

} // verus!
