//! The policy deciding whether the optional propagation subsystem starts.

use vstd::prelude::*;
use crate::config::Configuration;
use crate::subsystems::DataPropagation;

verus! {

/// Whether the test-only propagation subsystem starts: it does exactly
/// when the node runs in test mode and propagation is enabled.
pub open spec fn should_start_propagation_spec(conf: Configuration) -> bool {
    conf.test_mode && conf.data_propagate_enabled
}

/// Decide, from configuration alone, whether the propagation subsystem
/// should be constructed and registered.
pub fn should_start_propagation(conf: &Configuration) -> (r: bool)
    ensures
        r == should_start_propagation_spec(*conf),
{
    conf.is_test_mode() && conf.data_propagate_enabled
}

/// The registrations the network layer holds after a successful assembly:
/// exactly one, with the configured interval and size, when the policy is
/// satisfied, and none otherwise.
pub open spec fn expected_registrations(conf: Configuration) -> Seq<DataPropagation> {
    if should_start_propagation_spec(conf) {
        seq![
            DataPropagation {
                interval_ms: conf.data_propagate_interval_ms,
                size: conf.data_propagate_size,
            },
        ]
    } else {
        Seq::empty()
    }
}

/// For every configuration where the test-mode flag or the propagation flag
/// is false, the propagation subsystem is never constructed: a successful
/// assembly leaves the network layer with no registrations.
pub proof fn lemma_policy_off_no_propagation(conf: Configuration)
    requires
        !conf.test_mode || !conf.data_propagate_enabled,
    ensures
        expected_registrations(conf) == Seq::<DataPropagation>::empty(),
{
}

/// For every configuration where both flags are true, the propagation
/// subsystem is constructed exactly once, with the configured interval and
/// size taken verbatim.
pub proof fn lemma_policy_on_single_registration(conf: Configuration)
    requires
        conf.test_mode,
        conf.data_propagate_enabled,
    ensures
        expected_registrations(conf).len() == 1,
        expected_registrations(conf)[0] == (DataPropagation {
            interval_ms: conf.data_propagate_interval_ms,
            size: conf.data_propagate_size,
        }),
{
}

} // verus!
