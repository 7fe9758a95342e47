//! The outer loop, modelled: the caller invokes `step` unconditionally until
//! it returns an error, so whether the loop goes on is decided by
//! `config_error` alone (`step` errs exactly when it is `Some`). These
//! definitions state how many calls such a loop makes over a sequence of
//! per-call configurations, and which error ends it.

use crate::config::{Config, StepError, config_error};
use vstd::prelude::*;

verus! {

/// How many `step` calls an unconditional loop makes when the i-th call sees
/// configuration `cs[i]`: it stops after the first invalid configuration, or
/// runs through all of them.
pub open spec fn steps_until_error(cs: Seq<Config>) -> int
    decreases cs.len(),
{
    if cs.len() == 0 {
        0
    } else if config_error(cs[0]) is Some {
        1
    } else {
        1 + steps_until_error(cs.drop_first())
    }
}

/// The error that ends such a loop: the first invalid configuration's error,
/// or none if every configuration in the sequence is valid.
pub open spec fn loop_result(cs: Seq<Config>) -> Option<StepError>
    decreases cs.len(),
{
    if cs.len() == 0 {
        None
    } else if config_error(cs[0]) is Some {
        config_error(cs[0])
    } else {
        loop_result(cs.drop_first())
    }
}

/// Loop-termination law: if the configurations before position `n` are all
/// valid and the one at `n` is invalid, the loop makes exactly `n + 1` calls
/// to `step` and returns that configuration's error.
pub proof fn lemma_loop_termination(cs: Seq<Config>, n: int)
    requires
        0 <= n < cs.len(),
        forall|i: int| 0 <= i < n ==> config_error(cs[i]) is None,
        config_error(cs[n]) is Some,
    ensures
        steps_until_error(cs) == n + 1,
        loop_result(cs) == config_error(cs[n]),
    decreases n,
{
    if n > 0 {
        assert forall|i: int| 0 <= i < n - 1 implies config_error(cs.drop_first()[i]) is None by {
            assert(cs.drop_first()[i] == cs[i + 1]);
        }
        assert(cs.drop_first()[n - 1] == cs[n]);
        lemma_loop_termination(cs.drop_first(), n - 1);
    }
}

} // verus!
