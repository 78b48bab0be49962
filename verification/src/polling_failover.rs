//! Turning polling events into retry state and server failover.
//!
//! The orchestrator does not run a worker: the caller owns the worker and
//! feeds its events here, which keeps the failover policy deterministic.
use vstd::prelude::*;

use crate::failover::{
    FailoverCoordinator, FailoverModel, advanced, after_failure, expire, pick_from, picked,
    position_of,
};
use crate::health::HealthStatus;
use crate::polling::PollEvent;
use crate::recovery::{RecoveryDecision, RetryPolicy, backoff_nanos, min_nat};
use crate::servers::ServerProfile;
use crate::time::{Instant, max_duration_nanos};

verus! {

/// The change caused by handling one polling event.
#[derive(Debug)]
pub enum PollingTransition<R, E> {
    /// A measurement succeeded; retry and failure state of the server were reset.
    Success { profile: ServerProfile, result: R, health: HealthStatus, consecutive_failures: u32 },
    /// The failed server rests and another eligible server was selected.
    Failover {
        failed_profile: ServerProfile,
        next_profile: ServerProfile,
        error: E,
        decision: RecoveryDecision,
    },
    /// Every candidate rests; the caller should wait and ask
    /// [`PollingOrchestrator::next_server`] again.
    Exhausted { failed_profile: ServerProfile, error: E, decision: RecoveryDecision },
}

impl<R, E> PollingTransition<R, E> {
    /// The profile selected by this transition, if one was.
    pub fn next_profile(&self) -> (p: Option<&ServerProfile>)
        ensures
            match self {
                PollingTransition::Failover { next_profile, .. } => p == Some(next_profile),
                _ => p is None,
            },
    {
        match self {
            PollingTransition::Failover { next_profile, .. } => Some(next_profile),
            _ => None,
        }
    }

    /// The retry decision of this transition.
    pub fn retry_decision(&self) -> (d: Option<RecoveryDecision>)
        ensures
            d == Some(
                match self {
                    PollingTransition::Success { consecutive_failures, .. } =>
                        RecoveryDecision::Success { consecutive_failures: *consecutive_failures },
                    PollingTransition::Failover { decision, .. } => *decision,
                    PollingTransition::Exhausted { decision, .. } => *decision,
                },
            ),
    {
        match self {
            PollingTransition::Success { consecutive_failures, .. } => Some(
                RecoveryDecision::Success { consecutive_failures: *consecutive_failures },
            ),
            PollingTransition::Failover { decision, .. } => Some(*decision),
            PollingTransition::Exhausted { decision, .. } => Some(*decision),
        }
    }
}

/// `decision` is the retry decision after `failures` consecutive failures
/// under `policy`.
pub open spec fn is_retry(decision: RecoveryDecision, policy: crate::recovery::RetryModel, failures: nat) -> bool {
    decision matches RecoveryDecision::Retry { delay, consecutive_failures }
        && consecutive_failures == failures && delay@ == backoff_nanos(
        policy.initial_delay,
        policy.max_delay,
        failures,
    )
}

/// The orchestrator state `o` started from the coordinator `c` at `now`:
/// the coordinator has selected once, and its pick, if any, is current.
pub open spec fn started_from(o: PollingOrchestrator, c: FailoverModel, now: nat) -> bool {
    &&& o.spec_coordinator().model() == advanced(c, now)
    &&& match picked(c, now) {
        Some(k) => o.spec_current() matches Some(p) && p@ == c.candidates[k]@,
        None => o.spec_current() is None,
    }
}

/// Consumes [`PollEvent`] values and coordinates retry state with failover.
#[derive(Debug)]
pub struct PollingOrchestrator {
    coordinator: FailoverCoordinator,
    retry_policy: RetryPolicy,
    current_profile: Option<ServerProfile>,
}

impl PollingOrchestrator {
    pub closed spec fn spec_coordinator(&self) -> FailoverCoordinator {
        self.coordinator
    }

    pub closed spec fn spec_retry_policy(&self) -> RetryPolicy {
        self.retry_policy
    }

    pub closed spec fn spec_current(&self) -> Option<ServerProfile> {
        self.current_profile
    }

    /// An orchestrator whose current server is the coordinator's first
    /// candidate at `now`.
    pub fn new(coordinator: FailoverCoordinator, retry_policy: RetryPolicy, now: Instant) -> (o:
        PollingOrchestrator)
        ensures
            o.spec_retry_policy() == retry_policy,
            started_from(o, coordinator.model(), now@),
    {
        let mut coordinator = coordinator;
        let current_profile = match coordinator.next_candidate(now) {
            Some(p) => Some(p.clone()),
            None => None,
        };
        PollingOrchestrator { coordinator, retry_policy, current_profile }
    }

    /// An orchestrator with the default retry policy.
    pub fn with_coordinator(coordinator: FailoverCoordinator, now: Instant) -> (o:
        PollingOrchestrator)
        ensures
            o.spec_retry_policy()@.consecutive_failures == 0,
            o.spec_retry_policy()@.initial_delay == 1_000_000_000,
            o.spec_retry_policy()@.max_delay == 60_000_000_000,
            started_from(o, coordinator.model(), now@),
    {
        PollingOrchestrator::new(coordinator, RetryPolicy::default(), now)
    }

    /// The server whose worker should be running, if any.
    pub fn current_profile(&self) -> (p: Option<&ServerProfile>)
        ensures
            match self.spec_current() {
                Some(c) => p == Some(&c),
                None => p is None,
            },
    {
        match &self.current_profile {
            Some(p) => Some(p),
            None => None,
        }
    }

    /// Selects the next eligible server after an exhausted pass.
    pub fn next_server(&mut self, now: Instant) -> (r: Option<ServerProfile>)
        ensures
            ({
                let m = old(self).spec_coordinator().model();
                let states = expire(m.states, now@);
                &&& final(self).spec_retry_policy() == old(self).spec_retry_policy()
                &&& final(self).spec_coordinator().model().states == states
                &&& final(self).spec_coordinator().model().candidates == m.candidates
                &&& match pick_from(states, m.next_index as int, 0) {
                    Some(k) => {
                        &&& (r matches Some(p) && p@ == m.candidates[k]@)
                        &&& (final(self).spec_current() matches Some(c) && c@ == m.candidates[k]@)
                    },
                    None => r is None && final(self).spec_current() is None,
                }
            }),
    {
        let profile = match self.coordinator.next_candidate(now) {
            Some(p) => Some(p.clone()),
            None => None,
        };
        self.current_profile = match &profile {
            Some(p) => Some(p.clone()),
            None => None,
        };
        profile
    }

    pub fn retry_policy(&self) -> (p: RetryPolicy)
        ensures
            p == self.spec_retry_policy(),
    {
        self.retry_policy
    }

    pub fn coordinator(&self) -> (c: &FailoverCoordinator)
        ensures
            *c == self.spec_coordinator(),
    {
        &self.coordinator
    }

    /// Applies one worker event. A success resets the retry policy and the
    /// server's failure state, and keeps the server current. A failure
    /// advances the retry policy, rests the server, and selects the next
    /// eligible server, or reports that every candidate rests.
    pub fn handle_event<R, E>(&mut self, event: PollEvent<R, E>, now: Instant) -> (t:
        PollingTransition<R, E>)
        requires
            now@ + old(self).spec_coordinator().model().cooldown <= max_duration_nanos(),
        ensures
            ({
                let m = old(self).spec_coordinator().model();
                let policy = old(self).spec_retry_policy()@;
                match event {
                    PollEvent::Success { profile, health, .. } => {
                        &&& final(self).spec_retry_policy()@.consecutive_failures == 0
                        &&& (final(self).spec_current() matches Some(c) && c@ == profile@)
                        &&& t matches PollingTransition::Success {
                            profile: p,
                            health: h,
                            consecutive_failures,
                            ..
                        } && p@ == profile@ && h == health && consecutive_failures == 0
                        &&& match position_of(m.candidates, profile) {
                            None => final(self).spec_coordinator().model() == m,
                            Some(k) => final(self).spec_coordinator().model() == (FailoverModel {
                                states: m.states.update(k, (0nat, None::<nat>)),
                                next_index: k as nat,
                                ..m
                            }),
                        }
                    },
                    PollEvent::Error { profile, .. } => {
                        let failures = min_nat(policy.consecutive_failures + 1, u32::MAX as nat);
                        let m1 = after_failure(m, profile, now@);
                        &&& final(self).spec_retry_policy()@.consecutive_failures == failures
                        &&& final(self).spec_coordinator().model() == advanced(m1, now@)
                        &&& match picked(m1, now@) {
                            Some(k) => t matches PollingTransition::Failover {
                                failed_profile,
                                next_profile,
                                decision,
                                ..
                            } && failed_profile@ == profile@ && is_retry(decision, policy, failures)
                                && next_profile@ == m.candidates[k]@
                                && (final(self).spec_current() matches Some(c) && c@
                                == m.candidates[k]@),
                            None => t matches PollingTransition::Exhausted {
                                failed_profile,
                                decision,
                                ..
                            } && failed_profile@ == profile@ && is_retry(decision, policy, failures)
                                && final(self).spec_current() is None,
                        }
                    },
                }
            }),
    {
        match event {
            PollEvent::Success { profile, result, health, .. } => {
                let decision = self.retry_policy.on_success();
                self.coordinator.record_success(&profile);
                self.current_profile = Some(profile.clone());
                assert(self.retry_policy@.consecutive_failures == 0);
                PollingTransition::Success {
                    profile,
                    result,
                    health,
                    consecutive_failures: decision.consecutive_failures(),
                }
            },
            PollEvent::Error { profile, error, .. } => {
                let decision = self.retry_policy.on_failure();
                self.coordinator.record_failure(&profile, now);
                let ghost m1 = self.coordinator.model();
                let next = match self.coordinator.next_candidate(now) {
                    Some(p) => Some(p.clone()),
                    None => None,
                };
                match next {
                    Some(next_profile) => {
                        proof {
                            let states = expire(m1.states, now@);
                            let k = pick_from(states, m1.next_index as int, 0)->0;
                            let c = old(self).spec_coordinator().model().candidates;
                            assert(next_profile@ == c[k]@);
                        }
                        self.current_profile = Some(next_profile.clone());
                        PollingTransition::Failover {
                            failed_profile: profile,
                            next_profile,
                            error,
                            decision,
                        }
                    },
                    None => {
                        self.current_profile = None;
                        PollingTransition::Exhausted { failed_profile: profile, error, decision }
                    },
                }
            },
        }
    }
}

} // verus!
