//! The host entity: one host's state machine, its per-state contexts and its
//! last-update bookkeeping.
//!
//! Every operation that involves the host's executor or package manager is
//! split in two: a `begin_*` step that checks the current state and enters
//! the busy state, and a `finish_*` step that takes the outcome of the
//! outside work and decides the next state. The caller performs the outside
//! work between the two steps and serialises all steps of one host. Events
//! are appended to a log that the caller publishes.

use vstd::prelude::*;
use crate::config::HostConfig;
use crate::error::{CoreError, ExecError, PackageError, exec_error_text, package_error_text};
use crate::events::HostEvent;
use crate::exec::CommandResult;
use crate::message::{HealthCheckResult, HostStatus, InventoryResult, UpdateResult};
use crate::pkg::{UpgradablePackage, UpdateResult as PackageUpdateResult};
use crate::state::{
    FailedStateContext,
    HostState,
    PendingUpdatesContext,
    Timestamp,
    busy,
    transition_allowed,
};
use crate::text::{trim, trimmed};

verus! {

/// The event announcing a state change.
pub open spec fn changed(from: HostState, to: HostState) -> HostEvent {
    HostEvent::StateChanged { from, to }
}

/// Whether the event log `evs` leads from `s0` to `s1`: each state change is
/// a permitted transition announced by exactly one `StateChanged` event whose
/// `from` is the state at that point, and other events leave the state alone.
pub open spec fn chain(s0: HostState, evs: Seq<HostEvent>, s1: HostState) -> bool
    decreases evs.len(),
{
    if evs.len() == 0 {
        s0 == s1
    } else {
        match evs[0] {
            HostEvent::StateChanged { from, to } => from == s0 && transition_allowed(from, to)
                && chain(to, evs.drop_first(), s1),
            _ => chain(s0, evs.drop_first(), s1),
        }
    }
}

/// The events appended to a log that held `before`.
pub open spec fn emitted(before: Seq<HostEvent>, after: Seq<HostEvent>) -> Seq<HostEvent> {
    after.skip(before.len() as int)
}

/// The error returned when a request does not fit the current state: a
/// failed host reports its failure, any other host an invalid transition.
pub open spec fn refusal(
    s: HostState,
    failure: Option<FailedStateContext>,
    to: HostState,
) -> CoreError {
    if s == HostState::Failed && failure is Some {
        CoreError::HostFailed(failure->0.error)
    } else {
        CoreError::InvalidTransition { from: s, to }
    }
}

/// Whether `names` lists the names of `pkgs`, in order.
pub open spec fn names_of(pkgs: Seq<UpgradablePackage>, names: Seq<String>) -> bool {
    names.len() == pkgs.len() && forall|i: int| 0 <= i < pkgs.len() ==> names[i] == pkgs[i].name
}

/// Whether a failure record is fresh for a failure in state `s` at `now`
/// with message `text`.
pub open spec fn fresh_failure(
    f: Option<FailedStateContext>,
    s: HostState,
    text: Seq<char>,
    now: Timestamp,
) -> bool {
    &&& f is Some
    &&& f->0.previous_state == s
    &&& f->0.error@ == text
    &&& f->0.failed_at == now
    &&& f->0.retry_count == 0
    &&& !f->0.acknowledged
}

/// `t` lies strictly after `prev` (anything lies after no time at all).
pub open spec fn after(t: Timestamp, prev: Option<Timestamp>) -> bool {
    prev is None || prev->0.millis < t.millis
}

/// State machine of one managed host.
pub struct HostActor {
    config: HostConfig,
    state: HostState,
    pending_context: Option<PendingUpdatesContext>,
    failed_context: Option<FailedStateContext>,
    last_updated: Option<Timestamp>,
}

/// Everything but the state is the same in `a` and `b`.
pub open spec fn same_except_state(a: HostActor, b: HostActor) -> bool {
    &&& a.pending() == b.pending()
    &&& a.failure() == b.failure()
    &&& a.updated_at() == b.updated_at()
    &&& a.host_config() == b.host_config()
}

proof fn lemma_emitted(before: Seq<HostEvent>, added: Seq<HostEvent>)
    ensures
        emitted(before, before + added) == added,
{
    assert((before + added).skip(before.len() as int) =~= added);
}

proof fn lemma_chain_one(s0: HostState, s1: HostState)
    requires
        transition_allowed(s0, s1),
    ensures
        chain(s0, seq![changed(s0, s1)], s1),
{
    reveal_with_fuel(chain, 2);
    assert(seq![changed(s0, s1)].drop_first() =~= Seq::<HostEvent>::empty());
}

proof fn lemma_chain_after_other(s0: HostState, e: HostEvent, s1: HostState)
    requires
        !(e is StateChanged),
        transition_allowed(s0, s1),
    ensures
        chain(s0, seq![e, changed(s0, s1)], s1),
{
    reveal_with_fuel(chain, 3);
    assert(seq![e, changed(s0, s1)].drop_first() =~= seq![changed(s0, s1)]);
    lemma_chain_one(s0, s1);
}

/// A copy of a list of strings.
pub fn copy_strings(v: &Vec<String>) -> (r: Vec<String>)
    ensures
        r@ == v@,
{
    let mut out: Vec<String> = Vec::new();
    let mut i: usize = 0;
    while i < v.len()
        invariant
            i <= v@.len(),
            out@ == v@.subrange(0, i as int),
        decreases v@.len() - i,
    {
        out.push(v[i].clone());
        i = i + 1;
        proof {
            assert(out@ =~= v@.subrange(0, i as int));
        }
    }
    proof {
        assert(out@ =~= v@);
    }
    out
}

/// The names of a list of packages, in order.
fn package_names(pkgs: &Vec<UpgradablePackage>) -> (r: Vec<String>)
    ensures
        names_of(pkgs@, r@),
{
    let mut out: Vec<String> = Vec::new();
    let mut i: usize = 0;
    while i < pkgs.len()
        invariant
            i <= pkgs@.len(),
            out@.len() == i,
            forall|j: int| 0 <= j < i ==> out@[j] == pkgs@[j].name,
        decreases pkgs@.len() - i,
    {
        out.push(pkgs[i].name.clone());
        i = i + 1;
    }
    out
}

impl HostActor {
    /// Current state.
    pub closed spec fn current(&self) -> HostState {
        self.state
    }

    /// Context kept while updates are pending.
    pub closed spec fn pending(&self) -> Option<PendingUpdatesContext> {
        self.pending_context
    }

    /// Context kept while failed.
    pub closed spec fn failure(&self) -> Option<FailedStateContext> {
        self.failed_context
    }

    /// Time of the last successful update.
    pub closed spec fn updated_at(&self) -> Option<Timestamp> {
        self.last_updated
    }

    /// The host's settings.
    pub closed spec fn host_config(&self) -> HostConfig {
        self.config
    }

    /// A context exists exactly while the host is in its state, and a
    /// pending context counts its packages.
    pub closed spec fn wf(&self) -> bool {
        &&& (self.pending_context is Some <==> self.state == HostState::PendingUpdates)
        &&& (self.failed_context is Some <==> self.state == HostState::Failed)
        &&& (self.pending_context is Some ==> {
            let p = self.pending_context->0;
            p.package_count as int == p.packages@.len() && p.package_count > 0
        })
        &&& (self.failed_context is Some ==> self.failed_context->0.retry_count < u32::MAX)
    }

    /// The host after an acknowledgement: a failed host's failure is marked
    /// acknowledged; any other host is unchanged.
    pub closed spec fn acked(self) -> HostActor {
        if self.state == HostState::Failed && self.failed_context is Some {
            HostActor {
                failed_context: Some(
                    FailedStateContext { acknowledged: true, ..self.failed_context->0 },
                ),
                ..self
            }
        } else {
            self
        }
    }

    /// A new host entity in `Idle`; announces itself with `Connected`.
    pub fn new(config: HostConfig, events: &mut Vec<HostEvent>) -> (r: Self)
        ensures
            r.wf(),
            r.current() == HostState::Idle,
            r.pending() is None,
            r.failure() is None,
            r.updated_at() is None,
            r.host_config() == config,
            final(events)@ == old(events)@.push(HostEvent::Connected),
    {
        events.push(HostEvent::Connected);
        HostActor {
            config,
            state: HostState::Idle,
            pending_context: None,
            failed_context: None,
            last_updated: None,
        }
    }

    /// The host name.
    pub fn name(&self) -> (r: &str)
        ensures
            r@ == self.host_config().name@,
    {
        self.config.name.as_str()
    }

    /// The current state.
    pub fn state(&self) -> (r: HostState)
        ensures
            r == self.current(),
    {
        self.state
    }

    /// The host's settings.
    pub fn config(&self) -> (r: &HostConfig)
        ensures
            *r == self.host_config(),
    {
        &self.config
    }

    /// Time of the last successful update.
    pub fn last_updated(&self) -> (r: Option<Timestamp>)
        ensures
            r == self.updated_at(),
    {
        self.last_updated
    }

    /// Context kept while updates are pending.
    pub fn pending_context(&self) -> (r: &Option<PendingUpdatesContext>)
        ensures
            *r == self.pending(),
    {
        &self.pending_context
    }

    /// Context kept while failed.
    pub fn failed_context(&self) -> (r: &Option<FailedStateContext>)
        ensures
            *r == self.failure(),
    {
        &self.failed_context
    }

    /// Announces that the entity stops.
    pub fn stop(&self, reason: String, events: &mut Vec<HostEvent>)
        ensures
            final(events)@ == old(events)@.push(HostEvent::Disconnected { reason }),
    {
        events.push(HostEvent::Disconnected { reason });
    }

    fn refuse(&self, to: HostState) -> (r: CoreError)
        requires
            self.wf(),
        ensures
            r == refusal(self.current(), self.failure(), to),
    {
        match &self.failed_context {
            Some(f) => {
                if self.state == HostState::Failed {
                    CoreError::HostFailed(f.error.clone())
                } else {
                    CoreError::InvalidTransition { from: self.state, to }
                }
            },
            None => CoreError::InvalidTransition { from: self.state, to },
        }
    }

    /// Moves to a failed state, recording the failure.
    fn fail_with_error(&mut self, error: String, now: Timestamp, events: &mut Vec<HostEvent>)
        requires
            old(self).wf(),
            busy(old(self).current()),
        ensures
            final(self).wf(),
            final(self).current() == HostState::Failed,
            final(self).failure() == Some(
                FailedStateContext {
                    previous_state: old(self).current(),
                    error,
                    failed_at: now,
                    retry_count: 0,
                    acknowledged: false,
                },
            ),
            final(self).pending() is None,
            final(self).updated_at() == old(self).updated_at(),
            final(self).host_config() == old(self).host_config(),
            final(events)@ == old(events)@.push(changed(old(self).current(), HostState::Failed)),
    {
        let previous = self.state;
        self.failed_context = Some(FailedStateContext::new(previous, error, now));
        self.state = HostState::Failed;
        events.push(HostEvent::StateChanged { from: previous, to: HostState::Failed });
    }

    /// Starts an inventory query: `Idle` moves to `Querying`. Any other
    /// state refuses without a change.
    pub fn begin_query(&mut self, events: &mut Vec<HostEvent>) -> (r: Result<(), CoreError>)
        requires
            old(self).wf(),
        ensures
            final(self).wf(),
            chain(old(self).current(), emitted(old(events)@, final(events)@), final(self).current()),
            old(self).current() == HostState::Idle ==> {
                &&& r is Ok
                &&& final(self).current() == HostState::Querying
                &&& same_except_state(*final(self), *old(self))
                &&& final(events)@ == old(events)@.push(
                    changed(HostState::Idle, HostState::Querying),
                )
            },
            old(self).current() != HostState::Idle ==> {
                &&& r == Err::<(), CoreError>(
                    refusal(old(self).current(), old(self).failure(), HostState::Querying),
                )
                &&& *final(self) == *old(self)
                &&& final(events)@ == old(events)@
            },
    {
        if self.state != HostState::Idle {
            proof {
                lemma_emitted(events@, Seq::empty());
                assert(events@ + Seq::empty() =~= events@);
            }
            return Err(self.refuse(HostState::Querying));
        }
        self.state = HostState::Querying;
        events.push(HostEvent::StateChanged { from: HostState::Idle, to: HostState::Querying });
        proof {
            lemma_emitted(old(events)@, seq![changed(HostState::Idle, HostState::Querying)]);
            assert(old(events)@ + seq![changed(HostState::Idle, HostState::Querying)]
                =~= events@);
            lemma_chain_one(HostState::Idle, HostState::Querying);
        }
        Ok(())
    }

    /// Completes an inventory query with the package manager's answer.
    /// Packages found: `PendingUpdates` with a fresh pending context. None
    /// found: back to `Idle`. An error: `Failed`, recording `Querying` as the
    /// previous state.
    pub fn finish_query(
        &mut self,
        outcome: Result<Vec<UpgradablePackage>, PackageError>,
        now: Timestamp,
        events: &mut Vec<HostEvent>,
    ) -> (r: Result<InventoryResult, CoreError>)
        requires
            old(self).wf(),
            old(self).current() == HostState::Querying,
            outcome is Ok ==> outcome->Ok_0@.len() <= u32::MAX,
        ensures
            final(self).wf(),
            chain(old(self).current(), emitted(old(events)@, final(events)@), final(self).current()),
            final(self).updated_at() == old(self).updated_at(),
            final(self).host_config() == old(self).host_config(),
            match outcome {
                Ok(pkgs) => {
                    &&& r is Ok
                    &&& r->Ok_0.pending_updates as int == pkgs@.len()
                    &&& names_of(pkgs@, r->Ok_0.packages@)
                    &&& final(self).failure() is None
                    &&& if pkgs@.len() > 0 {
                        &&& final(self).current() == HostState::PendingUpdates
                        &&& final(self).pending() is Some
                        &&& final(self).pending()->0.package_count as int == pkgs@.len()
                        &&& final(self).pending()->0.packages@ == r->Ok_0.packages@
                        &&& final(self).pending()->0.queried_at == now
                        &&& final(events)@ == old(events)@.push(
                            changed(HostState::Querying, HostState::PendingUpdates),
                        )
                    } else {
                        &&& final(self).current() == HostState::Idle
                        &&& final(self).pending() is None
                        &&& final(events)@ == old(events)@.push(
                            changed(HostState::Querying, HostState::Idle),
                        )
                    }
                },
                Err(e) => {
                    &&& r matches Err(CoreError::InventoryError(m)) && m@ == package_error_text(e)
                    &&& final(self).current() == HostState::Failed
                    &&& fresh_failure(
                        final(self).failure(),
                        HostState::Querying,
                        package_error_text(e),
                        now,
                    )
                    &&& final(self).pending() is None
                    &&& final(events)@ == old(events)@.push(
                        changed(HostState::Querying, HostState::Failed),
                    )
                },
            },
    {
        match outcome {
            Ok(pkgs) => {
                let count = pkgs.len() as u32;
                let names = package_names(&pkgs);
                if count > 0 {
                    self.pending_context = Some(
                        PendingUpdatesContext {
                            package_count: count,
                            packages: copy_strings(&names),
                            queried_at: now,
                        },
                    );
                    self.state = HostState::PendingUpdates;
                    events.push(
                        HostEvent::StateChanged {
                            from: HostState::Querying,
                            to: HostState::PendingUpdates,
                        },
                    );
                    proof {
                        lemma_emitted(
                            old(events)@,
                            seq![changed(HostState::Querying, HostState::PendingUpdates)],
                        );
                        assert(old(events)@ + seq![
                            changed(HostState::Querying, HostState::PendingUpdates),
                        ] =~= events@);
                        lemma_chain_one(HostState::Querying, HostState::PendingUpdates);
                    }
                } else {
                    self.state = HostState::Idle;
                    events.push(
                        HostEvent::StateChanged { from: HostState::Querying, to: HostState::Idle },
                    );
                    proof {
                        lemma_emitted(
                            old(events)@,
                            seq![changed(HostState::Querying, HostState::Idle)],
                        );
                        assert(old(events)@ + seq![changed(HostState::Querying, HostState::Idle)]
                            =~= events@);
                        lemma_chain_one(HostState::Querying, HostState::Idle);
                    }
                }
                Ok(InventoryResult { pending_updates: count, packages: names })
            },
            Err(e) => {
                let msg = e.message();
                self.fail_with_error(msg.clone(), now, events);
                proof {
                    lemma_emitted(old(events)@, seq![changed(HostState::Querying, HostState::Failed)]);
                    assert(old(events)@ + seq![changed(HostState::Querying, HostState::Failed)]
                        =~= events@);
                    lemma_chain_one(HostState::Querying, HostState::Failed);
                }
                Err(CoreError::InventoryError(msg))
            },
        }
    }

    /// Starts an upgrade: `PendingUpdates` moves to `Updating` and the
    /// pending context is cleared. Any other state refuses without a change;
    /// in particular `Idle` must query first.
    pub fn begin_update(&mut self, events: &mut Vec<HostEvent>) -> (r: Result<(), CoreError>)
        requires
            old(self).wf(),
        ensures
            final(self).wf(),
            chain(old(self).current(), emitted(old(events)@, final(events)@), final(self).current()),
            old(self).current() == HostState::PendingUpdates ==> {
                &&& r is Ok
                &&& final(self).current() == HostState::Updating
                &&& final(self).pending() is None
                &&& final(self).failure() == old(self).failure()
                &&& final(self).updated_at() == old(self).updated_at()
                &&& final(self).host_config() == old(self).host_config()
                &&& final(events)@ == old(events)@.push(
                    changed(HostState::PendingUpdates, HostState::Updating),
                )
            },
            old(self).current() != HostState::PendingUpdates ==> {
                &&& r == Err::<(), CoreError>(
                    refusal(old(self).current(), old(self).failure(), HostState::Updating),
                )
                &&& *final(self) == *old(self)
                &&& final(events)@ == old(events)@
            },
    {
        if self.state != HostState::PendingUpdates {
            proof {
                lemma_emitted(events@, Seq::empty());
                assert(events@ + Seq::empty() =~= events@);
            }
            return Err(self.refuse(HostState::Updating));
        }
        self.pending_context = None;
        self.state = HostState::Updating;
        events.push(
            HostEvent::StateChanged { from: HostState::PendingUpdates, to: HostState::Updating },
        );
        proof {
            lemma_emitted(old(events)@, seq![changed(HostState::PendingUpdates, HostState::Updating)]);
            assert(old(events)@ + seq![changed(HostState::PendingUpdates, HostState::Updating)]
                =~= events@);
            lemma_chain_one(HostState::PendingUpdates, HostState::Updating);
        }
        Ok(())
    }

    /// Completes an upgrade with the package manager's answer and, after a
    /// successful upgrade, its answer on whether a reboot is required (an
    /// error there counts as "no reboot"). A reboot that is required and not
    /// simulated leads to `WaitingReboot`; otherwise the host returns to
    /// `Idle` with `last_updated = now`. Both announce `UpdateCompleted`
    /// before the state change. An upgrade error leads to `Failed`.
    pub fn finish_update(
        &mut self,
        dry_run: bool,
        outcome: Result<PackageUpdateResult, PackageError>,
        reboot: Result<bool, PackageError>,
        now: Timestamp,
        events: &mut Vec<HostEvent>,
    ) -> (r: Result<UpdateResult, CoreError>)
        requires
            old(self).wf(),
            old(self).current() == HostState::Updating,
        ensures
            final(self).wf(),
            chain(old(self).current(), emitted(old(events)@, final(events)@), final(self).current()),
            final(self).host_config() == old(self).host_config(),
            final(self).pending() is None,
            final(self).current() == HostState::Idle ==> final(self).updated_at() == Some(now),
            final(self).current() == HostState::Idle && after(now, old(self).updated_at())
                ==> after(final(self).updated_at()->0, old(self).updated_at()),
            match outcome {
                Ok(res) => {
                    let rb = reboot == Ok::<bool, PackageError>(true);
                    &&& r == Ok::<UpdateResult, CoreError>(
                        UpdateResult {
                            success: res.success,
                            upgraded_count: res.upgraded_count,
                            reboot_required: rb,
                        },
                    )
                    &&& final(self).failure() is None
                    &&& if rb && !dry_run {
                        &&& final(self).current() == HostState::WaitingReboot
                        &&& final(self).updated_at() == old(self).updated_at()
                        &&& final(events)@ == old(events)@ + seq![
                            HostEvent::UpdateCompleted {
                                upgraded_count: res.upgraded_count,
                                reboot_required: rb,
                            },
                            changed(HostState::Updating, HostState::WaitingReboot),
                        ]
                    } else {
                        &&& final(self).current() == HostState::Idle
                        &&& final(events)@ == old(events)@ + seq![
                            HostEvent::UpdateCompleted {
                                upgraded_count: res.upgraded_count,
                                reboot_required: rb,
                            },
                            changed(HostState::Updating, HostState::Idle),
                        ]
                    }
                },
                Err(e) => {
                    &&& r matches Err(CoreError::PackageError(m)) && m@ == package_error_text(e)
                    &&& final(self).current() == HostState::Failed
                    &&& final(self).updated_at() == old(self).updated_at()
                    &&& fresh_failure(
                        final(self).failure(),
                        HostState::Updating,
                        package_error_text(e),
                        now,
                    )
                    &&& final(events)@ == old(events)@.push(
                        changed(HostState::Updating, HostState::Failed),
                    )
                },
            },
    {
        match outcome {
            Ok(res) => {
                let rb = match reboot {
                    Ok(b) => b,
                    Err(_) => false,
                };
                let done = HostEvent::UpdateCompleted {
                    upgraded_count: res.upgraded_count,
                    reboot_required: rb,
                };
                events.push(done);
                if rb && !dry_run {
                    self.state = HostState::WaitingReboot;
                    events.push(
                        HostEvent::StateChanged {
                            from: HostState::Updating,
                            to: HostState::WaitingReboot,
                        },
                    );
                    proof {
                        let added = seq![done, changed(HostState::Updating, HostState::WaitingReboot)];
                        lemma_emitted(old(events)@, added);
                        assert(old(events)@ + added =~= events@);
                        lemma_chain_after_other(
                            HostState::Updating,
                            done,
                            HostState::WaitingReboot,
                        );
                    }
                } else {
                    self.last_updated = Some(now);
                    self.state = HostState::Idle;
                    events.push(
                        HostEvent::StateChanged { from: HostState::Updating, to: HostState::Idle },
                    );
                    proof {
                        let added = seq![done, changed(HostState::Updating, HostState::Idle)];
                        lemma_emitted(old(events)@, added);
                        assert(old(events)@ + added =~= events@);
                        lemma_chain_after_other(HostState::Updating, done, HostState::Idle);
                    }
                }
                Ok(
                    UpdateResult {
                        success: res.success,
                        upgraded_count: res.upgraded_count,
                        reboot_required: rb,
                    },
                )
            },
            Err(e) => {
                let msg = e.message();
                self.fail_with_error(msg.clone(), now, events);
                proof {
                    lemma_emitted(old(events)@, seq![changed(HostState::Updating, HostState::Failed)]);
                    assert(old(events)@ + seq![changed(HostState::Updating, HostState::Failed)]
                        =~= events@);
                    lemma_chain_one(HostState::Updating, HostState::Failed);
                }
                Err(CoreError::PackageError(msg))
            },
        }
    }

    /// Starts a reboot from `WaitingReboot`. With `auto_reboot` off the host
    /// stays in `WaitingReboot` and the answer is `false` ("not rebooted").
    /// With it on, the host moves to `Rebooting` and the answer is `true`:
    /// the caller then runs `reboot_command()`. Any other state refuses.
    pub fn begin_reboot(&mut self, events: &mut Vec<HostEvent>) -> (r: Result<bool, CoreError>)
        requires
            old(self).wf(),
        ensures
            final(self).wf(),
            chain(old(self).current(), emitted(old(events)@, final(events)@), final(self).current()),
            old(self).current() == HostState::WaitingReboot
                && old(self).host_config().policy.auto_reboot ==> {
                &&& r == Ok::<bool, CoreError>(true)
                &&& final(self).current() == HostState::Rebooting
                &&& same_except_state(*final(self), *old(self))
                &&& final(events)@ == old(events)@.push(
                    changed(HostState::WaitingReboot, HostState::Rebooting),
                )
            },
            old(self).current() == HostState::WaitingReboot
                && !old(self).host_config().policy.auto_reboot ==> {
                &&& r == Ok::<bool, CoreError>(false)
                &&& *final(self) == *old(self)
                &&& final(events)@ == old(events)@
            },
            old(self).current() != HostState::WaitingReboot ==> {
                &&& r == Err::<bool, CoreError>(
                    refusal(old(self).current(), old(self).failure(), HostState::Rebooting),
                )
                &&& *final(self) == *old(self)
                &&& final(events)@ == old(events)@
            },
    {
        if self.state != HostState::WaitingReboot || !self.config.policy.auto_reboot {
            proof {
                lemma_emitted(events@, Seq::empty());
                assert(events@ + Seq::empty() =~= events@);
            }
            if self.state != HostState::WaitingReboot {
                return Err(self.refuse(HostState::Rebooting));
            }
            return Ok(false);
        }
        self.state = HostState::Rebooting;
        events.push(
            HostEvent::StateChanged { from: HostState::WaitingReboot, to: HostState::Rebooting },
        );
        proof {
            lemma_emitted(old(events)@, seq![changed(HostState::WaitingReboot, HostState::Rebooting)]);
            assert(old(events)@ + seq![changed(HostState::WaitingReboot, HostState::Rebooting)]
                =~= events@);
            lemma_chain_one(HostState::WaitingReboot, HostState::Rebooting);
        }
        Ok(true)
    }

    /// Completes a reboot with the executor's answer: success moves to
    /// `Verifying` (a later health check leads to `Idle`); an error leads to
    /// `Failed`.
    pub fn finish_reboot(
        &mut self,
        outcome: Result<CommandResult, ExecError>,
        now: Timestamp,
        events: &mut Vec<HostEvent>,
    ) -> (r: Result<bool, CoreError>)
        requires
            old(self).wf(),
            old(self).current() == HostState::Rebooting,
        ensures
            final(self).wf(),
            chain(old(self).current(), emitted(old(events)@, final(events)@), final(self).current()),
            final(self).host_config() == old(self).host_config(),
            final(self).updated_at() == old(self).updated_at(),
            final(self).pending() is None,
            match outcome {
                Ok(_) => {
                    &&& r == Ok::<bool, CoreError>(true)
                    &&& final(self).current() == HostState::Verifying
                    &&& final(self).failure() is None
                    &&& final(events)@ == old(events)@.push(
                        changed(HostState::Rebooting, HostState::Verifying),
                    )
                },
                Err(e) => {
                    &&& r matches Err(CoreError::SshError(m)) && m@ == exec_error_text(e)
                    &&& final(self).current() == HostState::Failed
                    &&& fresh_failure(
                        final(self).failure(),
                        HostState::Rebooting,
                        exec_error_text(e),
                        now,
                    )
                    &&& final(events)@ == old(events)@.push(
                        changed(HostState::Rebooting, HostState::Failed),
                    )
                },
            },
    {
        match outcome {
            Ok(_) => {
                self.state = HostState::Verifying;
                events.push(
                    HostEvent::StateChanged { from: HostState::Rebooting, to: HostState::Verifying },
                );
                proof {
                    lemma_emitted(old(events)@, seq![changed(HostState::Rebooting, HostState::Verifying)]);
                    assert(old(events)@ + seq![changed(HostState::Rebooting, HostState::Verifying)]
                        =~= events@);
                    lemma_chain_one(HostState::Rebooting, HostState::Verifying);
                }
                Ok(true)
            },
            Err(e) => {
                let msg = e.message();
                self.fail_with_error(msg.clone(), now, events);
                proof {
                    lemma_emitted(old(events)@, seq![changed(HostState::Rebooting, HostState::Failed)]);
                    assert(old(events)@ + seq![changed(HostState::Rebooting, HostState::Failed)]
                        =~= events@);
                    lemma_chain_one(HostState::Rebooting, HostState::Failed);
                }
                Err(CoreError::SshError(msg))
            },
        }
    }

    /// Records the answer of the health probe (`health_command()`). The host
    /// is healthy when the probe's output, trimmed, is exactly `ok`. In
    /// `Verifying`, a healthy answer returns the host to `Idle` with
    /// `last_updated = now`, and an unhealthy answer or an executor error
    /// leads to `Failed`. In any other state the probe changes nothing.
    pub fn health_check(
        &mut self,
        outcome: Result<CommandResult, ExecError>,
        now: Timestamp,
        events: &mut Vec<HostEvent>,
    ) -> (r: Result<HealthCheckResult, CoreError>)
        requires
            old(self).wf(),
        ensures
            final(self).wf(),
            chain(old(self).current(), emitted(old(events)@, final(events)@), final(self).current()),
            final(self).host_config() == old(self).host_config(),
            final(self).current() == HostState::Idle && old(self).current()
                == HostState::Verifying ==> final(self).updated_at() == Some(now),
            old(self).current() == HostState::Verifying && final(self).current()
                == HostState::Idle && after(now, old(self).updated_at()) ==> after(
                final(self).updated_at()->0,
                old(self).updated_at(),
            ),
            old(self).current() != HostState::Verifying ==> {
                &&& *final(self) == *old(self)
                &&& final(events)@ == old(events)@
            },
            match outcome {
                Ok(out) => {
                    let healthy = trim(out.stdout@) == "ok"@;
                    &&& r is Ok
                    &&& r->Ok_0.healthy == healthy
                    &&& (healthy <==> r->Ok_0.message is None)
                    &&& (r->Ok_0.message is Some ==> r->Ok_0.message->0@ == "unexpected output"@)
                    &&& old(self).current() == HostState::Verifying ==> if healthy {
                        &&& final(self).current() == HostState::Idle
                        &&& final(self).failure() is None
                        &&& final(self).pending() is None
                        &&& final(events)@ == old(events)@.push(
                            changed(HostState::Verifying, HostState::Idle),
                        )
                    } else {
                        &&& final(self).current() == HostState::Failed
                        &&& final(self).updated_at() == old(self).updated_at()
                        &&& fresh_failure(
                            final(self).failure(),
                            HostState::Verifying,
                            "health check failed after reboot"@,
                            now,
                        )
                        &&& final(events)@ == old(events)@.push(
                            changed(HostState::Verifying, HostState::Failed),
                        )
                    }
                },
                Err(e) => {
                    &&& r matches Err(CoreError::SshError(m)) && m@ == exec_error_text(e)
                    &&& old(self).current() == HostState::Verifying ==> {
                        &&& final(self).current() == HostState::Failed
                        &&& final(self).updated_at() == old(self).updated_at()
                        &&& fresh_failure(
                            final(self).failure(),
                            HostState::Verifying,
                            exec_error_text(e),
                            now,
                        )
                        &&& final(events)@ == old(events)@.push(
                            changed(HostState::Verifying, HostState::Failed),
                        )
                    }
                },
            },
    {
        let verifying = self.state == HostState::Verifying;
        proof {
            lemma_emitted(events@, Seq::empty());
            assert(events@ + Seq::empty() =~= events@);
        }
        match outcome {
            Ok(out) => {
                let t = trimmed(out.stdout.as_str());
                let healthy = t == String::from_str("ok");
                if verifying {
                    if healthy {
                        self.last_updated = Some(now);
                        self.pending_context = None;
                        self.state = HostState::Idle;
                        events.push(
                            HostEvent::StateChanged {
                                from: HostState::Verifying,
                                to: HostState::Idle,
                            },
                        );
                        proof {
                            lemma_emitted(
                                old(events)@,
                                seq![changed(HostState::Verifying, HostState::Idle)],
                            );
                            assert(old(events)@ + seq![
                                changed(HostState::Verifying, HostState::Idle),
                            ] =~= events@);
                            lemma_chain_one(HostState::Verifying, HostState::Idle);
                        }
                    } else {
                        self.fail_with_error(
                            String::from_str("health check failed after reboot"),
                            now,
                            events,
                        );
                        proof {
                            lemma_emitted(
                                old(events)@,
                                seq![changed(HostState::Verifying, HostState::Failed)],
                            );
                            assert(old(events)@ + seq![
                                changed(HostState::Verifying, HostState::Failed),
                            ] =~= events@);
                            lemma_chain_one(HostState::Verifying, HostState::Failed);
                        }
                    }
                }
                let message = if healthy {
                    None
                } else {
                    Some(String::from_str("unexpected output"))
                };
                Ok(HealthCheckResult { healthy, message })
            },
            Err(e) => {
                let msg = e.message();
                if verifying {
                    self.fail_with_error(msg.clone(), now, events);
                    proof {
                        lemma_emitted(
                            old(events)@,
                            seq![changed(HostState::Verifying, HostState::Failed)],
                        );
                        assert(old(events)@ + seq![changed(HostState::Verifying, HostState::Failed)]
                            =~= events@);
                        lemma_chain_one(HostState::Verifying, HostState::Failed);
                    }
                }
                Err(CoreError::SshError(msg))
            },
        }
    }

    /// Leaves the failed state: counts the retry, clears the failure context
    /// and returns to `Idle`. The failed operation is not run again. Any
    /// other state refuses with an invalid transition.
    pub fn retry(&mut self, events: &mut Vec<HostEvent>) -> (r: Result<(), CoreError>)
        requires
            old(self).wf(),
        ensures
            final(self).wf(),
            chain(old(self).current(), emitted(old(events)@, final(events)@), final(self).current()),
            old(self).current() == HostState::Failed ==> {
                &&& r is Ok
                &&& final(self).current() == HostState::Idle
                &&& final(self).failure() is None
                &&& final(self).pending() is None
                &&& final(self).updated_at() == old(self).updated_at()
                &&& final(self).host_config() == old(self).host_config()
                &&& final(events)@ == old(events)@.push(
                    changed(HostState::Failed, HostState::Idle),
                )
            },
            old(self).current() != HostState::Failed ==> {
                &&& r == Err::<(), CoreError>(
                    CoreError::InvalidTransition { from: old(self).current(), to: HostState::Idle },
                )
                &&& *final(self) == *old(self)
                &&& final(events)@ == old(events)@
            },
    {
        if self.state != HostState::Failed {
            proof {
                lemma_emitted(events@, Seq::empty());
                assert(events@ + Seq::empty() =~= events@);
            }
            return Err(CoreError::InvalidTransition { from: self.state, to: HostState::Idle });
        }
        if let Some(ctx) = &mut self.failed_context {
            ctx.increment_retry();
        }
        self.state = HostState::Idle;
        self.failed_context = None;
        events.push(HostEvent::StateChanged { from: HostState::Failed, to: HostState::Idle });
        proof {
            lemma_emitted(old(events)@, seq![changed(HostState::Failed, HostState::Idle)]);
            assert(old(events)@ + seq![changed(HostState::Failed, HostState::Idle)] =~= events@);
            lemma_chain_one(HostState::Failed, HostState::Idle);
        }
        Ok(())
    }

    /// Marks the failure as acknowledged; the host stays `Failed`. Outside
    /// the failed state the request is refused and nothing changes.
    pub fn acknowledge(&mut self) -> (r: Result<(), CoreError>)
        requires
            old(self).wf(),
        ensures
            final(self).wf(),
            *final(self) == old(self).acked(),
            final(self).current() == old(self).current(),
            old(self).current() == HostState::Failed ==> {
                &&& r is Ok
                &&& final(self).failure() is Some
                &&& final(self).failure()->0 == (FailedStateContext {
                    acknowledged: true,
                    ..old(self).failure()->0
                })
            },
            old(self).current() != HostState::Failed ==> {
                &&& r matches Err(CoreError::HostFailed(m))
                    && m@ == "can only acknowledge hosts in Failed state"@
                &&& *final(self) == *old(self)
            },
    {
        if self.state != HostState::Failed {
            return Err(CoreError::HostFailed(
                String::from_str("can only acknowledge hosts in Failed state"),
            ));
        }
        if let Some(ctx) = &mut self.failed_context {
            ctx.acknowledge();
        }
        Ok(())
    }

    /// A snapshot of the host.
    pub fn status(&self) -> (r: HostStatus)
        ensures
            reports(r, *self),
    {
        let pending_updates = match &self.pending_context {
            Some(p) => Some(p.package_count),
            None => None,
        };
        let error = match &self.failed_context {
            Some(f) => Some(f.error.clone()),
            None => None,
        };
        HostStatus {
            name: self.config.name.clone(),
            state: self.state,
            last_updated: self.last_updated,
            pending_updates,
            error,
            tags: copy_strings(&self.config.tags),
        }
    }
}

/// Whether `r` is a snapshot of `h`.
pub open spec fn reports(r: HostStatus, h: HostActor) -> bool {
    &&& r.name == h.host_config().name
    &&& r.state == h.current()
    &&& r.last_updated == h.updated_at()
    &&& r.pending_updates == (if h.pending() is Some {
        Some(h.pending()->0.package_count)
    } else {
        None::<u32>
    })
    &&& r.error == (if h.failure() is Some {
        Some(h.failure()->0.error)
    } else {
        None::<String>
    })
    &&& r.tags@ == h.host_config().tags@
}

/// The command that reboots a host.
pub fn reboot_command() -> (r: &'static str)
    ensures
        r@ == "sudo reboot"@,
{
    "sudo reboot"
}

/// The command of the health probe.
pub fn health_command() -> (r: &'static str)
    ensures
        r@ == "echo ok"@,
{
    "echo ok"
}

/// Event logs compose: the log of one step followed by the log of the next
/// leads from the first step's start to the second step's end.
pub proof fn lemma_chain_compose(
    s0: HostState,
    e1: Seq<HostEvent>,
    s1: HostState,
    e2: Seq<HostEvent>,
    s2: HostState,
)
    requires
        chain(s0, e1, s1),
        chain(s1, e2, s2),
    ensures
        chain(s0, e1 + e2, s2),
    decreases e1.len(),
{
    if e1.len() == 0 {
        assert(e1 + e2 =~= e2);
    } else {
        assert((e1 + e2).drop_first() =~= e1.drop_first() + e2);
        match e1[0] {
            HostEvent::StateChanged { from, to } => {
                lemma_chain_compose(to, e1.drop_first(), s1, e2, s2);
            },
            _ => {
                lemma_chain_compose(s0, e1.drop_first(), s1, e2, s2);
            },
        }
    }
}

/// Every state change announced in a valid event log is a transition of the
/// table.
pub proof fn lemma_chain_allowed(s0: HostState, evs: Seq<HostEvent>, s1: HostState, i: int)
    requires
        chain(s0, evs, s1),
        0 <= i < evs.len(),
    ensures
        evs[i] matches HostEvent::StateChanged { from, to } ==> transition_allowed(from, to),
    decreases evs.len(),
{
    if i > 0 {
        assert(evs.drop_first()[i - 1] == evs[i]);
        match evs[0] {
            HostEvent::StateChanged { from, to } => {
                lemma_chain_allowed(to, evs.drop_first(), s1, i - 1);
            },
            _ => {
                lemma_chain_allowed(s0, evs.drop_first(), s1, i - 1);
            },
        }
    }
}

/// A log without state changes leaves the state where it was: each change of
/// state is announced.
pub proof fn lemma_chain_silent(s0: HostState, evs: Seq<HostEvent>, s1: HostState)
    requires
        chain(s0, evs, s1),
        forall|i: int| 0 <= i < evs.len() ==> !(evs[i] is StateChanged),
    ensures
        s0 == s1,
    decreases evs.len(),
{
    if evs.len() > 0 {
        assert(!(evs[0] is StateChanged));
        assert forall|i: int| 0 <= i < evs.drop_first().len() implies !(
        #[trigger] evs.drop_first()[i] is StateChanged) by {
            assert(evs.drop_first()[i] == evs[i + 1]);
        }
        lemma_chain_silent(s0, evs.drop_first(), s1);
    }
}

/// Acknowledging twice is the same as acknowledging once.
pub proof fn lemma_acknowledge_idempotent(h: HostActor)
    ensures
        h.acked().acked() == h.acked(),
{
}

/// Two snapshots of the same host are identical.
pub proof fn lemma_status_pure(h: HostActor, r1: HostStatus, r2: HostStatus)
    requires
        reports(r1, h),
        reports(r2, h),
    ensures
        r1.name == r2.name,
        r1.state == r2.state,
        r1.last_updated == r2.last_updated,
        r1.pending_updates == r2.pending_updates,
        r1.error == r2.error,
        r1.tags@ == r2.tags@,
{
}


} // verus!
