//! Running the verifications of one person's candidates, a bounded number at
//! a time, and stopping early once one of them is good enough.
//!
//! The caller owns the workers. It asks which candidate to start next,
//! feeds in what each verification found, says when one has ended, and asks
//! for the final list when all have.

use crate::candidate::{headless_recorded, smtp_recorded, Candidate};
use crate::headless::dispatcher::{Dispatch, HeadlessDispatcher, SkipReason};
use crate::models::{CandidateSource, FoundEmailData, Provider, VerificationStatus};
use crate::text::text_bytes;
use crate::ranking::{final_report, is_report, Thresholds};
use crate::smtp::result::SmtpVerificationResult;
use vstd::prelude::*;

verus! {

/// Where the verification of one candidate stands.
#[derive(Debug, Clone, Copy, PartialEq, Eq, Structural)]
pub enum TaskState {
    /// Not started yet.
    Pending,
    /// Under way.
    Running,
    /// Ended.
    Done,
    /// Never started, and never to be: the run stopped early.
    Cancelled,
}

/// A candidate as it is handed in.
#[derive(Debug)]
pub struct CandidateSeed {
    /// The address.
    pub email: String,
    /// Where the address came from.
    pub source: CandidateSource,
    /// Whether the address is a role address.
    pub is_generic: bool,
}

/// The verifications of one person's candidates.
#[derive(Debug)]
pub struct VerificationScheduler {
    /// The candidates, in the order in which they were handed in.
    pub candidates: Vec<Candidate>,
    /// Where the verification of each candidate stands.
    pub tasks: Vec<TaskState>,
    /// How many verifications are under way.
    pub running: usize,
    /// Whether the run stopped early.
    pub stopped: bool,
    /// How many verifications may be under way at once.
    pub max_concurrency: usize,
    /// The least confidence with which a candidate is reported.
    pub limits: Thresholds,
    /// The confidence at which the run stops early.
    pub early_termination_threshold: u8,
}

/// How many of `tasks` are under way.
pub open spec fn count_running(tasks: Seq<TaskState>) -> nat
    decreases tasks.len(),
{
    if tasks.len() == 0 {
        0
    } else {
        count_running(tasks.drop_last()) + (if tasks.last() == TaskState::Running {
            1nat
        } else {
            0nat
        })
    }
}

/// Whether `i` is the first of `tasks` that has not started.
pub open spec fn is_first_pending(tasks: Seq<TaskState>, i: int) -> bool {
    &&& 0 <= i < tasks.len()
    &&& tasks[i] == TaskState::Pending
    &&& forall|j: int| 0 <= j < i ==> tasks[j] != TaskState::Pending
}

/// Whether one of `tasks` has not started.
pub open spec fn has_pending(tasks: Seq<TaskState>) -> bool {
    exists|i: int| 0 <= i < tasks.len() && tasks[i] == TaskState::Pending
}

/// `tasks` with everything that has not started cancelled; what is under
/// way or has ended is left as it is.
pub open spec fn cancel_pending(tasks: Seq<TaskState>) -> Seq<TaskState> {
    Seq::new(
        tasks.len(),
        |i: int|
            if tasks[i] == TaskState::Pending {
                TaskState::Cancelled
            } else {
                tasks[i]
            },
    )
}

/// Replacing one task changes the number under way by what goes and what
/// comes.
pub proof fn lemma_count_after_update(tasks: Seq<TaskState>, i: int, state: TaskState)
    requires
        0 <= i < tasks.len(),
    ensures
        count_running(tasks.update(i, state)) + (if tasks[i] == TaskState::Running {
            1nat
        } else {
            0nat
        }) == count_running(tasks) + (if state == TaskState::Running {
            1nat
        } else {
            0nat
        }),
    decreases tasks.len(),
{
    let updated = tasks.update(i, state);
    if i == tasks.len() - 1 {
        assert(updated.drop_last() =~= tasks.drop_last());
    } else {
        assert(updated.drop_last() =~= tasks.drop_last().update(i, state));
        lemma_count_after_update(tasks.drop_last(), i, state);
    }
}

/// Cancelling what has not started leaves the number under way as it is.
pub proof fn lemma_count_after_cancel(tasks: Seq<TaskState>)
    ensures
        count_running(cancel_pending(tasks)) == count_running(tasks),
    decreases tasks.len(),
{
    if tasks.len() > 0 {
        assert(cancel_pending(tasks).drop_last() =~= cancel_pending(tasks.drop_last()));
        lemma_count_after_cancel(tasks.drop_last());
    }
}

impl VerificationScheduler {
    /// Whether the scheduler is consistent: there is a task for every
    /// candidate; the number under way is counted right and within the
    /// bound; nothing is left to start once the run has stopped; and every
    /// candidate is well formed.
    pub open spec fn well_formed(&self) -> bool {
        &&& self.tasks@.len() == self.candidates@.len()
        &&& self.running == count_running(self.tasks@)
        &&& self.running <= self.max_concurrency
        &&& self.max_concurrency >= 1
        &&& self.stopped ==> !has_pending(self.tasks@)
        &&& forall|i: int|
            0 <= i < self.candidates@.len() ==> (#[trigger] self.candidates@[i]).well_formed()
    }

    /// Whether a verification may be started: the run has not stopped, the
    /// bound is not reached, and a candidate is left to start.
    pub open spec fn may_start(&self) -> bool {
        &&& !self.stopped
        &&& self.running < self.max_concurrency
        &&& has_pending(self.tasks@)
    }

    /// Whether the settings of `other` are those of `self`.
    pub open spec fn same_settings(&self, other: &VerificationScheduler) -> bool {
        &&& self.max_concurrency == other.max_concurrency
        &&& self.limits == other.limits
        &&& self.early_termination_threshold == other.early_termination_threshold
    }

    /// Whether the verification of candidate `index` is under way.
    pub open spec fn is_running(&self, index: usize) -> bool {
        index < self.tasks@.len() && self.tasks@[index as int] == TaskState::Running
    }

    /// Whether the run is over: nothing is under way and nothing is left to
    /// start.
    pub open spec fn finished(&self) -> bool {
        forall|i: int|
            0 <= i < self.tasks@.len() ==> (#[trigger] self.tasks@[i]) == TaskState::Done
                || self.tasks@[i] == TaskState::Cancelled
    }

    /// Says whether the scheduler is consistent.
    pub fn is_well_formed(&self) -> (b: bool)
        ensures
            b == self.well_formed(),
    {
        if self.tasks.len() != self.candidates.len() || self.max_concurrency < 1
            || self.running > self.max_concurrency {
            return false;
        }
        let mut counted: usize = 0;
        let mut pending: bool = false;
        let mut sound: bool = true;
        let mut i: usize = 0;
        while i < self.tasks.len()
            invariant
                i <= self.tasks.len(),
                self.tasks@.len() == self.candidates@.len(),
                counted == count_running(self.tasks@.take(i as int)),
                counted <= i,
                pending == has_pending(self.tasks@.take(i as int)),
                sound == (forall|k: int|
                    0 <= k < i ==> (#[trigger] self.candidates@[k]).well_formed()),
            decreases self.tasks.len() - i,
        {
            proof {
                let before = self.tasks@.take(i as int);
                let after = self.tasks@.take(i + 1);
                assert(after.drop_last() =~= before);
                assert(after.last() == self.tasks@[i as int]);
                if has_pending(before) {
                    let w = choose|w: int| 0 <= w < before.len() && before[w] == TaskState::Pending;
                    assert(after[w] == TaskState::Pending);
                }
                if has_pending(after) && self.tasks@[i as int] != TaskState::Pending {
                    let w = choose|w: int| 0 <= w < after.len() && after[w] == TaskState::Pending;
                    assert(before[w] == TaskState::Pending);
                }
                if self.tasks@[i as int] == TaskState::Pending {
                    assert(after[i as int] == TaskState::Pending);
                }
            }
            if self.tasks[i] == TaskState::Running {
                counted += 1;
            }
            if self.tasks[i] == TaskState::Pending {
                pending = true;
            }
            if !self.candidates[i].is_well_formed() {
                sound = false;
            }
            i += 1;
        }
        proof {
            assert(self.tasks@.take(self.tasks@.len() as int) =~= self.tasks@);
        }
        counted == self.running && !(self.stopped && pending) && sound
    }

    /// A scheduler for the candidates handed in, none of them started. At
    /// least one verification may run at a time, whatever `max_concurrency`
    /// says.
    pub fn new(
        seeds: Vec<CandidateSeed>,
        max_concurrency: usize,
        limits: Thresholds,
        early_termination_threshold: u8,
    ) -> (s: VerificationScheduler)
        ensures
            s.well_formed(),
            s.candidates@.len() == seeds@.len(),
            forall|i: int|
                0 <= i < seeds@.len() ==> {
                    &&& (#[trigger] s.candidates@[i]).email@ == seeds@[i].email@
                    &&& s.candidates@[i].source == seeds@[i].source
                    &&& s.candidates@[i].is_generic == seeds@[i].is_generic
                    &&& s.candidates@[i].verification_status is Unknown
                    &&& s.tasks@[i] == TaskState::Pending
                },
            s.running == 0,
            !s.stopped,
            s.max_concurrency == (if max_concurrency < 1 {
                1usize
            } else {
                max_concurrency
            }),
            s.limits == limits,
            s.early_termination_threshold == early_termination_threshold,
    {
        let mut candidates: Vec<Candidate> = Vec::new();
        let mut tasks: Vec<TaskState> = Vec::new();
        let mut i: usize = 0;
        while i < seeds.len()
            invariant
                i <= seeds.len(),
                candidates@.len() == i,
                tasks@.len() == i,
                count_running(tasks@) == 0,
                forall|k: int|
                    0 <= k < i ==> {
                        &&& (#[trigger] candidates@[k]).email@ == seeds@[k].email@
                        &&& candidates@[k].source == seeds@[k].source
                        &&& candidates@[k].is_generic == seeds@[k].is_generic
                        &&& candidates@[k].verification_status is Unknown
                        &&& candidates@[k].well_formed()
                        &&& tasks@[k] == TaskState::Pending
                    },
            decreases seeds.len() - i,
        {
            let seed = &seeds[i];
            let ghost before = tasks@;
            candidates.push(Candidate::new(seed.email.clone(), seed.source, seed.is_generic));
            tasks.push(TaskState::Pending);
            proof {
                assert(tasks@.drop_last() =~= before);
            }
            i += 1;
        }
        VerificationScheduler {
            candidates,
            tasks,
            running: 0,
            stopped: false,
            max_concurrency: if max_concurrency < 1 {
                1
            } else {
                max_concurrency
            },
            limits,
            early_termination_threshold,
        }
    }

    /// Picks the verification to start next, if one may be started: the
    /// first candidate that has not started. It is marked as under way.
    pub fn start_next(&mut self) -> (next: Option<usize>)
        requires
            old(self).well_formed(),
        ensures
            final(self).well_formed(),
            final(self).same_settings(old(self)),
            final(self).candidates == old(self).candidates,
            final(self).stopped == old(self).stopped,
            next is Some <==> old(self).may_start(),
            next matches Some(i) ==> {
                &&& is_first_pending(old(self).tasks@, i as int)
                &&& final(self).tasks@ == old(self).tasks@.update(i as int, TaskState::Running)
                &&& final(self).running == old(self).running + 1
            },
            next is None ==> *final(self) == *old(self),
    {
        if self.stopped || self.running >= self.max_concurrency {
            return None;
        }
        let mut i: usize = 0;
        while i < self.tasks.len()
            invariant
                i <= self.tasks.len(),
                *self == *old(self),
                old(self).well_formed(),
                !self.stopped,
                self.running < self.max_concurrency,
                forall|j: int| 0 <= j < i ==> self.tasks@[j] != TaskState::Pending,
            decreases self.tasks.len() - i,
        {
            if self.tasks[i] == TaskState::Pending {
                proof {
                    lemma_count_after_update(self.tasks@, i as int, TaskState::Running);
                    assert(is_first_pending(self.tasks@, i as int));
                    assert(has_pending(self.tasks@));
                }
                self.tasks.set(i, TaskState::Running);
                self.running = self.running + 1;
                return Some(i);
            }
            i += 1;
        }
        None
    }

    /// Takes in the result of SMTP verification for the candidate at
    /// `index`, where its verification is under way; nothing changes where
    /// it is not.
    pub fn record_smtp(&mut self, index: usize, result: &SmtpVerificationResult)
        requires
            old(self).well_formed(),
        ensures
            final(self).well_formed(),
            final(self).same_settings(old(self)),
            final(self).tasks == old(self).tasks,
            final(self).running == old(self).running,
            final(self).stopped == old(self).stopped,
            final(self).candidates@.len() == old(self).candidates@.len(),
            forall|j: int|
                0 <= j < old(self).candidates@.len() && j != index ==> final(self).candidates@[j]
                    == old(self).candidates@[j],
            old(self).is_running(index) ==> smtp_recorded(
                old(self).candidates@[index as int],
                *result,
                final(self).candidates@[index as int],
            ),
            !old(self).is_running(index) ==> final(self).candidates@ == old(self).candidates@,
    {
        if index < self.tasks.len() && self.tasks[index] == TaskState::Running {
            let mut candidate = self.candidates[index].clone();
            candidate.record_smtp(result);
            self.candidates.set(index, candidate);
        }
    }

    /// Takes in what the recovery flow of `provider` found for the candidate
    /// at `index`, where its verification is under way; nothing changes
    /// where it is not.
    pub fn record_headless(
        &mut self,
        index: usize,
        provider: Provider,
        found: &Option<FoundEmailData>,
    )
        requires
            old(self).well_formed(),
        ensures
            final(self).well_formed(),
            final(self).same_settings(old(self)),
            final(self).tasks == old(self).tasks,
            final(self).running == old(self).running,
            final(self).stopped == old(self).stopped,
            final(self).candidates@.len() == old(self).candidates@.len(),
            forall|j: int|
                0 <= j < old(self).candidates@.len() && j != index ==> final(self).candidates@[j]
                    == old(self).candidates@[j],
            old(self).is_running(index) ==> headless_recorded(
                old(self).candidates@[index as int],
                provider,
                *found,
                final(self).candidates@[index as int],
            ),
            !old(self).is_running(index) ==> final(self).candidates@ == old(self).candidates@,
    {
        if index < self.tasks.len() && self.tasks[index] == TaskState::Running {
            let mut candidate = self.candidates[index].clone();
            candidate.record_headless(provider, found);
            self.candidates.set(index, candidate);
        }
    }

    /// What is done about a headless check for the candidate at `index`
    /// once SMTP verification has ended: nothing where no verification of it
    /// is under way or its status is settled, else what the dispatcher
    /// decides for its address.
    pub open spec fn headless_plan_spec(
        &self,
        index: usize,
        dispatcher: HeadlessDispatcher,
    ) -> Dispatch {
        if !self.is_running(index) || index >= self.candidates@.len()
            || self.candidates@[index as int].verification_status is Confirmed {
            Dispatch::Skip(SkipReason::Settled)
        } else {
            dispatcher.dispatch_spec(text_bytes(self.candidates@[index as int].email@))
        }
    }

    /// Decides whether a recovery flow is run for the candidate at `index`,
    /// and of which provider.
    pub fn headless_plan(&self, index: usize, dispatcher: &HeadlessDispatcher) -> (plan: Dispatch)
        ensures
            plan == self.headless_plan_spec(index, *dispatcher),
    {
        if !(index < self.tasks.len() && index < self.candidates.len() && self.tasks[index]
            == TaskState::Running) {
            return Dispatch::Skip(SkipReason::Settled);
        }
        match self.candidates[index].verification_status {
            VerificationStatus::Confirmed(_) => Dispatch::Skip(SkipReason::Settled),
            VerificationStatus::Unknown => dispatcher.dispatch(self.candidates[index].email.as_str()),
        }
    }

    /// Marks the verification of the candidate at `index` as ended, where it
    /// is under way; nothing changes where it is not. If the candidate has
    /// reached the confidence at which the run stops early, every
    /// verification that has not started is cancelled; those under way go
    /// on, and no candidate is touched.
    pub fn complete(&mut self, index: usize)
        requires
            old(self).well_formed(),
        ensures
            final(self).well_formed(),
            final(self).same_settings(old(self)),
            final(self).candidates == old(self).candidates,
            !old(self).is_running(index) ==> *final(self) == *old(self),
            old(self).is_running(index) ==> {
                let early = old(self).candidates@[index as int].confidence
                    >= old(self).early_termination_threshold;
                let ended = old(self).tasks@.update(index as int, TaskState::Done);
                &&& final(self).running == old(self).running - 1
                &&& final(self).stopped == (old(self).stopped || early)
                &&& final(self).tasks@ == (if early {
                    cancel_pending(ended)
                } else {
                    ended
                })
            },
    {
        if !(index < self.tasks.len() && self.tasks[index] == TaskState::Running) {
            return ;
        }
        proof {
            lemma_count_after_update(self.tasks@, index as int, TaskState::Done);
        }
        let ghost ended = self.tasks@.update(index as int, TaskState::Done);
        self.tasks.set(index, TaskState::Done);
        self.running = self.running - 1;
        proof {
            if self.stopped {
                assert forall|i: int| 0 <= i < ended.len() implies ended[i]
                    != TaskState::Pending by {
                    if i != index {
                        assert(old(self).tasks@[i] == ended[i]);
                    }
                }
            }
        }
        if self.candidates[index].confidence >= self.early_termination_threshold {
            let mut i: usize = 0;
            while i < self.tasks.len()
                invariant
                    i <= self.tasks.len(),
                    self.tasks@.len() == ended.len(),
                    self.candidates == old(self).candidates,
                    self.same_settings(old(self)),
                    self.running == old(self).running - 1,
                    self.stopped == old(self).stopped,
                    forall|j: int| 0 <= j < i ==> self.tasks@[j] == cancel_pending(ended)[j],
                    forall|j: int| i <= j < ended.len() ==> self.tasks@[j] == ended[j],
                decreases self.tasks.len() - i,
            {
                if self.tasks[i] == TaskState::Pending {
                    self.tasks.set(i, TaskState::Cancelled);
                }
                i += 1;
            }
            self.stopped = true;
            proof {
                assert(self.tasks@ =~= cancel_pending(ended));
                lemma_count_after_cancel(ended);
            }
        }
    }

    /// Says whether the run is over.
    pub fn is_finished(&self) -> (b: bool)
        ensures
            b == self.finished(),
    {
        let mut i: usize = 0;
        while i < self.tasks.len()
            invariant
                i <= self.tasks.len(),
                forall|j: int|
                    0 <= j < i ==> (#[trigger] self.tasks@[j]) == TaskState::Done
                        || self.tasks@[j] == TaskState::Cancelled,
            decreases self.tasks.len() - i,
        {
            if !(self.tasks[i] == TaskState::Done || self.tasks[i] == TaskState::Cancelled) {
                return false;
            }
            i += 1;
        }
        true
    }

    /// The final list: every candidate that may be reported, whether its
    /// verification ended, was cancelled or never started, ranked by
    /// confidence, each address once.
    pub fn report(&self) -> (list: Vec<FoundEmailData>)
        ensures
            is_report(self.candidates@, self.limits, list@),
    {
        final_report(&self.candidates, self.limits)
    }
}

/// Once the run has stopped early, no verification is started any more.
pub proof fn lemma_stopped_starts_nothing(s: VerificationScheduler)
    requires
        s.stopped,
    ensures
        !s.may_start(),
{
}

/// No more verifications are under way than the bound allows, and the
/// bound is never reached by starting one more.
pub proof fn lemma_bounded_concurrency(s: VerificationScheduler)
    requires
        s.well_formed(),
    ensures
        count_running(s.tasks@) <= s.max_concurrency,
        s.may_start() ==> count_running(s.tasks@) + 1 <= s.max_concurrency,
{
}

/// Stopping early touches only what has not started: a verification that is
/// under way stays under way, one that has ended stays ended, and nothing is
/// left to start.
pub proof fn lemma_cancel_spares_what_started(tasks: Seq<TaskState>, i: int)
    requires
        0 <= i < tasks.len(),
    ensures
        tasks[i] != TaskState::Pending ==> cancel_pending(tasks)[i] == tasks[i],
        tasks[i] == TaskState::Pending ==> cancel_pending(tasks)[i] == TaskState::Cancelled,
        !has_pending(cancel_pending(tasks)),
{
}

} // verus!
