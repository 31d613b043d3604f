//! Isolate termination state and the deadlines of the watchdog.

use crate::error::{text_view, ErrorView, RuntimeError};
use crate::time::{saturating_span, Duration};
use vstd::prelude::*;

verus! {

/// How far the termination of an isolate has come.
#[derive(Clone, Copy, Debug, PartialEq, Eq, Structural)]
pub enum TerminationStatus {
    Running,
    Requested,
    Terminated,
}

/// What a `TerminationController` holds.
#[verifier::ext_equal]
pub struct TerminationView {
    pub status: TerminationStatus,
    pub reason: Option<Seq<char>>,
    /// The engine was asked to stop and the request was not cancelled since.
    pub latched: bool,
}

impl TerminationView {
    pub open spec fn fresh() -> TerminationView {
        TerminationView { status: TerminationStatus::Running, reason: None, latched: false }
    }

    /// After a termination was requested: only a running isolate changes.
    pub open spec fn requested(self) -> TerminationView {
        if self.status == TerminationStatus::Running {
            TerminationView { status: TerminationStatus::Requested, ..self }
        } else {
            self
        }
    }

    /// After the isolate was marked terminated.
    pub open spec fn terminated(self) -> TerminationView {
        TerminationView { status: TerminationStatus::Terminated, ..self }
    }

    /// After a reason was offered: the first one stays.
    pub open spec fn with_reason(self, reason: Seq<char>) -> TerminationView {
        if self.reason is None {
            TerminationView { reason: Some(reason), ..self }
        } else {
            self
        }
    }

    /// After the engine was asked to stop.
    pub open spec fn stopping(self) -> TerminationView {
        TerminationView { latched: true, ..self }
    }

    /// After the request to stop was cancelled.
    pub open spec fn unlatched(self) -> TerminationView {
        TerminationView { latched: false, ..self }
    }

    /// A termination was requested or has happened.
    pub open spec fn is_requested(self) -> bool {
        self.status != TerminationStatus::Running
    }

    /// The error that work is refused with.
    pub open spec fn error(self) -> ErrorView {
        ErrorView::Terminated(self.reason)
    }
}

/// Controller for isolate termination.
pub struct TerminationController {
    status: TerminationStatus,
    reason: Option<String>,
    latched: bool,
}

impl View for TerminationController {
    type V = TerminationView;

    closed spec fn view(&self) -> TerminationView {
        TerminationView {
            status: self.status,
            reason: text_view(self.reason),
            latched: self.latched,
        }
    }
}

impl TerminationController {
    pub fn new() -> (controller: Self)
        ensures
            controller@ == TerminationView::fresh(),
    {
        TerminationController { status: TerminationStatus::Running, reason: None, latched: false }
    }

    /// Requests a termination; `true` for the first request of a running isolate.
    pub fn request(&mut self) -> (first: bool)
        ensures
            first == (old(self)@.status == TerminationStatus::Running),
            final(self)@ == old(self)@.requested(),
    {
        if self.status == TerminationStatus::Running {
            self.status = TerminationStatus::Requested;
            true
        } else {
            false
        }
    }

    /// Notes that the engine is asked to stop what it executes.
    pub fn terminate_execution(&mut self)
        ensures
            final(self)@ == old(self)@.stopping(),
    {
        self.latched = true;
    }

    /// Notes that the request to stop is cancelled; returns whether one was pending.
    pub fn cancel_terminate_execution(&mut self) -> (pending: bool)
        ensures
            pending == old(self)@.latched,
            final(self)@ == old(self)@.unlatched(),
    {
        let pending: bool = self.latched;
        self.latched = false;
        pending
    }

    /// Whether the engine was asked to stop and the request not cancelled since.
    pub fn is_latched(&self) -> (latched: bool)
        ensures
            latched == self@.latched,
    {
        self.latched
    }

    /// Gives the reason for a termination, unless one was given before.
    pub fn ensure_reason(&mut self, reason: &str)
        ensures
            final(self)@ == old(self)@.with_reason(reason@),
    {
        if self.reason.is_none() {
            self.reason = Some(reason.to_owned());
        }
    }

    /// The reason that was given first.
    pub fn reason(&self) -> (reason: Option<String>)
        ensures
            text_view(reason) == self@.reason,
    {
        match &self.reason {
            Some(text) => Some(text.clone()),
            None => None,
        }
    }

    /// The error that work is refused with.
    pub fn terminated_error(&self) -> (err: RuntimeError)
        ensures
            err@ == self@.error(),
    {
        RuntimeError::terminated(self.reason())
    }

    /// Whether a termination was requested or has happened.
    pub fn is_requested(&self) -> (yes: bool)
        ensures
            yes == self@.is_requested(),
    {
        self.status != TerminationStatus::Running
    }

    /// Whether the isolate is terminated.
    pub fn is_terminated(&self) -> (yes: bool)
        ensures
            yes == (self@.status == TerminationStatus::Terminated),
    {
        self.status == TerminationStatus::Terminated
    }

    /// Mark the isolate terminated from the *host* side, where the runtime thread
    /// is wedged and will never mark itself.
    pub fn force_mark_terminated(&mut self)
        ensures
            final(self)@ == old(self)@.terminated(),
    {
        let _ = self.mark_terminated();
    }

    /// Mark the isolate terminated; `true` the first time.
    pub fn mark_terminated(&mut self) -> (first: bool)
        ensures
            first == (old(self)@.status != TerminationStatus::Terminated),
            final(self)@ == old(self)@.terminated(),
    {
        let first: bool = self.status != TerminationStatus::Terminated;
        self.status = TerminationStatus::Terminated;
        first
    }
}

/// The order in which the states of a termination follow each other.
pub open spec fn status_rank(status: TerminationStatus) -> int {
    match status {
        TerminationStatus::Running => 0,
        TerminationStatus::Requested => 1,
        TerminationStatus::Terminated => 2,
    }
}

/// No operation takes a termination back: the status never falls, and a reason
/// once given never changes.
pub proof fn law_termination_is_not_taken_back(state: TerminationView, reason: Seq<char>)
    ensures
        status_rank(state.requested().status) >= status_rank(state.status),
        status_rank(state.terminated().status) >= status_rank(state.status),
        status_rank(state.with_reason(reason).status) >= status_rank(state.status),
        status_rank(state.stopping().status) >= status_rank(state.status),
        status_rank(state.unlatched().status) >= status_rank(state.status),
        state.reason is Some ==> state.requested().reason == state.reason
            && state.terminated().reason == state.reason && state.with_reason(reason).reason
            == state.reason && state.stopping().reason == state.reason && state.unlatched().reason
            == state.reason,
{
}

/// Of two requests at most the first is told that it was the first.
pub proof fn law_one_first_request(state: TerminationView)
    ensures
        state.requested().status != TerminationStatus::Running,
        state.requested().requested() == state.requested(),
{
}

/// One armed deadline. Times are counted from one origin.
#[verifier::ext_equal]
pub struct DeadlineView {
    pub id: u64,
    pub deadline: nat,
    pub reason: Seq<char>,
    pub fired: bool,
}

/// What a `Watchdog` holds.
#[verifier::ext_equal]
pub struct WatchdogView {
    pub armed: Seq<DeadlineView>,
    pub next_id: u64,
}

/// Identifies one armed deadline for [`Watchdog::disarm`].
#[derive(Clone, Copy, Debug)]
pub struct WatchdogToken {
    pub id: u64,
    pub duration: Duration,
}

/// The id after `id`; the last one is followed by zero.
pub open spec fn token_after(id: u64) -> u64 {
    if id < u64::MAX {
        (id + 1) as u64
    } else {
        0
    }
}

/// The deadline is past but was not acted upon.
pub open spec fn due(entry: DeadlineView, now: nat) -> bool {
    !entry.fired && entry.deadline <= now
}

/// The deadline once everything that is past was acted upon.
pub open spec fn after_firing(entry: DeadlineView, now: nat) -> DeadlineView {
    DeadlineView { fired: entry.fired || entry.deadline <= now, ..entry }
}

/// A deadline is past but was not acted upon.
pub open spec fn any_due(armed: Seq<DeadlineView>, now: nat) -> bool {
    exists|i: int| 0 <= i < armed.len() && due(#[trigger] armed[i], now)
}

/// The position of the earliest deadline that fired; of equal ones the first.
pub open spec fn earliest_fired(armed: Seq<DeadlineView>) -> Option<int>
    decreases armed.len(),
{
    if armed.len() == 0 {
        None
    } else {
        let n = armed.len() - 1;
        match earliest_fired(armed.drop_last()) {
            None => if armed[n].fired {
                Some(n)
            } else {
                None
            },
            Some(i) => if armed[n].fired && armed[n].deadline < armed[i].deadline {
                Some(n)
            } else {
                Some(i)
            },
        }
    }
}

/// The earliest deadline that did not fire yet.
pub open spec fn next_deadline(armed: Seq<DeadlineView>) -> Option<nat>
    decreases armed.len(),
{
    if armed.len() == 0 {
        None
    } else {
        let last = armed.last();
        match next_deadline(armed.drop_last()) {
            None => if last.fired {
                None
            } else {
                Some(last.deadline)
            },
            Some(t) => if !last.fired && last.deadline < t {
                Some(last.deadline)
            } else {
                Some(t)
            },
        }
    }
}

/// The position of the deadline with this id; of several the first.
pub open spec fn position_of(armed: Seq<DeadlineView>, id: u64) -> Option<int>
    decreases armed.len(),
{
    if armed.len() == 0 {
        None
    } else if position_of(armed.drop_last(), id) is Some {
        position_of(armed.drop_last(), id)
    } else if armed.last().id == id {
        Some(armed.len() - 1)
    } else {
        None
    }
}

/// The sequence without the entry at `i`, whose place the last one takes.
pub open spec fn swap_removed(armed: Seq<DeadlineView>, i: int) -> Seq<DeadlineView> {
    if i == armed.len() - 1 {
        armed.drop_last()
    } else {
        armed.drop_last().update(i, armed.last())
    }
}

impl WatchdogView {
    /// After a deadline was armed at `now` for `duration`.
    pub open spec fn armed_at(self, now: nat, duration: nat, reason: Seq<char>) -> WatchdogView {
        WatchdogView {
            armed: self.armed.push(
                DeadlineView {
                    id: self.next_id,
                    deadline: saturating_span(now + duration),
                    reason,
                    fired: false,
                },
            ),
            next_id: token_after(self.next_id),
        }
    }

    /// After everything that is past at `now` was acted upon.
    pub open spec fn fired_at(self, now: nat) -> WatchdogView {
        WatchdogView {
            armed: self.armed.map_values(|entry: DeadlineView| after_firing(entry, now)),
            ..self
        }
    }

    /// After the deadline with this id was removed.
    pub open spec fn disarmed(self, id: u64) -> WatchdogView {
        match position_of(self.armed, id) {
            Some(i) => WatchdogView { armed: swap_removed(self.armed, i), ..self },
            None => self,
        }
    }
}

/// What the watchdog thread does next.
#[derive(Debug)]
pub enum WatchdogVerdict {
    /// Stop what the engine executes, for this reason; then ask again.
    Fire { reason: String },
    /// Sleep until a deadline is armed, at most this long.
    Sleep { at_most: Option<Duration> },
}

struct ArmedDeadline {
    id: u64,
    deadline: Duration,
    reason: String,
    fired: bool,
}

impl ArmedDeadline {
    spec fn view(self) -> DeadlineView {
        DeadlineView {
            id: self.id,
            deadline: self.deadline@,
            reason: self.reason@,
            fired: self.fired,
        }
    }
}

/// The deadlines that are enforced on an isolate. Several can be outstanding; one
/// that passes stops whatever is running at that moment.
pub struct Watchdog {
    armed: Vec<ArmedDeadline>,
    next_id: u64,
}

impl View for Watchdog {
    type V = WatchdogView;

    closed spec fn view(&self) -> WatchdogView {
        WatchdogView {
            armed: self.armed@.map_values(|entry: ArmedDeadline| entry.view()),
            next_id: self.next_id,
        }
    }
}

impl Watchdog {
    pub fn new() -> (watchdog: Self)
        ensures
            watchdog@.armed == Seq::<DeadlineView>::empty(),
            watchdog@.next_id == 0,
    {
        let watchdog = Watchdog { armed: Vec::new(), next_id: 0 };
        assert(watchdog@.armed =~= Seq::empty());
        watchdog
    }

    /// Arm a deadline `duration` from `now`.
    pub fn arm(&mut self, now: Duration, duration: Duration, reason: &str) -> (token:
        WatchdogToken)
        ensures
            final(self)@ == old(self)@.armed_at(now@, duration@, reason@),
            token.id == old(self)@.next_id,
            token.duration == duration,
    {
        let ghost before = self@;
        let id: u64 = self.next_id;
        self.next_id = id.wrapping_add(1);
        let entry = ArmedDeadline {
            id,
            deadline: now.saturating_add(duration),
            reason: reason.to_owned(),
            fired: false,
        };
        self.armed.push(entry);
        assert(self@.armed =~= before.armed.push(entry.view()));
        WatchdogToken { id, duration }
    }

    /// Remove an armed deadline, returning whether it had already fired.
    pub fn disarm(&mut self, token: WatchdogToken) -> (fired: bool)
        ensures
            final(self)@ == old(self)@.disarmed(token.id),
            fired == match position_of(old(self)@.armed, token.id) {
                Some(i) => old(self)@.armed[i].fired,
                None => false,
            },
    {
        let ghost before = self@;
        let mut i: usize = 0;
        let n: usize = self.armed.len();
        assert(before.armed.take(0) =~= Seq::empty());
        while i < n
            invariant
                i <= n,
                n == self.armed@.len(),
                self@ == before,
                before == old(self)@,
                before.armed.len() == n,
                position_of(before.armed.take(i as int), token.id) is None,
            decreases n - i,
        {
            proof {
                assert(before.armed.take(i + 1).drop_last() =~= before.armed.take(i as int));
                assert(before.armed.take(i + 1).last() == self.armed@[i as int].view());
            }
            if self.armed[i].id == token.id {
                proof {
                    lemma_position_prefix(before.armed, i + 1, token.id);
                }
                let removed: ArmedDeadline = self.armed.swap_remove(i);
                assert(self@.armed =~= swap_removed(before.armed, i as int));
                return removed.fired;
            }
            i = i + 1;
        }
        assert(before.armed.take(i as int) =~= before.armed);
        false
    }

    /// Acts upon every deadline that is past; says for which reason to stop what is
    /// running, or how long to sleep when nothing is past.
    ///
    /// One stop covers every deadline that just passed; the reason is that of the
    /// one that passed first.
    pub fn poll(&mut self, now: Duration) -> (verdict: WatchdogVerdict)
        ensures
            final(self)@ == old(self)@.fired_at(now@),
            match verdict {
                WatchdogVerdict::Fire { reason } => any_due(old(self)@.armed, now@)
                    && earliest_fired(final(self)@.armed) is Some && reason@
                    == final(self)@.armed[earliest_fired(final(self)@.armed)->0].reason,
                WatchdogVerdict::Sleep { at_most } => !any_due(old(self)@.armed, now@)
                    && match next_deadline(final(self)@.armed) {
                    Some(t) => at_most is Some && at_most->0@ == t - now@ && t > now@,
                    None => at_most is None,
                },
            },
    {
        let ghost before = self@;
        let any_fired: bool = self.mark_past(now);
        if any_fired {
            proof {
                let i = choose|i: int| 0 <= i < before.armed.len() && due(before.armed[i], now@);
                assert(self@.armed[i].fired);
                lemma_earliest_exists(self@.armed, i);
            }
            let at: usize = self.find_earliest();
            let reason: String = self.armed[at].reason.clone();
            assert(reason@ == self@.armed[at as int].reason);
            return WatchdogVerdict::Fire { reason };
        }
        match self.find_next() {
            Some(deadline) => {
                proof {
                    lemma_next_deadline_unfired(self@.armed);
                    let i = choose|i: int|
                        0 <= i < self@.armed.len() && !(#[trigger] self@.armed[i]).fired
                            && self@.armed[i].deadline == deadline@;
                    assert(self@.armed[i] == after_firing(before.armed[i], now@));
                }
                WatchdogVerdict::Sleep { at_most: Some(deadline.saturating_sub(now)) }
            },
            None => WatchdogVerdict::Sleep { at_most: None },
        }
    }

    /// One turn of the watchdog: acts upon every deadline that is past, and asks the
    /// engine to stop when there is one. After a stop the next turn follows at once;
    /// otherwise it sleeps, without a bound where nothing is armed.
    pub fn turn(&mut self, termination: &mut TerminationController, now: Duration) -> (verdict:
        WatchdogVerdict)
        ensures
            final(self)@ == old(self)@.fired_at(now@),
            match verdict {
                WatchdogVerdict::Fire { reason } => {
                    &&& any_due(old(self)@.armed, now@)
                    &&& earliest_fired(final(self)@.armed) is Some
                    &&& reason@ == final(self)@.armed[earliest_fired(
                        final(self)@.armed,
                    )->0].reason
                    &&& final(termination)@ == old(termination)@.with_reason(reason@).stopping()
                },
                WatchdogVerdict::Sleep { at_most } => {
                    &&& !any_due(old(self)@.armed, now@)
                    &&& match next_deadline(final(self)@.armed) {
                        Some(t) => at_most is Some && at_most->0@ == t - now@ && t > now@,
                        None => at_most is None,
                    }
                    &&& final(termination)@ == old(termination)@
                },
            },
    {
        let verdict: WatchdogVerdict = self.poll(now);
        if let WatchdogVerdict::Fire { reason } = &verdict {
            termination.ensure_reason(reason);
            termination.terminate_execution();
        }
        verdict
    }

    fn mark_past(&mut self, now: Duration) -> (any_fired: bool)
        ensures
            final(self)@ == old(self)@.fired_at(now@),
            any_fired == any_due(old(self)@.armed, now@),
    {
        let ghost before = self@;
        let mut marked: Vec<ArmedDeadline> = Vec::new();
        let mut rest: Vec<ArmedDeadline> = Vec::new();
        core::mem::swap(&mut rest, &mut self.armed);
        let ghost all = rest@;
        assert(before.armed =~= all.map_values(|entry: ArmedDeadline| entry.view()));
        let mut any_fired: bool = false;
        while rest.len() > 0
            invariant
                rest@.len() + marked@.len() == all.len(),
                rest@ == all.take(rest@.len() as int),
                self.next_id == before.next_id,
                before.armed == all.map_values(|entry: ArmedDeadline| entry.view()),
                forall|k: int|
                    0 <= k < marked@.len() ==> (#[trigger] marked@[k]).view() == after_firing(
                        all[all.len() - 1 - k].view(),
                        now@,
                    ),
                any_fired == exists|k: int|
                    rest@.len() <= k < all.len() && due(#[trigger] before.armed[k], now@),
            decreases rest@.len(),
        {
            let ghost n = rest@.len();
            if let Some(entry) = rest.pop() {
                assert(entry == all[n - 1]);
                let past: bool = !now.is_less(entry.deadline);
                let ghost is_due = due(entry.view(), now@);
                assert(before.armed[n - 1] == entry.view());
                if !entry.fired && past {
                    any_fired = true;
                    assert(due(before.armed[n - 1], now@));
                }
                let entry = ArmedDeadline { fired: entry.fired || past, ..entry };
                marked.push(entry);
                assert(rest@ =~= all.take(rest@.len() as int));
            }
        }
        let ghost reversed = marked@;
        while marked.len() > 0
            invariant
                self.next_id == before.next_id,
                reversed.len() == all.len(),
                marked@ == reversed.take(marked@.len() as int),
                marked@.len() + self.armed@.len() == all.len(),
                forall|k: int|
                    0 <= k < reversed.len() ==> (#[trigger] reversed[k]).view() == after_firing(
                        all[all.len() - 1 - k].view(),
                        now@,
                    ),
                forall|k: int|
                    0 <= k < self.armed@.len() ==> #[trigger] self.armed@[k] == reversed[reversed.len()
                        - 1 - k],
            decreases marked@.len(),
        {
            let ghost n = marked@.len();
            if let Some(entry) = marked.pop() {
                self.armed.push(entry);
                assert(marked@ =~= reversed.take(marked@.len() as int));
            }
        }
        assert(self@.armed =~= before.fired_at(now@).armed) by {
            assert forall|k: int| 0 <= k < self@.armed.len() implies self@.armed[k]
                == before.fired_at(now@).armed[k] by {
                assert(self.armed@[k] == reversed[reversed.len() - 1 - k]);
                assert(reversed[reversed.len() - 1 - k].view() == after_firing(all[k].view(), now@));
            }
        }
        any_fired
    }

    fn find_earliest(&self) -> (at: usize)
        requires
            earliest_fired(self@.armed) is Some,
        ensures
            earliest_fired(self@.armed) == Some(at as int),
            at < self@.armed.len(),
    {
        let ghost armed = self@.armed;
        let mut best: Option<usize> = None;
        let mut i: usize = 0;
        assert(armed.take(0) =~= Seq::empty());
        while i < self.armed.len()
            invariant
                i <= self.armed@.len(),
                armed == self@.armed,
                match best {
                    Some(b) => earliest_fired(armed.take(i as int)) == Some(b as int) && b < i,
                    None => earliest_fired(armed.take(i as int)) is None,
                },
            decreases self.armed@.len() - i,
        {
            assert(armed.take(i + 1).drop_last() =~= armed.take(i as int));
            assert(armed[i as int] == self.armed@[i as int].view());
            if self.armed[i].fired {
                match best {
                    None => {
                        best = Some(i);
                    },
                    Some(b) => {
                        assert(armed[b as int] == self.armed@[b as int].view());
                        if self.armed[i].deadline.is_less(self.armed[b].deadline) {
                            best = Some(i);
                        }
                    },
                }
            }
            i = i + 1;
        }
        assert(armed.take(i as int) =~= armed);
        match best {
            Some(b) => b,
            None => vstd::pervasive::unreached(),
        }
    }

    fn find_next(&self) -> (r: Option<Duration>)
        ensures
            match r {
                Some(deadline) => next_deadline(self@.armed) == Some(deadline@),
                None => next_deadline(self@.armed) is None,
            },
    {
        let ghost armed = self@.armed;
        let mut best: Option<Duration> = None;
        let mut i: usize = 0;
        assert(armed.take(0) =~= Seq::empty());
        while i < self.armed.len()
            invariant
                i <= self.armed@.len(),
                armed == self@.armed,
                match best {
                    Some(b) => next_deadline(armed.take(i as int)) == Some(b@),
                    None => next_deadline(armed.take(i as int)) is None,
                },
            decreases self.armed@.len() - i,
        {
            assert(armed.take(i + 1).drop_last() =~= armed.take(i as int));
            assert(armed[i as int] == self.armed@[i as int].view());
            if !self.armed[i].fired {
                match best {
                    None => {
                        best = Some(self.armed[i].deadline);
                    },
                    Some(b) => {
                        if self.armed[i].deadline.is_less(b) {
                            best = Some(self.armed[i].deadline);
                        }
                    },
                }
            }
            i = i + 1;
        }
        assert(armed.take(i as int) =~= armed);
        best
    }
}

proof fn lemma_position_prefix(armed: Seq<DeadlineView>, n: int, id: u64)
    requires
        0 <= n <= armed.len(),
        position_of(armed.take(n), id) is Some,
    ensures
        position_of(armed, id) == position_of(armed.take(n), id),
    decreases armed.len() - n,
{
    if n < armed.len() {
        assert(armed.take(n + 1).drop_last() =~= armed.take(n));
        lemma_position_prefix(armed, n + 1, id);
    } else {
        assert(armed.take(n) =~= armed);
    }
}

proof fn lemma_earliest_exists(armed: Seq<DeadlineView>, i: int)
    requires
        0 <= i < armed.len(),
        armed[i].fired,
    ensures
        earliest_fired(armed) is Some,
    decreases armed.len(),
{
    if i < armed.len() - 1 {
        lemma_earliest_exists(armed.drop_last(), i);
    }
}

proof fn lemma_next_deadline_unfired(armed: Seq<DeadlineView>)
    ensures
        match next_deadline(armed) {
            Some(t) => exists|i: int|
                0 <= i < armed.len() && !(#[trigger] armed[i]).fired && armed[i].deadline == t,
            None => true,
        },
    decreases armed.len(),
{
    if armed.len() > 0 {
        lemma_next_deadline_unfired(armed.drop_last());
        match next_deadline(armed.drop_last()) {
            Some(t) => {
                let i = choose|i: int|
                    0 <= i < armed.drop_last().len() && !(#[trigger] armed.drop_last()[i]).fired
                        && armed.drop_last()[i].deadline == t;
                assert(!armed[i].fired && armed[i].deadline == t);
                let last = armed[armed.len() - 1];
                assert(last == armed.last());
            },
            None => {
                let last = armed[armed.len() - 1];
                assert(last == armed.last());
            },
        }
    }
}

/// The deadline whose reason is reported is the earliest of those that fired.
pub proof fn law_reported_deadline_is_earliest(armed: Seq<DeadlineView>)
    ensures
        match earliest_fired(armed) {
            Some(i) => 0 <= i < armed.len() && armed[i].fired && forall|j: int|
                0 <= j < armed.len() && (#[trigger] armed[j]).fired ==> armed[i].deadline
                    <= armed[j].deadline,
            None => forall|j: int| 0 <= j < armed.len() ==> !(#[trigger] armed[j]).fired,
        },
    decreases armed.len(),
{
    if armed.len() > 0 {
        law_reported_deadline_is_earliest(armed.drop_last());
        let n = armed.len() - 1;
        assert forall|j: int| 0 <= j < n implies #[trigger] armed[j] == armed.drop_last()[j] by {}
    }
}

/// Ids below the next one, each used once.
pub open spec fn ids_are_distinct(watchdog: WatchdogView) -> bool {
    &&& forall|i: int|
        0 <= i < watchdog.armed.len() ==> (#[trigger] watchdog.armed[i]).id < watchdog.next_id
    &&& forall|i: int, j: int|
        0 <= i < j < watchdog.armed.len() ==> (#[trigger] watchdog.armed[i]).id != (
        #[trigger] watchdog.armed[j]).id
}

pub(crate) proof fn lemma_position_found(armed: Seq<DeadlineView>, id: u64)
    ensures
        match position_of(armed, id) {
            Some(i) => 0 <= i < armed.len() && armed[i].id == id,
            None => forall|i: int| 0 <= i < armed.len() ==> (#[trigger] armed[i]).id != id,
        },
    decreases armed.len(),
{
    if armed.len() > 0 {
        lemma_position_found(armed.drop_last(), id);
        assert forall|j: int| 0 <= j < armed.len() - 1 implies #[trigger] armed[j]
            == armed.drop_last()[j] by {}
        assert(armed[armed.len() - 1] == armed.last());
    }
}

/// A deadline that was armed and disarmed is gone: arming then disarming it leaves
/// the others, and disarming it again finds nothing.
pub proof fn law_disarm_undoes_arm(
    watchdog: WatchdogView,
    now: nat,
    duration: nat,
    reason: Seq<char>,
)
    requires
        ids_are_distinct(watchdog),
    ensures
        ({
            let armed = watchdog.armed_at(now, duration, reason);
            let id = watchdog.next_id;
            &&& armed.disarmed(id).armed == watchdog.armed
            &&& position_of(armed.disarmed(id).armed, id) is None
            &&& armed.disarmed(id).disarmed(id) == armed.disarmed(id)
        }),
{
    let armed = watchdog.armed_at(now, duration, reason);
    let id = watchdog.next_id;
    lemma_position_found(watchdog.armed, id);
    assert(armed.armed.drop_last() =~= watchdog.armed);
    assert(position_of(armed.armed, id) == Some(watchdog.armed.len() as int));
    assert(armed.disarmed(id).armed =~= watchdog.armed);
}

/// A deadline that is past when the watchdog looks has fired afterwards, and
/// stays fired.
pub proof fn law_past_deadline_fires(watchdog: WatchdogView, now: nat, later: nat, i: int)
    requires
        0 <= i < watchdog.armed.len(),
        watchdog.armed[i].deadline <= now,
    ensures
        watchdog.fired_at(now).armed[i].fired,
        watchdog.fired_at(now).fired_at(later).armed[i].fired,
        watchdog.fired_at(now).armed[i].id == watchdog.armed[i].id,
{
}

} // verus!
