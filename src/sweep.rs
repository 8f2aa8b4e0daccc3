//! One sweep: topology selection, process matching, and the policy calls for
//! every matched process, driven one answer at a time.

use vstd::prelude::*;
use crate::matcher::{find_matches, matched_pids, ProcessEntry, TargetProcessSpec};
use crate::policy::{
    answers_are_recorded_independently, any_enabled, calls_left, first_stage, next_request_of,
    record_answer, start_application, untouched_outcome, PlatformError, PolicyRequest, PolicySet, ProcessApplication, ProcessOutcome,
};
use crate::summary::{any_applied, describe_sweep, outcome_any_applied, summary_text};
use crate::topology::{
    is_selection_for, select_target_core, selection_is_unique, ClassRank, CoreTopology,
    TargetCoreSelection,
};

verus! {

/// A matched process, with the position of the spec that matched it.
#[derive(Clone, Copy, Debug, PartialEq, Eq, Structural)]
pub struct SweepTarget {
    pub spec_index: usize,
    pub pid: u32,
}

/// What a sweep hands to its sink.
pub struct SweepResult {
    pub selection: TargetCoreSelection,
    /// One outcome per matched process, in the order of the specs and then of the table.
    pub outcomes: Vec<ProcessOutcome>,
    /// For each spec, whether any live process matched it.
    pub found: Vec<bool>,
    /// For each spec, whether at least one policy was applied to a process it matched.
    pub restricted: Vec<bool>,
    /// Whether broader access rights were obtained before the sweep.
    pub privilege_elevated: bool,
    /// A human-readable account of the sweep.
    pub summary: String,
}

/// The state of a sweep in progress.
pub struct Sweep {
    targets: Vec<SweepTarget>,
    found: Vec<bool>,
    policies: PolicySet,
    selection: TargetCoreSelection,
    core_count: u32,
    privilege_elevated: bool,
    cursor: usize,
    current: ProcessApplication,
    outcomes: Vec<ProcessOutcome>,
}

/// The mathematical model of a sweep in progress.
pub struct SweepView {
    pub targets: Seq<SweepTarget>,
    pub found: Seq<bool>,
    pub policies: PolicySet,
    pub selection: TargetCoreSelection,
    pub core_count: u32,
    pub privilege_elevated: bool,
    /// Number of targets whose every requested policy has an answer.
    pub cursor: int,
    /// The application in progress for `targets[cursor]`.
    pub current: ProcessApplication,
    pub outcomes: Seq<ProcessOutcome>,
}

impl View for Sweep {
    type V = SweepView;

    closed spec fn view(&self) -> SweepView {
        SweepView {
            targets: self.targets@,
            found: self.found@,
            policies: self.policies,
            selection: self.selection,
            core_count: self.core_count,
            privilege_elevated: self.privilege_elevated,
            cursor: self.cursor as int,
            current: self.current,
            outcomes: self.outcomes@,
        }
    }
}

/// The targets for per-spec match lists: spec by spec, each in table order.
pub open spec fn targets_of(matches: Seq<Seq<u32>>) -> Seq<SweepTarget>
    decreases matches.len(),
{
    if matches.len() == 0 {
        Seq::empty()
    } else {
        targets_of(matches.drop_last()) + matches.last().map(
            |k: int, pid: u32| SweepTarget { spec_index: (matches.len() - 1) as usize, pid },
        )
    }
}

/// The per-spec match lists of a table.
pub open spec fn spec_matches(specs: Seq<TargetProcessSpec>, table: Seq<ProcessEntry>) -> Seq<Seq<u32>> {
    Seq::new(specs.len(), |i: int| matched_pids(specs[i].match_pattern@, table))
}

pub open spec fn application_for(s: SweepView, t: SweepTarget) -> ProcessApplication {
    start_application(t.pid, t.spec_index, s.policies, s.selection, s.core_count)
}

/// The first target, or a placeholder for a sweep with none.
pub open spec fn first_target(targets: Seq<SweepTarget>) -> SweepTarget {
    if targets.len() > 0 {
        targets[0]
    } else {
        SweepTarget { spec_index: 0, pid: 0 }
    }
}

pub open spec fn is_finished(s: SweepView) -> bool {
    s.cursor >= s.targets.len()
}

/// The call a sweep asks for next.
pub open spec fn sweep_request(s: SweepView) -> Option<PolicyRequest> {
    if is_finished(s) {
        None
    } else {
        next_request_of(s.current)
    }
}

/// The sweep after the answer `r` to its pending call: the answer goes to the
/// current process, and once that process has every answer its outcome is
/// kept and the next target begins.
pub open spec fn sweep_record(s: SweepView, r: Result<(), PlatformError>) -> SweepView {
    if is_finished(s) {
        s
    } else {
        let a = record_answer(s.current, r);
        if a.stage is Done {
            let c = s.cursor + 1;
            SweepView {
                cursor: c,
                outcomes: s.outcomes.push(a.outcome),
                current: if c < s.targets.len() {
                    application_for(s, s.targets[c])
                } else {
                    a
                },
                ..s
            }
        } else {
            SweepView { current: a, ..s }
        }
    }
}

/// An upper bound on the calls a sweep still asks for.
pub open spec fn sweep_calls_left(s: SweepView) -> nat {
    if is_finished(s) {
        0
    } else {
        calls_left(s.current) + 6 * (s.targets.len() - s.cursor - 1) as nat
    }
}

/// The invariant of a sweep in progress.
pub open spec fn sweep_wf(s: SweepView) -> bool {
    &&& 0 <= s.cursor <= s.targets.len()
    &&& s.outcomes.len() == s.cursor
    &&& forall|j: int|
        0 <= j < s.cursor ==> (#[trigger] s.outcomes[j]).pid == s.targets[j].pid
            && s.outcomes[j].spec_index == s.targets[j].spec_index
    &&& s.cursor < s.targets.len() ==> {
        &&& s.current.pid == s.targets[s.cursor].pid
        &&& s.current.outcome.pid == s.targets[s.cursor].pid
        &&& s.current.outcome.spec_index == s.targets[s.cursor].spec_index
        &&& s.current.policies == s.policies
        &&& s.current.selection == s.selection
        &&& s.current.core_count == s.core_count
        &&& !(s.current.stage is Done)
        &&& any_enabled(s.policies)
    }
}

/// The sweep over `table` for `specs`, before any call has been made.
pub open spec fn is_initial_sweep(
    s: SweepView,
    specs: Seq<TargetProcessSpec>,
    table: Seq<ProcessEntry>,
    topology: CoreTopology,
    rank: ClassRank,
    policies: PolicySet,
    privilege_elevated: bool,
) -> bool {
    &&& s.targets == targets_of(spec_matches(specs, table))
    &&& s.found.len() == specs.len()
    &&& forall|i: int| 0 <= i < specs.len() ==> #[trigger] s.found[i] == (matched_pids(specs[i].match_pattern@, table).len() > 0)
    &&& is_selection_for(topology, rank, s.selection)
    &&& s.core_count == topology.core_count
    &&& s.policies == policies
    &&& s.privilege_elevated == privilege_elevated
    &&& s.current == application_for(s, first_target(s.targets))
    &&& if any_enabled(policies) {
        &&& s.cursor == 0
        &&& s.outcomes.len() == 0
    } else {
        &&& s.cursor == s.targets.len()
        &&& s.outcomes == s.targets.map(|k: int, t: SweepTarget| untouched_outcome(t.pid, t.spec_index))
    }
}

/// The sweep after the answers `answers`, in order.
pub open spec fn run_sweep(s: SweepView, answers: Seq<Result<(), PlatformError>>) -> SweepView
    decreases answers.len(),
{
    if answers.len() == 0 {
        s
    } else {
        run_sweep(sweep_record(s, answers[0]), answers.drop_first())
    }
}

/// Two sweeps over the same specs, process table, topology and policies,
/// answered alike by the platform, make the same calls and end with the same
/// outcomes: nothing carries over from one sweep to the next.
pub proof fn sweeps_are_repeatable(
    s1: SweepView,
    s2: SweepView,
    specs: Seq<TargetProcessSpec>,
    table: Seq<ProcessEntry>,
    topology: CoreTopology,
    rank: ClassRank,
    policies: PolicySet,
    privilege_elevated: bool,
    answers: Seq<Result<(), PlatformError>>,
)
    requires
        is_initial_sweep(s1, specs, table, topology, rank, policies, privilege_elevated),
        is_initial_sweep(s2, specs, table, topology, rank, policies, privilege_elevated),
    ensures
        run_sweep(s1, answers) == run_sweep(s2, answers),
        run_sweep(s1, answers).outcomes == run_sweep(s2, answers).outcomes,
{
    selection_is_unique(topology, rank, s1.selection, s2.selection);
    assert(s1.found =~= s2.found);
    assert(s1.outcomes =~= s2.outcomes);
    assert(s1 == s2);
}

/// Whatever the answer, the sweep moves on alike: the same process is next,
/// the outcomes recorded so far are kept, and the calls left decrease. The one
/// exception is the fallback retry after a failed heterogeneous affinity call.
pub proof fn sweep_moves_on_whatever_the_answer(
    s: SweepView,
    r1: Result<(), PlatformError>,
    r2: Result<(), PlatformError>,
)
    requires
        sweep_wf(s),
        !is_finished(s),
        !(s.current.stage is Affinity && s.selection.is_heterogeneous_target),
    ensures
        sweep_record(s, r1).cursor == sweep_record(s, r2).cursor,
        sweep_record(s, r1).outcomes.subrange(0, s.cursor) == s.outcomes,
        sweep_record(s, r1).current.stage == sweep_record(s, r2).current.stage,
        sweep_calls_left(sweep_record(s, r1)) < sweep_calls_left(s),
{
    answers_are_recorded_independently(s.current, r1, r2);
    assert(sweep_record(s, r1).outcomes.subrange(0, s.cursor) =~= s.outcomes);
}

/// Some process that `spec_index` matched had at least one policy applied.
pub open spec fn restricted_for(outcomes: Seq<ProcessOutcome>, spec_index: int) -> bool {
    exists|j: int|
        0 <= j < outcomes.len() && (#[trigger] outcomes[j]).spec_index == spec_index && any_applied(outcomes[j])
}

/// Once a process has every answer, the next matched process starts afresh:
/// it is asked for every enabled policy from the first one on, whatever the
/// earlier processes' answers were.
pub proof fn later_targets_start_afresh(s: SweepView, r: Result<(), PlatformError>)
    requires
        sweep_wf(s),
        !is_finished(s),
        record_answer(s.current, r).stage is Done,
        s.cursor + 1 < s.targets.len(),
    ensures
        sweep_record(s, r).cursor == s.cursor + 1,
        sweep_record(s, r).outcomes == s.outcomes.push(record_answer(s.current, r).outcome),
        sweep_record(s, r).current == application_for(s, s.targets[s.cursor + 1]),
        sweep_record(s, r).current.stage == first_stage(s.policies),
        next_request_of(sweep_record(s, r).current) is Some,
{
}

fn restricted_flags(outcomes: &Vec<ProcessOutcome>, spec_count: usize) -> (r: Vec<bool>)
    ensures
        r@.len() == spec_count,
        forall|i: int| 0 <= i < spec_count ==> #[trigger] r@[i] == restricted_for(outcomes@, i),
{
    let mut r: Vec<bool> = Vec::new();
    let mut i: usize = 0;
    while i < spec_count
        invariant
            i <= spec_count,
            r@.len() == i,
            forall|k: int| 0 <= k < i ==> #[trigger] r@[k] == restricted_for(outcomes@, k),
        decreases spec_count - i,
    {
        let mut hit = false;
        let mut j: usize = 0;
        while j < outcomes.len()
            invariant
                j <= outcomes@.len(),
                hit <==> exists|m: int|
                    0 <= m < j && (#[trigger] outcomes@[m]).spec_index == i && any_applied(outcomes@[m]),
            decreases outcomes@.len() - j,
        {
            if outcomes[j].spec_index == i && outcome_any_applied(outcomes[j]) {
                hit = true;
            }
            j = j + 1;
        }
        r.push(hit);
        i = i + 1;
    }
    r
}

proof fn lemma_targets_prefix(m: Seq<Seq<u32>>, i: int)
    requires
        0 <= i < m.len(),
    ensures
        targets_of(m.subrange(0, i + 1)) == targets_of(m.subrange(0, i)) + m[i].map(
            |k: int, pid: u32| SweepTarget { spec_index: i as usize, pid },
        ),
{
    assert(m.subrange(0, i + 1).drop_last() == m.subrange(0, i));
}

/// The targets for the per-spec match lists.
fn collect_targets(matches: &Vec<Vec<u32>>) -> (r: Vec<SweepTarget>)
    ensures
        r@ == targets_of(matches@.map(|k: int, v: Vec<u32>| v@)),
{
    let ghost m = matches@.map(|k: int, v: Vec<u32>| v@);
    let mut r: Vec<SweepTarget> = Vec::new();
    let mut i: usize = 0;
    while i < matches.len()
        invariant
            i <= matches@.len(),
            m.len() == matches@.len(),
            forall|k: int| 0 <= k < m.len() ==> #[trigger] m[k] == matches@[k]@,
            r@ == targets_of(m.subrange(0, i as int)),
        decreases matches@.len() - i,
    {
        let pids = &matches[i];
        let ghost before = r@;
        let ghost tail = m[i as int].map(|k: int, pid: u32| SweepTarget { spec_index: i as usize, pid });
        let mut j: usize = 0;
        while j < pids.len()
            invariant
                i < matches@.len(),
                j <= pids@.len(),
                pids@ == m[i as int],
                tail == m[i as int].map(|k: int, pid: u32| SweepTarget { spec_index: i as usize, pid }),
                r@ == before + tail.subrange(0, j as int),
            decreases pids@.len() - j,
        {
            r.push(SweepTarget { spec_index: i, pid: pids[j] });
            assert(tail.subrange(0, j as int + 1) == tail.subrange(0, j as int).push(tail[j as int]));
            j = j + 1;
        }
        assert(tail.subrange(0, j as int) == tail);
        proof {
            lemma_targets_prefix(m, i as int);
        }
        i = i + 1;
    }
    assert(m.subrange(0, m.len() as int) == m);
    r
}

impl Sweep {
    /// Starts a sweep: selects the target core, matches the specs against the
    /// table, and prepares the first process.
    pub fn new(
        specs: &Vec<TargetProcessSpec>,
        table: &Vec<ProcessEntry>,
        topology: &CoreTopology,
        rank: ClassRank,
        policies: PolicySet,
        privilege_elevated: bool,
    ) -> (r: Sweep)
        ensures
            sweep_wf(r@),
            is_initial_sweep(r@, specs@, table@, *topology, rank, policies, privilege_elevated),
    {
        let selection = select_target_core(topology, rank);
        let matches = find_matches(specs, table);
        let ghost m = matches@.map(|k: int, v: Vec<u32>| v@);
        assert(m == spec_matches(specs@, table@));
        let targets = collect_targets(&matches);
        let mut found: Vec<bool> = Vec::new();
        let mut i: usize = 0;
        while i < matches.len()
            invariant
                i <= matches@.len(),
                matches@.len() == specs@.len(),
                forall|k: int| 0 <= k < specs@.len() ==> (#[trigger] matches@[k])@ == matched_pids(specs@[k].match_pattern@, table@),
                found@.len() == i,
                forall|k: int| 0 <= k < i ==> #[trigger] found@[k] == (matched_pids(specs@[k].match_pattern@, table@).len() > 0),
            decreases matches@.len() - i,
        {
            found.push(matches[i].len() > 0);
            i = i + 1;
        }
        let core_count = topology.core_count;
        let first = if targets.len() > 0 {
            targets[0]
        } else {
            SweepTarget { spec_index: 0, pid: 0 }
        };
        let current = ProcessApplication::new(first.pid, first.spec_index, policies, selection, core_count);
        let mut outcomes: Vec<ProcessOutcome> = Vec::new();
        let mut cursor: usize = 0;
        if !policies.any() {
            while cursor < targets.len()
                invariant
                    cursor <= targets@.len(),
                    outcomes@ == targets@.subrange(0, cursor as int).map(
                        |k: int, t: SweepTarget| untouched_outcome(t.pid, t.spec_index),
                    ),
                decreases targets@.len() - cursor,
            {
                let t = targets[cursor];
                let a = ProcessApplication::new(t.pid, t.spec_index, policies, selection, core_count);
                outcomes.push(a.outcome);
                assert(targets@.subrange(0, cursor as int + 1) == targets@.subrange(0, cursor as int).push(t));
                cursor = cursor + 1;
            }
            assert(targets@.subrange(0, cursor as int) == targets@);
        }
        Sweep {
            targets,
            found,
            policies,
            selection,
            core_count,
            privilege_elevated,
            cursor,
            current,
            outcomes,
        }
    }

    /// Whether every matched process has every requested answer.
    pub fn is_finished(&self) -> (r: bool)
        requires
            sweep_wf(self@),
        ensures
            r == is_finished(self@),
    {
        self.cursor >= self.targets.len()
    }

    /// The call to make next, or `None` once the sweep is finished.
    pub fn next_request(&self) -> (r: Option<PolicyRequest>)
        requires
            sweep_wf(self@),
        ensures
            r == sweep_request(self@),
            r is None <==> is_finished(self@),
    {
        if self.cursor >= self.targets.len() {
            None
        } else {
            self.current.next_request()
        }
    }

    /// Records the answer to the pending call.
    pub fn record(&mut self, r: Result<(), PlatformError>)
        requires
            sweep_wf(old(self)@),
        ensures
            sweep_wf(final(self)@),
            final(self)@ == sweep_record(old(self)@, r),
            !is_finished(old(self)@) ==> sweep_calls_left(final(self)@) < sweep_calls_left(old(self)@),
    {
        if self.cursor >= self.targets.len() {
            return;
        }
        self.current.record(r);
        if self.current.is_done() {
            self.outcomes.push(self.current.outcome);
            self.cursor = self.cursor + 1;
            if self.cursor < self.targets.len() {
                let t = self.targets[self.cursor];
                self.current = ProcessApplication::new(
                    t.pid,
                    t.spec_index,
                    self.policies,
                    self.selection,
                    self.core_count,
                );
            }
        }
    }

    /// The result of a finished sweep, with its summary naming each process by
    /// the display name of the spec in `specs` that matched it.
    pub fn finish(self, specs: &Vec<TargetProcessSpec>) -> (r: SweepResult)
        requires
            sweep_wf(self@),
            is_finished(self@),
        ensures
            r.selection == self@.selection,
            r.outcomes@ == self@.outcomes,
            r.found@ == self@.found,
            r.restricted@.len() == specs@.len(),
            forall|i: int| 0 <= i < specs@.len() ==> #[trigger] r.restricted@[i] == restricted_for(self@.outcomes, i),
            r.privilege_elevated == self@.privilege_elevated,
            r.summary@ == summary_text(self@.policies, self@.selection, self@.outcomes, self@.found, specs@),
    {
        let summary = describe_sweep(self.policies, self.selection, &self.outcomes, &self.found, specs);
        let restricted = restricted_flags(&self.outcomes, specs.len());
        SweepResult {
            selection: self.selection,
            outcomes: self.outcomes,
            found: self.found,
            restricted,
            privilege_elevated: self.privilege_elevated,
            summary,
        }
    }
}

} // verus!
