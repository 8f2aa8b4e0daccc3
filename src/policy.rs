//! Application of the throttling policies to one process, one platform call
//! at a time, with the affinity fallback.
//!
//! The caller performs each requested call on a process handle opened with
//! the requested access rights and released when the call returns, and hands
//! the answer back with `record`.

use vstd::prelude::*;
use crate::topology::{fallback_selection, last_core, mask_of, TargetCoreSelection};

verus! {

/// Win32 `ERROR_INVALID_FUNCTION`.
pub const ERROR_INVALID_FUNCTION: u32 = 1;
/// Win32 `ERROR_ACCESS_DENIED`.
pub const ERROR_ACCESS_DENIED: u32 = 5;
/// Win32 `ERROR_NOT_SUPPORTED`.
pub const ERROR_NOT_SUPPORTED: u32 = 50;
/// Win32 `ERROR_INVALID_PARAMETER`: from `OpenProcess`, the pid names no live process.
pub const ERROR_INVALID_PARAMETER: u32 = 87;

/// `ProcessIoPriority` in `PROCESS_INFORMATION_CLASS`, as numbered from Windows Vista on.
pub const PROCESS_INFO_CLASS_IO_PRIORITY: u32 = 33;
/// `ProcessMemoryPriority` in `PROCESS_INFORMATION_CLASS`, as numbered from Windows 8 on.
pub const PROCESS_INFO_CLASS_MEMORY_PRIORITY: u32 = 39;
/// `IoPriorityVeryLow`, the lowest I/O priority.
pub const IO_PRIORITY_VERY_LOW: u32 = 0;
/// `MEMORY_PRIORITY_VERY_LOW`, the lowest memory priority.
pub const MEMORY_PRIORITY_VERY_LOW: u32 = 1;

/// The five independent policies a sweep may apply.
#[derive(Clone, Copy, Debug, PartialEq, Eq, Structural)]
pub struct PolicySet {
    pub affinity: bool,
    pub priority_class: bool,
    pub power_throttling: bool,
    pub io_priority: bool,
    pub memory_priority: bool,
}

/// Why a policy could not be applied.
#[derive(Clone, Copy, Debug, PartialEq, Eq, Structural)]
pub enum FailureKind {
    /// The process ended between enumeration and opening its handle.
    ProcessNotFound,
    /// Opening or modifying the process was refused.
    PrivilegeDenied,
    /// The running OS version does not offer the policy.
    UnsupportedPolicy,
    /// Any other platform error.
    Other,
}

/// What became of one policy for one process.
#[derive(Clone, Copy, Debug, PartialEq, Eq, Structural)]
pub enum PolicyResult {
    NotRequested,
    Applied,
    Failed { kind: FailureKind, code: u32 },
}

/// Where a platform call failed.
#[derive(Clone, Copy, Debug, PartialEq, Eq, Structural)]
pub enum CallStage {
    OpenHandle,
    Apply,
}

/// A failed platform call: the stage and the Win32 error code.
#[derive(Clone, Copy, Debug, PartialEq, Eq, Structural)]
pub struct PlatformError {
    pub stage: CallStage,
    pub code: u32,
}

/// The access rights a process handle is opened with.
#[derive(Clone, Copy, Debug, PartialEq, Eq, Structural)]
pub struct AccessRights {
    /// `PROCESS_SET_INFORMATION`
    pub set_information: bool,
    /// `PROCESS_QUERY_LIMITED_INFORMATION`
    pub query_limited_information: bool,
}

/// One platform call on a process.
#[derive(Clone, Copy, Debug, PartialEq, Eq, Structural)]
pub enum PlatformCall {
    /// `SetProcessAffinityMask`
    SetAffinity { mask: u64 },
    /// `SetPriorityClass` with `IDLE_PRIORITY_CLASS`
    SetIdlePriorityClass,
    /// `SetProcessInformation(ProcessPowerThrottling)` with execution speed throttled
    EnablePowerThrottling,
    /// `SetProcessInformation` with a numbered class and a `u32` value
    SetProcessInformation { info_class: u32, value: u32 },
}

/// A platform call to make on the process `pid`.
#[derive(Clone, Copy, Debug, PartialEq, Eq, Structural)]
pub struct PolicyRequest {
    pub pid: u32,
    pub call: PlatformCall,
    pub access: AccessRights,
}

/// The per-process record of a sweep.
#[derive(Clone, Copy, Debug, PartialEq, Eq, Structural)]
pub struct ProcessOutcome {
    pub pid: u32,
    /// Position of the matching spec in the sweep's configuration.
    pub spec_index: usize,
    pub affinity: PolicyResult,
    /// The core the last affinity call targeted, when affinity was requested.
    pub resolved_core: Option<u32>,
    pub priority_class: PolicyResult,
    pub power_throttling: PolicyResult,
    pub io_priority: PolicyResult,
    pub memory_priority: PolicyResult,
}

/// The next call to make for one process.
#[derive(Clone, Copy, Debug, PartialEq, Eq, Structural)]
pub enum Stage {
    Affinity,
    AffinityFallback,
    PriorityClass,
    PowerThrottling,
    IoPriority,
    MemoryPriority,
    Done,
}

/// The policies applied to one process, and what has come of them so far.
#[derive(Clone, Copy, Debug, PartialEq, Eq, Structural)]
pub struct ProcessApplication {
    pub pid: u32,
    pub policies: PolicySet,
    pub selection: TargetCoreSelection,
    /// Number of logical cores on the topology the sweep runs on.
    pub core_count: u32,
    pub stage: Stage,
    pub outcome: ProcessOutcome,
}

pub open spec fn any_enabled(p: PolicySet) -> bool {
    p.affinity || p.priority_class || p.power_throttling || p.io_priority || p.memory_priority
}

pub open spec fn stage_after_memory(p: PolicySet) -> Stage {
    Stage::Done
}

pub open spec fn stage_after_io(p: PolicySet) -> Stage {
    if p.memory_priority { Stage::MemoryPriority } else { stage_after_memory(p) }
}

pub open spec fn stage_after_power(p: PolicySet) -> Stage {
    if p.io_priority { Stage::IoPriority } else { stage_after_io(p) }
}

pub open spec fn stage_after_priority(p: PolicySet) -> Stage {
    if p.power_throttling { Stage::PowerThrottling } else { stage_after_power(p) }
}

pub open spec fn stage_after_affinity(p: PolicySet) -> Stage {
    if p.priority_class { Stage::PriorityClass } else { stage_after_priority(p) }
}

/// The first stage for a process: the first enabled policy, in the fixed order
/// affinity, priority class, power throttling, I/O priority, memory priority.
pub open spec fn first_stage(p: PolicySet) -> Stage {
    if p.affinity { Stage::Affinity } else { stage_after_affinity(p) }
}

/// The error taxonomy over Win32 codes.
pub open spec fn failure_kind_of(e: PlatformError) -> FailureKind {
    if e.code == ERROR_ACCESS_DENIED {
        FailureKind::PrivilegeDenied
    } else if e.stage == CallStage::OpenHandle && e.code == ERROR_INVALID_PARAMETER {
        FailureKind::ProcessNotFound
    } else if e.stage == CallStage::Apply && (e.code == ERROR_INVALID_FUNCTION || e.code
        == ERROR_NOT_SUPPORTED || e.code == ERROR_INVALID_PARAMETER) {
        FailureKind::UnsupportedPolicy
    } else {
        FailureKind::Other
    }
}

pub open spec fn result_of(r: Result<(), PlatformError>) -> PolicyResult {
    match r {
        Ok(_) => PolicyResult::Applied,
        Err(e) => PolicyResult::Failed { kind: failure_kind_of(e), code: e.code },
    }
}

/// Least privilege: every call sets information; only the affinity call also queries.
pub open spec fn access_for(call: PlatformCall) -> AccessRights {
    AccessRights {
        set_information: true,
        query_limited_information: call is SetAffinity,
    }
}

pub open spec fn request_for(pid: u32, call: PlatformCall) -> PolicyRequest {
    PolicyRequest { pid, call, access: access_for(call) }
}

pub open spec fn untouched_outcome(pid: u32, spec_index: usize) -> ProcessOutcome {
    ProcessOutcome {
        pid,
        spec_index,
        affinity: PolicyResult::NotRequested,
        resolved_core: None,
        priority_class: PolicyResult::NotRequested,
        power_throttling: PolicyResult::NotRequested,
        io_priority: PolicyResult::NotRequested,
        memory_priority: PolicyResult::NotRequested,
    }
}

pub open spec fn start_application(
    pid: u32,
    spec_index: usize,
    policies: PolicySet,
    selection: TargetCoreSelection,
    core_count: u32,
) -> ProcessApplication {
    ProcessApplication {
        pid,
        policies,
        selection,
        core_count,
        stage: first_stage(policies),
        outcome: untouched_outcome(pid, spec_index),
    }
}

/// The call a process application asks for next, if any.
pub open spec fn next_request_of(a: ProcessApplication) -> Option<PolicyRequest> {
    match a.stage {
        Stage::Affinity => Some(request_for(a.pid, PlatformCall::SetAffinity { mask: a.selection.core_mask })),
        Stage::AffinityFallback => Some(
            request_for(a.pid, PlatformCall::SetAffinity { mask: mask_of(last_core(a.core_count)) }),
        ),
        Stage::PriorityClass => Some(request_for(a.pid, PlatformCall::SetIdlePriorityClass)),
        Stage::PowerThrottling => Some(request_for(a.pid, PlatformCall::EnablePowerThrottling)),
        Stage::IoPriority => Some(
            request_for(
                a.pid,
                PlatformCall::SetProcessInformation {
                    info_class: PROCESS_INFO_CLASS_IO_PRIORITY,
                    value: IO_PRIORITY_VERY_LOW,
                },
            ),
        ),
        Stage::MemoryPriority => Some(
            request_for(
                a.pid,
                PlatformCall::SetProcessInformation {
                    info_class: PROCESS_INFO_CLASS_MEMORY_PRIORITY,
                    value: MEMORY_PRIORITY_VERY_LOW,
                },
            ),
        ),
        Stage::Done => None,
    }
}

/// The application after the answer `r` to its pending call.
///
/// A failed affinity call on a core chosen by efficiency class is retried once
/// on the highest addressable core; every other answer is recorded for its own
/// policy alone, and the next enabled policy follows whatever the answer was.
pub open spec fn record_answer(a: ProcessApplication, r: Result<(), PlatformError>) -> ProcessApplication {
    let p = a.policies;
    let o = a.outcome;
    match a.stage {
        Stage::Affinity => if r is Err && a.selection.is_heterogeneous_target {
            ProcessApplication { stage: Stage::AffinityFallback, ..a }
        } else {
            ProcessApplication {
                stage: stage_after_affinity(p),
                outcome: ProcessOutcome {
                    affinity: result_of(r),
                    resolved_core: Some(a.selection.core_index),
                    ..o
                },
                ..a
            }
        },
        Stage::AffinityFallback => ProcessApplication {
            stage: stage_after_affinity(p),
            outcome: ProcessOutcome {
                affinity: result_of(r),
                resolved_core: Some(last_core(a.core_count)),
                ..o
            },
            ..a
        },
        Stage::PriorityClass => ProcessApplication {
            stage: stage_after_priority(p),
            outcome: ProcessOutcome { priority_class: result_of(r), ..o },
            ..a
        },
        Stage::PowerThrottling => ProcessApplication {
            stage: stage_after_power(p),
            outcome: ProcessOutcome { power_throttling: result_of(r), ..o },
            ..a
        },
        Stage::IoPriority => ProcessApplication {
            stage: stage_after_io(p),
            outcome: ProcessOutcome { io_priority: result_of(r), ..o },
            ..a
        },
        Stage::MemoryPriority => ProcessApplication {
            stage: stage_after_memory(p),
            outcome: ProcessOutcome { memory_priority: result_of(r), ..o },
            ..a
        },
        Stage::Done => a,
    }
}

/// An upper bound on the calls an application still asks for.
pub open spec fn calls_left(a: ProcessApplication) -> nat {
    match a.stage {
        Stage::Affinity => 6,
        Stage::AffinityFallback => 5,
        Stage::PriorityClass => 4,
        Stage::PowerThrottling => 3,
        Stage::IoPriority => 2,
        Stage::MemoryPriority => 1,
        Stage::Done => 0,
    }
}

/// When the affinity call on a core chosen by efficiency class fails, one
/// retry is made on the highest addressable core (the last core, on a machine
/// of at most 64 cores), and the affinity result is the retry's answer alone.
pub proof fn failed_heterogeneous_affinity_falls_back(
    a: ProcessApplication,
    primary: PlatformError,
    retry: Result<(), PlatformError>,
)
    requires
        a.stage is Affinity,
        a.selection.is_heterogeneous_target,
    ensures
        record_answer(a, Err(primary)).stage is AffinityFallback,
        next_request_of(record_answer(a, Err(primary))) == Some(
            request_for(a.pid, PlatformCall::SetAffinity { mask: mask_of(last_core(a.core_count)) }),
        ),
        record_answer(record_answer(a, Err(primary)), retry).outcome.resolved_core == Some(last_core(a.core_count)),
        record_answer(record_answer(a, Err(primary)), retry).outcome.affinity == result_of(retry),
        record_answer(record_answer(a, Err(primary)), retry).stage == stage_after_affinity(a.policies),
        1 <= a.core_count <= 64 ==> last_core(a.core_count) == a.core_count - 1,
{
}

/// Each answer is recorded for the pending policy alone, and the next policy
/// follows whatever the answer was: a failure never keeps the remaining
/// policies from being attempted. The one exception is the fallback retry
/// after a failed heterogeneous affinity call.
pub proof fn answers_are_recorded_independently(
    a: ProcessApplication,
    r1: Result<(), PlatformError>,
    r2: Result<(), PlatformError>,
)
    requires
        !(a.stage is Affinity && a.selection.is_heterogeneous_target),
    ensures
        record_answer(a, r1).stage == record_answer(a, r2).stage,
        !(record_answer(a, r1).stage is AffinityFallback),
        !(a.stage is Affinity) && !(a.stage is AffinityFallback) ==> record_answer(a, r1).outcome.affinity
            == a.outcome.affinity && record_answer(a, r1).outcome.resolved_core == a.outcome.resolved_core,
        !(a.stage is PriorityClass) ==> record_answer(a, r1).outcome.priority_class == a.outcome.priority_class,
        !(a.stage is PowerThrottling) ==> record_answer(a, r1).outcome.power_throttling
            == a.outcome.power_throttling,
        !(a.stage is IoPriority) ==> record_answer(a, r1).outcome.io_priority == a.outcome.io_priority,
        !(a.stage is MemoryPriority) ==> record_answer(a, r1).outcome.memory_priority
            == a.outcome.memory_priority,
        a.stage is PriorityClass ==> record_answer(a, r1).outcome.priority_class == result_of(r1),
        a.stage is PowerThrottling ==> record_answer(a, r1).outcome.power_throttling == result_of(r1),
        a.stage is IoPriority ==> record_answer(a, r1).outcome.io_priority == result_of(r1),
        a.stage is MemoryPriority ==> record_answer(a, r1).outcome.memory_priority == result_of(r1),
        a.stage is Affinity ==> record_answer(a, r1).outcome.affinity == result_of(r1),
{
}

/// Classifies a failed platform call.
pub fn classify_failure(e: PlatformError) -> (r: FailureKind)
    ensures
        r == failure_kind_of(e),
{
    if e.code == ERROR_ACCESS_DENIED {
        FailureKind::PrivilegeDenied
    } else if e.stage == CallStage::OpenHandle && e.code == ERROR_INVALID_PARAMETER {
        FailureKind::ProcessNotFound
    } else if e.stage == CallStage::Apply && (e.code == ERROR_INVALID_FUNCTION || e.code
        == ERROR_NOT_SUPPORTED || e.code == ERROR_INVALID_PARAMETER) {
        FailureKind::UnsupportedPolicy
    } else {
        FailureKind::Other
    }
}

/// The recorded result of a platform call's answer.
pub fn policy_result(r: Result<(), PlatformError>) -> (out: PolicyResult)
    ensures
        out == result_of(r),
{
    match r {
        Ok(_) => PolicyResult::Applied,
        Err(e) => PolicyResult::Failed { kind: classify_failure(e), code: e.code },
    }
}

/// The access rights that a handle for `call` is opened with.
pub fn required_access(call: PlatformCall) -> (r: AccessRights)
    ensures
        r == access_for(call),
{
    let query = match call {
        PlatformCall::SetAffinity { .. } => true,
        _ => false,
    };
    AccessRights { set_information: true, query_limited_information: query }
}

fn after_affinity(p: PolicySet) -> (r: Stage)
    ensures
        r == stage_after_affinity(p),
{
    if p.priority_class {
        Stage::PriorityClass
    } else if p.power_throttling {
        Stage::PowerThrottling
    } else if p.io_priority {
        Stage::IoPriority
    } else if p.memory_priority {
        Stage::MemoryPriority
    } else {
        Stage::Done
    }
}

fn after_priority(p: PolicySet) -> (r: Stage)
    ensures
        r == stage_after_priority(p),
{
    if p.power_throttling {
        Stage::PowerThrottling
    } else if p.io_priority {
        Stage::IoPriority
    } else if p.memory_priority {
        Stage::MemoryPriority
    } else {
        Stage::Done
    }
}

fn after_power(p: PolicySet) -> (r: Stage)
    ensures
        r == stage_after_power(p),
{
    if p.io_priority {
        Stage::IoPriority
    } else if p.memory_priority {
        Stage::MemoryPriority
    } else {
        Stage::Done
    }
}

fn after_io(p: PolicySet) -> (r: Stage)
    ensures
        r == stage_after_io(p),
{
    if p.memory_priority {
        Stage::MemoryPriority
    } else {
        Stage::Done
    }
}

impl PolicySet {
    /// Whether any of the five policies is requested.
    pub fn any(&self) -> (r: bool)
        ensures
            r == any_enabled(*self),
    {
        self.affinity || self.priority_class || self.power_throttling || self.io_priority
            || self.memory_priority
    }
}

impl ProcessApplication {
    /// Starts applying `policies` to the process `pid`, restricted to `selection`
    /// on a topology of `core_count` cores.
    pub fn new(
        pid: u32,
        spec_index: usize,
        policies: PolicySet,
        selection: TargetCoreSelection,
        core_count: u32,
    ) -> (r: ProcessApplication)
        ensures
            r == start_application(pid, spec_index, policies, selection, core_count),
            r.stage is Done <==> !any_enabled(policies),
    {
        let stage = if policies.affinity {
            Stage::Affinity
        } else {
            after_affinity(policies)
        };
        ProcessApplication {
            pid,
            policies,
            selection,
            core_count,
            stage,
            outcome: ProcessOutcome {
                pid,
                spec_index,
                affinity: PolicyResult::NotRequested,
                resolved_core: None,
                priority_class: PolicyResult::NotRequested,
                power_throttling: PolicyResult::NotRequested,
                io_priority: PolicyResult::NotRequested,
                memory_priority: PolicyResult::NotRequested,
            },
        }
    }

    /// Whether every requested policy has an answer.
    pub fn is_done(&self) -> (r: bool)
        ensures
            r == (self.stage is Done),
    {
        match self.stage {
            Stage::Done => true,
            _ => false,
        }
    }

    /// The call to make next, or `None` once every requested policy has an answer.
    pub fn next_request(&self) -> (r: Option<PolicyRequest>)
        ensures
            r == next_request_of(*self),
    {
        let call = match self.stage {
            Stage::Affinity => PlatformCall::SetAffinity { mask: self.selection.core_mask },
            Stage::AffinityFallback => {
                let fallback = fallback_selection(self.core_count);
                PlatformCall::SetAffinity { mask: fallback.core_mask }
            },
            Stage::PriorityClass => PlatformCall::SetIdlePriorityClass,
            Stage::PowerThrottling => PlatformCall::EnablePowerThrottling,
            Stage::IoPriority => PlatformCall::SetProcessInformation {
                info_class: PROCESS_INFO_CLASS_IO_PRIORITY,
                value: IO_PRIORITY_VERY_LOW,
            },
            Stage::MemoryPriority => PlatformCall::SetProcessInformation {
                info_class: PROCESS_INFO_CLASS_MEMORY_PRIORITY,
                value: MEMORY_PRIORITY_VERY_LOW,
            },
            Stage::Done => return None,
        };
        Some(PolicyRequest { pid: self.pid, call, access: required_access(call) })
    }

    /// Records the answer to the pending call.
    pub fn record(&mut self, r: Result<(), PlatformError>)
        ensures
            *final(self) == record_answer(*old(self), r),
            !(old(self).stage is Done) ==> calls_left(*final(self)) < calls_left(*old(self)),
    {
        let p = self.policies;
        match self.stage {
            Stage::Affinity => {
                if r.is_err() && self.selection.is_heterogeneous_target {
                    self.stage = Stage::AffinityFallback;
                } else {
                    self.outcome.affinity = policy_result(r);
                    self.outcome.resolved_core = Some(self.selection.core_index);
                    self.stage = after_affinity(p);
                }
            },
            Stage::AffinityFallback => {
                let fallback = fallback_selection(self.core_count);
                self.outcome.affinity = policy_result(r);
                self.outcome.resolved_core = Some(fallback.core_index);
                self.stage = after_affinity(p);
            },
            Stage::PriorityClass => {
                self.outcome.priority_class = policy_result(r);
                self.stage = after_priority(p);
            },
            Stage::PowerThrottling => {
                self.outcome.power_throttling = policy_result(r);
                self.stage = after_power(p);
            },
            Stage::IoPriority => {
                self.outcome.io_priority = policy_result(r);
                self.stage = after_io(p);
            },
            Stage::MemoryPriority => {
                self.outcome.memory_priority = policy_result(r);
                self.stage = Stage::Done;
            },
            Stage::Done => {},
        }
    }
}

} // verus!
