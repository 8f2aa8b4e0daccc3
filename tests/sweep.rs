use fuck_ace::matcher::{ProcessEntry, TargetProcessSpec};
use fuck_ace::policy::{
    CallStage, FailureKind, PlatformCall, PlatformError, PolicyRequest, PolicyResult, PolicySet,
    ProcessOutcome, ERROR_ACCESS_DENIED,
};
use fuck_ace::summary::{decimal_text, outcome_any_applied};
use fuck_ace::sweep::{Sweep, SweepResult};
use fuck_ace::topology::{ClassRank, CoreTopology};

fn specs() -> Vec<TargetProcessSpec> {
    vec![
        TargetProcessSpec { match_pattern: "sguard64.exe".to_string(), display_name: "SGuard64.exe".to_string() },
        TargetProcessSpec { match_pattern: "weixin.exe".to_string(), display_name: "Weixin.exe".to_string() },
    ]
}

fn table() -> Vec<ProcessEntry> {
    vec![
        ProcessEntry { pid: 100, image_name: "SGuard64.exe".to_string() },
        ProcessEntry { pid: 200, image_name: "explorer.exe".to_string() },
        ProcessEntry { pid: 300, image_name: "SGuard64.exe".to_string() },
    ]
}

fn all() -> PolicySet {
    PolicySet { affinity: true, priority_class: true, power_throttling: true, io_priority: true, memory_priority: true }
}

fn run(
    topology: &CoreTopology,
    policies: PolicySet,
    mut answer: impl FnMut(&PolicyRequest) -> Result<(), PlatformError>,
) -> (SweepResult, Vec<PolicyRequest>) {
    let specs = specs();
    let mut sweep = Sweep::new(&specs, &table(), topology, ClassRank::Highest, policies, true);
    let mut asked = Vec::new();
    while let Some(req) = sweep.next_request() {
        let r = answer(&req);
        asked.push(req);
        sweep.record(r);
    }
    assert!(sweep.is_finished());
    (sweep.finish(&specs), asked)
}

fn priority_denied(req: &PolicyRequest) -> Result<(), PlatformError> {
    match req.call {
        PlatformCall::SetIdlePriorityClass => Err(PlatformError { stage: CallStage::Apply, code: ERROR_ACCESS_DENIED }),
        _ => Ok(()),
    }
}

#[test]
fn priority_denial_does_not_stop_the_sweep() {
    let topo = CoreTopology { core_count: 4, efficiency_classes: None };
    let (result, asked) = run(&topo, all(), priority_denied);
    assert_eq!(asked.len(), 10);
    assert_eq!(result.outcomes.len(), 2);
    for (o, pid) in result.outcomes.iter().zip([100u32, 300]) {
        assert_eq!(o.pid, pid);
        assert_eq!(o.spec_index, 0);
        assert_eq!(o.affinity, PolicyResult::Applied);
        assert_eq!(o.resolved_core, Some(3));
        assert_eq!(o.priority_class, PolicyResult::Failed { kind: FailureKind::PrivilegeDenied, code: 5 });
        assert_eq!(o.power_throttling, PolicyResult::Applied);
        assert_eq!(o.io_priority, PolicyResult::Applied);
        assert_eq!(o.memory_priority, PolicyResult::Applied);
    }
    assert_eq!(result.found, vec![true, false]);
    assert_eq!(result.restricted, vec![true, false]);
    assert!(result.privilege_elevated);
}

#[test]
fn repeated_sweeps_give_identical_outcomes() {
    let topo = CoreTopology { core_count: 6, efficiency_classes: Some(vec![0, 0, 1, 1, 0, 0]) };
    let (first, asked1) = run(&topo, all(), priority_denied);
    let (second, asked2) = run(&topo, all(), priority_denied);
    assert_eq!(asked1, asked2);
    assert_eq!(first.outcomes, second.outcomes);
    assert_eq!(first.selection, second.selection);
    assert_eq!(first.summary, second.summary);
    assert_eq!(first.selection.core_index, 3);
}

#[test]
fn heterogeneous_affinity_failure_falls_back_in_a_sweep() {
    let topo = CoreTopology { core_count: 5, efficiency_classes: Some(vec![1, 1, 1, 0, 0]) };
    let only_affinity = PolicySet { affinity: true, priority_class: false, power_throttling: false, io_priority: false, memory_priority: false };
    let (result, asked) = run(&topo, only_affinity, |req| match req.call {
        PlatformCall::SetAffinity { mask: 0b100 } => Err(PlatformError { stage: CallStage::Apply, code: 87 }),
        _ => Ok(()),
    });
    assert_eq!(result.selection.core_index, 2);
    assert!(result.selection.is_heterogeneous_target);
    assert_eq!(asked.len(), 4);
    assert_eq!(asked[1].call, PlatformCall::SetAffinity { mask: 0b10000 });
    for o in &result.outcomes {
        assert_eq!(o.affinity, PolicyResult::Applied);
        assert_eq!(o.resolved_core, Some(4));
    }
}

#[test]
fn sweep_without_policies_makes_no_call() {
    let topo = CoreTopology { core_count: 2, efficiency_classes: None };
    let none = PolicySet { affinity: false, priority_class: false, power_throttling: false, io_priority: false, memory_priority: false };
    let (result, asked) = run(&topo, none, |_| Ok(()));
    assert!(asked.is_empty());
    assert_eq!(result.outcomes.len(), 2);
    let untouched = ProcessOutcome {
        pid: 100,
        spec_index: 0,
        affinity: PolicyResult::NotRequested,
        resolved_core: None,
        priority_class: PolicyResult::NotRequested,
        power_throttling: PolicyResult::NotRequested,
        io_priority: PolicyResult::NotRequested,
        memory_priority: PolicyResult::NotRequested,
    };
    assert_eq!(result.outcomes[0], untouched);
    assert_eq!(result.restricted, vec![false, false]);
    assert_eq!(
        result.summary,
        "限制模式: 标准模式\n绑定到最后一个逻辑核心 1\n\
         SGuard64.exe (PID: 100) 所有限制均失败 [CPU亲和性✗, 优先级✗]\n\
         SGuard64.exe (PID: 300) 所有限制均失败 [CPU亲和性✗, 优先级✗]\n\
         未找到Weixin.exe进程\n"
    );
}

#[test]
fn summary_reports_each_policy() {
    let topo = CoreTopology { core_count: 4, efficiency_classes: None };
    let p = PolicySet { affinity: true, priority_class: true, power_throttling: false, io_priority: false, memory_priority: true };
    let (result, _) = run(&topo, p, priority_denied);
    assert_eq!(result.restricted, vec![true, false]);
    assert_eq!(
        result.summary,
        "限制模式: CPU亲和性+进程优先级+内存优先级\n绑定到最后一个逻辑核心 3\n\
         SGuard64.exe (PID: 100) [CPU亲和性→核心3, 优先级✗, 内存优先级✓]\n\
         SGuard64.exe (PID: 300) [CPU亲和性→核心3, 优先级✗, 内存优先级✓]\n\
         未找到Weixin.exe进程\n"
    );
}

#[test]
fn summary_marks_heterogeneous_target() {
    let topo = CoreTopology { core_count: 5, efficiency_classes: Some(vec![0, 0, 0, 1, 1]) };
    let p = PolicySet { affinity: true, priority_class: false, power_throttling: true, io_priority: true, memory_priority: false };
    let (result, _) = run(&topo, p, |_| Err(PlatformError { stage: CallStage::OpenHandle, code: 87 }));
    assert!(result.summary.starts_with("限制模式: CPU亲和性+效率模式+I/O优先级\n按能效等级绑定到逻辑核心 4\n"));
    assert!(result.summary.contains("SGuard64.exe (PID: 100) 所有限制均失败 [CPU亲和性✗(进程已退出, 错误码 87), 优先级✗]\n"));
    assert_eq!(result.restricted, vec![false, false]);
}

#[test]
fn empty_table_finds_nothing() {
    let specs = specs();
    let topo = CoreTopology { core_count: 2, efficiency_classes: None };
    let sweep = Sweep::new(&specs, &Vec::new(), &topo, ClassRank::Highest, all(), false);
    assert!(sweep.is_finished());
    assert_eq!(sweep.next_request(), None);
    let r = sweep.finish(&specs);
    assert!(r.outcomes.is_empty());
    assert_eq!(r.found, vec![false, false]);
    assert_eq!(r.restricted, vec![false, false]);
    assert_eq!(r.summary, "限制模式: CPU亲和性+进程优先级+效率模式+I/O优先级+内存优先级\n绑定到最后一个逻辑核心 1\n未找到SGuard64.exe进程\n未找到Weixin.exe进程\n");
}

#[test]
fn decimal_text_writes_digits() {
    assert_eq!(decimal_text(0), "0");
    assert_eq!(decimal_text(7), "7");
    assert_eq!(decimal_text(10), "10");
    assert_eq!(decimal_text(4294967295), "4294967295");
}

#[test]
fn any_applied_needs_one_applied_policy() {
    let topo = CoreTopology { core_count: 4, efficiency_classes: None };
    let only_priority = PolicySet { affinity: false, priority_class: true, power_throttling: false, io_priority: false, memory_priority: false };
    let (denied, _) = run(&topo, only_priority, priority_denied);
    assert!(!outcome_any_applied(denied.outcomes[0]));
    let (applied, _) = run(&topo, only_priority, |_| Ok(()));
    assert!(outcome_any_applied(applied.outcomes[0]));
    assert_eq!(applied.restricted, vec![true, false]);
    assert!(applied.summary.contains("SGuard64.exe (PID: 100) [CPU亲和性✗, 优先级→最低]\n"));
}
