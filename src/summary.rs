//! The human-readable summary of a sweep, in the wording the tool reports to
//! its users.

use vstd::prelude::*;
use crate::matcher::TargetProcessSpec;
use crate::policy::{FailureKind, PolicyResult, PolicySet, ProcessOutcome};
use crate::topology::TargetCoreSelection;

verus! {

pub open spec fn digit_text(d: nat) -> Seq<char> {
    if d == 0 { "0"@ }
    else if d == 1 { "1"@ }
    else if d == 2 { "2"@ }
    else if d == 3 { "3"@ }
    else if d == 4 { "4"@ }
    else if d == 5 { "5"@ }
    else if d == 6 { "6"@ }
    else if d == 7 { "7"@ }
    else if d == 8 { "8"@ }
    else { "9"@ }
}

/// The decimal digits of `n`, without leading zeros.
pub open spec fn decimal(n: nat) -> Seq<char>
    decreases n,
{
    if n < 10 {
        digit_text(n)
    } else {
        decimal(n / 10) + digit_text(n % 10)
    }
}


pub open spec fn with_mode(acc: Seq<char>, on: bool, name: Seq<char>) -> Seq<char> {
    if !on {
        acc
    } else if acc.len() == 0 {
        name
    } else {
        acc + "+"@ + name
    }
}

/// The requested policies joined by `+`, or the standard mode when none is.
pub open spec fn mode_text(p: PolicySet) -> Seq<char> {
    let t = with_mode(
        with_mode(
            with_mode(
                with_mode(with_mode(Seq::empty(), p.affinity, "CPU亲和性"@), p.priority_class, "进程优先级"@),
                p.power_throttling,
                "效率模式"@,
            ),
            p.io_priority,
            "I/O优先级"@,
        ),
        p.memory_priority,
        "内存优先级"@,
    );
    if t.len() == 0 { "标准模式"@ } else { t }
}

pub open spec fn kind_text(k: FailureKind) -> Seq<char> {
    match k {
        FailureKind::ProcessNotFound => "进程已退出"@,
        FailureKind::PrivilegeDenied => "权限不足"@,
        FailureKind::UnsupportedPolicy => "系统不支持"@,
        FailureKind::Other => "调用失败"@,
    }
}

/// The reason of a failure, as `(kind, 错误码 code)`.
pub open spec fn failure_text(kind: FailureKind, code: u32) -> Seq<char> {
    "("@ + kind_text(kind) + ", 错误码 "@ + decimal(code as nat) + ")"@
}

pub open spec fn display_of(specs: Seq<TargetProcessSpec>, i: int) -> Seq<char> {
    if 0 <= i < specs.len() { specs[i].display_name@ } else { "未知进程"@ }
}

pub open spec fn core_text(core: Option<u32>) -> Seq<char> {
    match core {
        Some(c) => decimal(c as nat),
        None => Seq::empty(),
    }
}

/// The affinity detail: the core on success, the reason on failure.
pub open spec fn affinity_detail(o: ProcessOutcome) -> Seq<char> {
    match o.affinity {
        PolicyResult::Applied => "CPU亲和性→核心"@ + core_text(o.resolved_core),
        PolicyResult::Failed { kind, code } => "CPU亲和性✗"@ + failure_text(kind, code),
        PolicyResult::NotRequested => "CPU亲和性✗"@,
    }
}

pub open spec fn priority_detail(o: ProcessOutcome) -> Seq<char> {
    if o.priority_class is Applied { "优先级→最低"@ } else { "优先级✗"@ }
}

/// A detail that is listed only when its policy was applied.
pub open spec fn applied_detail(r: PolicyResult, name: Seq<char>) -> Seq<char> {
    if r is Applied { ", "@ + name } else { Seq::empty() }
}

/// The details of one process, joined by `, `.
pub open spec fn details_text(o: ProcessOutcome) -> Seq<char> {
    affinity_detail(o) + ", "@ + priority_detail(o) + applied_detail(o.power_throttling, "效率模式✓"@)
        + applied_detail(o.io_priority, "I/O优先级✓"@) + applied_detail(o.memory_priority, "内存优先级✓"@)
}

/// At least one policy was applied to the process.
pub open spec fn any_applied(o: ProcessOutcome) -> bool {
    ||| o.affinity is Applied
    ||| o.priority_class is Applied
    ||| o.power_throttling is Applied
    ||| o.io_priority is Applied
    ||| o.memory_priority is Applied
}

pub open spec fn outcome_head(o: ProcessOutcome, specs: Seq<TargetProcessSpec>) -> Seq<char> {
    display_of(specs, o.spec_index as int) + " (PID: "@ + decimal(o.pid as nat) + ") "@ + if any_applied(o) {
        Seq::empty()
    } else {
        "所有限制均失败 "@
    }
}

/// One line per process: its name, its pid, whether every policy failed, and the details.
pub open spec fn outcome_line(o: ProcessOutcome, specs: Seq<TargetProcessSpec>) -> Seq<char> {
    outcome_head(o, specs) + "["@ + details_text(o) + "]\n"@
}

pub open spec fn outcome_lines(outcomes: Seq<ProcessOutcome>, specs: Seq<TargetProcessSpec>) -> Seq<char>
    decreases outcomes.len(),
{
    if outcomes.len() == 0 {
        Seq::empty()
    } else {
        outcome_lines(outcomes.drop_last(), specs) + outcome_line(outcomes.last(), specs)
    }
}

/// One line for each of the first `k` specs that matched no process.
pub open spec fn missing_lines(found: Seq<bool>, specs: Seq<TargetProcessSpec>, k: int) -> Seq<char>
    decreases k,
{
    if k <= 0 {
        Seq::empty()
    } else if found[k - 1] {
        missing_lines(found, specs, k - 1)
    } else {
        missing_lines(found, specs, k - 1) + "未找到"@ + display_of(specs, k - 1) + "进程\n"@
    }
}

pub open spec fn selection_text(s: TargetCoreSelection) -> Seq<char> {
    if s.is_heterogeneous_target {
        "按能效等级绑定到逻辑核心 "@ + decimal(s.core_index as nat) + "\n"@
    } else {
        "绑定到最后一个逻辑核心 "@ + decimal(s.core_index as nat) + "\n"@
    }
}

/// The whole summary of a sweep.
pub open spec fn summary_text(
    policies: PolicySet,
    selection: TargetCoreSelection,
    outcomes: Seq<ProcessOutcome>,
    found: Seq<bool>,
    specs: Seq<TargetProcessSpec>,
) -> Seq<char> {
    "限制模式: "@ + mode_text(policies) + "\n"@ + selection_text(selection) + outcome_lines(outcomes, specs)
        + missing_lines(found, specs, found.len() as int)
}

fn digit_str(d: u32) -> (r: &'static str)
    requires
        d < 10,
    ensures
        r@ == digit_text(d as nat),
{
    match d {
        0 => "0",
        1 => "1",
        2 => "2",
        3 => "3",
        4 => "4",
        5 => "5",
        6 => "6",
        7 => "7",
        8 => "8",
        _ => "9",
    }
}

/// Appends the decimal digits of `n`.
pub fn append_decimal(s: &mut String, n: u32)
    ensures
        final(s)@ == old(s)@ + decimal(n as nat),
    decreases n,
{
    if n >= 10 {
        append_decimal(s, n / 10);
        s.append(digit_str(n % 10));
        assert(final(s)@ =~= old(s)@ + decimal(n as nat));
    } else {
        s.append(digit_str(n));
    }
}

/// The decimal digits of `n`.
pub fn decimal_text(n: u32) -> (r: String)
    ensures
        r@ == decimal(n as nat),
{
    let mut s = String::new();
    append_decimal(&mut s, n);
    assert(s@ =~= decimal(n as nat));
    s
}

fn append_mode(s: &mut String, any: bool, on: bool, name: &str) -> (r: bool)
    requires
        any == (old(s)@.len() > 0),
        name@.len() > 0,
    ensures
        final(s)@ == with_mode(old(s)@, on, name@),
        r == (final(s)@.len() > 0),
{
    if !on {
        any
    } else {
        if any {
            s.append("+");
        }
        s.append(name);
        true
    }
}

fn mode_string(policies: PolicySet) -> (r: String)
    ensures
        r@ == mode_text(policies),
{
    proof {
        reveal_strlit("CPU亲和性");
        reveal_strlit("进程优先级");
        reveal_strlit("效率模式");
        reveal_strlit("I/O优先级");
        reveal_strlit("内存优先级");
    }
    let mut modes = String::new();
    let mut any = false;
    any = append_mode(&mut modes, any, policies.affinity, "CPU亲和性");
    any = append_mode(&mut modes, any, policies.priority_class, "进程优先级");
    any = append_mode(&mut modes, any, policies.power_throttling, "效率模式");
    any = append_mode(&mut modes, any, policies.io_priority, "I/O优先级");
    any = append_mode(&mut modes, any, policies.memory_priority, "内存优先级");
    if any {
        modes
    } else {
        String::from_str("标准模式")
    }
}

fn append_kind(s: &mut String, k: FailureKind)
    ensures
        final(s)@ == old(s)@ + kind_text(k),
{
    match k {
        FailureKind::ProcessNotFound => s.append("进程已退出"),
        FailureKind::PrivilegeDenied => s.append("权限不足"),
        FailureKind::UnsupportedPolicy => s.append("系统不支持"),
        FailureKind::Other => s.append("调用失败"),
    }
}

fn append_failure(s: &mut String, kind: FailureKind, code: u32)
    ensures
        final(s)@ == old(s)@ + failure_text(kind, code),
{
    let ghost start = s@;
    s.append("(");
    append_kind(s, kind);
    s.append(", 错误码 ");
    append_decimal(s, code);
    s.append(")");
    assert(s@ =~= start + failure_text(kind, code));
}

fn append_display(s: &mut String, specs: &Vec<TargetProcessSpec>, i: usize)
    ensures
        final(s)@ == old(s)@ + display_of(specs@, i as int),
{
    if i < specs.len() {
        s.append(specs[i].display_name.as_str());
    } else {
        s.append("未知进程");
    }
}

fn append_affinity_detail(s: &mut String, o: ProcessOutcome)
    ensures
        final(s)@ == old(s)@ + affinity_detail(o),
{
    let ghost start = s@;
    match o.affinity {
        PolicyResult::Applied => {
            s.append("CPU亲和性→核心");
            match o.resolved_core {
                Some(c) => append_decimal(s, c),
                None => {},
            }
        },
        PolicyResult::Failed { kind, code } => {
            s.append("CPU亲和性✗");
            append_failure(s, kind, code);
        },
        PolicyResult::NotRequested => s.append("CPU亲和性✗"),
    }
    assert(s@ =~= start + affinity_detail(o));
}

fn is_applied(r: PolicyResult) -> (b: bool)
    ensures
        b == (r is Applied),
{
    match r {
        PolicyResult::Applied => true,
        _ => false,
    }
}

fn append_applied_detail(s: &mut String, r: PolicyResult, name: &str)
    ensures
        final(s)@ == old(s)@ + applied_detail(r, name@),
{
    let ghost start = s@;
    if is_applied(r) {
        s.append(", ");
        s.append(name);
        assert(s@ =~= start + applied_detail(r, name@));
    } else {
        assert(s@ =~= start + applied_detail(r, name@));
    }
}

fn append_details(s: &mut String, o: ProcessOutcome)
    ensures
        final(s)@ == old(s)@ + details_text(o),
{
    let ghost start = s@;
    append_affinity_detail(s, o);
    s.append(", ");
    if is_applied(o.priority_class) {
        s.append("优先级→最低");
    } else {
        s.append("优先级✗");
    }
    let ghost p1 = affinity_detail(o) + ", "@ + priority_detail(o);
    assert(s@ =~= start + p1);
    append_applied_detail(s, o.power_throttling, "效率模式✓");
    let ghost p2 = p1 + applied_detail(o.power_throttling, "效率模式✓"@);
    assert(s@ =~= start + p2);
    append_applied_detail(s, o.io_priority, "I/O优先级✓");
    let ghost p3 = p2 + applied_detail(o.io_priority, "I/O优先级✓"@);
    assert(s@ =~= start + p3);
    append_applied_detail(s, o.memory_priority, "内存优先级✓");
    assert(s@ =~= start + details_text(o));
}

/// Whether at least one policy was applied to the process.
pub fn outcome_any_applied(o: ProcessOutcome) -> (r: bool)
    ensures
        r == any_applied(o),
{
    is_applied(o.affinity) || is_applied(o.priority_class) || is_applied(o.power_throttling)
        || is_applied(o.io_priority) || is_applied(o.memory_priority)
}

fn append_outcome_head(s: &mut String, o: ProcessOutcome, specs: &Vec<TargetProcessSpec>)
    ensures
        final(s)@ == old(s)@ + outcome_head(o, specs@),
{
    let ghost start = s@;
    append_display(s, specs, o.spec_index);
    let ghost p1 = display_of(specs@, o.spec_index as int);
    s.append(" (PID: ");
    assert(s@ =~= start + (p1 + " (PID: "@));
    append_decimal(s, o.pid);
    assert(s@ =~= start + (p1 + " (PID: "@ + decimal(o.pid as nat)));
    s.append(") ");
    let ghost p2 = p1 + " (PID: "@ + decimal(o.pid as nat) + ") "@;
    assert(s@ =~= start + p2);
    if !outcome_any_applied(o) {
        s.append("所有限制均失败 ");
    }
    assert(s@ =~= start + outcome_head(o, specs@));
}

fn append_outcome(s: &mut String, o: ProcessOutcome, specs: &Vec<TargetProcessSpec>)
    ensures
        final(s)@ == old(s)@ + outcome_line(o, specs@),
{
    let ghost start = s@;
    append_outcome_head(s, o, specs);
    s.append("[");
    let ghost p1 = outcome_head(o, specs@) + "["@;
    assert(s@ =~= start + p1);
    append_details(s, o);
    let ghost p2 = p1 + details_text(o);
    assert(s@ =~= start + p2);
    s.append("]\n");
    assert(s@ =~= start + outcome_line(o, specs@));
}

fn append_selection(s: &mut String, selection: TargetCoreSelection)
    ensures
        final(s)@ == old(s)@ + selection_text(selection),
{
    let ghost start = s@;
    if selection.is_heterogeneous_target {
        s.append("按能效等级绑定到逻辑核心 ");
    } else {
        s.append("绑定到最后一个逻辑核心 ");
    }
    append_decimal(s, selection.core_index);
    s.append("\n");
    assert(s@ =~= start + selection_text(selection));
}

/// The summary of a sweep: its mode, its target core, one line per process,
/// and one line per spec that matched nothing.
pub fn describe_sweep(
    policies: PolicySet,
    selection: TargetCoreSelection,
    outcomes: &Vec<ProcessOutcome>,
    found: &Vec<bool>,
    specs: &Vec<TargetProcessSpec>,
) -> (r: String)
    ensures
        r@ == summary_text(policies, selection, outcomes@, found@, specs@),
{
    let modes = mode_string(policies);
    let mut s = String::new();
    s.append("限制模式: ");
    s.append(modes.as_str());
    s.append("\n");
    assert(s@ =~= "限制模式: "@ + mode_text(policies) + "\n"@);
    append_selection(&mut s, selection);
    let ghost head = s@;
    let mut i: usize = 0;
    while i < outcomes.len()
        invariant
            i <= outcomes@.len(),
            s@ == head + outcome_lines(outcomes@.subrange(0, i as int), specs@),
        decreases outcomes@.len() - i,
    {
        append_outcome(&mut s, outcomes[i], specs);
        let ghost next = outcomes@.subrange(0, i as int + 1);
        assert(next.drop_last() =~= outcomes@.subrange(0, i as int));
        assert(s@ =~= head + outcome_lines(next, specs@));
        i = i + 1;
    }
    assert(outcomes@.subrange(0, i as int) =~= outcomes@);
    let ghost body = s@;
    let mut k: usize = 0;
    while k < found.len()
        invariant
            k <= found@.len(),
            s@ == body + missing_lines(found@, specs@, k as int),
        decreases found@.len() - k,
    {
        if !found[k] {
            let ghost before = s@;
            s.append("未找到");
            append_display(&mut s, specs, k);
            let ghost p1 = "未找到"@ + display_of(specs@, k as int);
            assert(s@ =~= before + p1);
            s.append("进程\n");
        }
        assert(s@ =~= body + missing_lines(found@, specs@, k as int + 1));
        k = k + 1;
    }
    assert(s@ =~= summary_text(policies, selection, outcomes@, found@, specs@));
    s
}

} // verus!
