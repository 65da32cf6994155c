//! The dependency-ordered submission plan of one vector addition, and its
//! correctness under out-of-order execution.
//!
//! One logical operation — compute over two input arrays, produce one
//! output array — becomes four non-blocking submissions: write input a,
//! write input b, execute the kernel, read the output back. The queue
//! executes submissions in any order absent dependencies; ordering is
//! enforced exclusively by each submission's wait list of completion
//! events. The theorem here is that the plan's wiring alone suffices:
//! under *every* completion order the device scheduler may choose, as long
//! as it respects the wait lists, the bytes read back are the elementwise
//! sum of the inputs.
//!
//! The embedding program performs the unsafe enqueues; it takes the plan,
//! submits its operations in plan order, and passes each submission the
//! completion events of the submissions its wait list names.

use vstd::prelude::*;

use crate::buffer::MemMode;
use crate::errors::Stage;
use crate::exec;

verus! {

/// The four device operations of one vector addition.
#[derive(Clone, Copy, PartialEq, Eq, Structural, Debug)]
pub enum OpKind {
    WriteInputA,
    WriteInputB,
    ExecuteKernel,
    ReadOutput,
}

/// One non-blocking submission: its operation, and the indices of the
/// earlier submissions whose completion events it must wait on.
#[derive(Debug)]
pub struct Submission {
    pub kind: OpKind,
    pub waits: Vec<usize>,
}

/// Every wait names an earlier submission: the completion events form a
/// directed acyclic graph.
pub open spec fn plan_wellformed(plan: Seq<Submission>) -> bool {
    forall|i: int, j: int|
        0 <= i < plan.len() && 0 <= j < plan[i].waits@.len() ==> (plan[i].waits@[j] as int) < i
}

/// The shape of the vector-addition plan: the two input writes wait on
/// nothing, the kernel execution waits on both writes, and the read-back
/// waits on the execution alone.
pub open spec fn is_vecadd_plan(plan: Seq<Submission>) -> bool {
    &&& plan.len() == 4
    &&& plan[0].kind == OpKind::WriteInputA && plan[0].waits@ == Seq::<usize>::empty()
    &&& plan[1].kind == OpKind::WriteInputB && plan[1].waits@ == Seq::<usize>::empty()
    &&& plan[2].kind == OpKind::ExecuteKernel && plan[2].waits@ == seq![0usize, 1usize]
    &&& plan[3].kind == OpKind::ReadOutput && plan[3].waits@ == seq![2usize]
}

/// Builds the submission plan of one vector addition.
pub fn vecadd_plan() -> (plan: Vec<Submission>)
    ensures
        is_vecadd_plan(plan@),
        plan_wellformed(plan@),
{
    let mut plan: Vec<Submission> = Vec::new();
    plan.push(Submission { kind: OpKind::WriteInputA, waits: Vec::new() });
    plan.push(Submission { kind: OpKind::WriteInputB, waits: Vec::new() });
    let mut exec_waits: Vec<usize> = Vec::new();
    exec_waits.push(0);
    exec_waits.push(1);
    plan.push(Submission { kind: OpKind::ExecuteKernel, waits: exec_waits });
    let mut read_waits: Vec<usize> = Vec::new();
    read_waits.push(2);
    plan.push(Submission { kind: OpKind::ReadOutput, waits: read_waits });
    proof {
        assert(plan@[0].waits@ =~= Seq::<usize>::empty());
        assert(plan@[1].waits@ =~= Seq::<usize>::empty());
        assert(plan@[2].waits@ =~= seq![0usize, 1usize]);
        assert(plan@[3].waits@ =~= seq![2usize]);
    }
    plan
}

/// The data the operations move, as mathematical sequences: the three
/// caller-visible host regions and the three device buffers they back.
#[verifier::ext_equal]
pub struct DataFlow {
    pub host_a: Seq<int>,
    pub host_b: Seq<int>,
    pub host_c: Seq<int>,
    pub dev_a: Seq<int>,
    pub dev_b: Seq<int>,
    pub dev_c: Seq<int>,
}

/// What one completed operation does to the data, for an operation size of
/// `n` elements. The kernel is bounds-checked against the true element
/// count, as its contract requires: it computes exactly `n` sums.
pub open spec fn apply_op(s: DataFlow, kind: OpKind, n: nat) -> DataFlow {
    match kind {
        OpKind::WriteInputA => DataFlow { dev_a: s.host_a.take(n as int), ..s },
        OpKind::WriteInputB => DataFlow { dev_b: s.host_b.take(n as int), ..s },
        OpKind::ExecuteKernel => DataFlow {
            dev_c: Seq::new(n, |i: int| s.dev_a[i] + s.dev_b[i]),
            ..s
        },
        OpKind::ReadOutput => DataFlow { host_c: s.dev_c.take(n as int), ..s },
    }
}

/// The data after the plan's operations have completed in the given order
/// (a sequence of plan indices), each over `n` elements.
pub open spec fn run_plan(s: DataFlow, plan: Seq<Submission>, order: Seq<int>, n: nat) -> DataFlow
    decreases order.len(),
{
    if order.len() == 0 {
        s
    } else {
        apply_op(run_plan(s, plan, order.drop_last(), n), plan[order.last()].kind, n)
    }
}

/// Whether `order` is a completion order the device scheduler may choose
/// for `plan`: every submission completes exactly once, and none before a
/// submission its wait list names.
pub open spec fn valid_completion_order(plan: Seq<Submission>, order: Seq<int>) -> bool {
    &&& order.len() == plan.len()
    &&& forall|p: int| 0 <= p < order.len() ==> 0 <= #[trigger] order[p] < plan.len()
    &&& forall|k: int| 0 <= k < plan.len() ==> order.contains(k)
    &&& forall|p: int, q: int|
        0 <= p < order.len() && 0 <= q < order.len()
            && plan[order[p]].waits@.contains(order[q] as usize) ==> q < p
}

/// The only completion orders of the vector-addition plan are the two in
/// which both writes precede the kernel execution and the read-back comes
/// last.
pub proof fn lemma_vecadd_orders(plan: Seq<Submission>, order: Seq<int>)
    requires
        is_vecadd_plan(plan),
        valid_completion_order(plan, order),
    ensures
        order == seq![0int, 1int, 2int, 3int] || order == seq![1int, 0int, 2int, 3int],
{
    assert(order.contains(0int) && order.contains(1int) && order.contains(2int)
        && order.contains(3int));
    let p0 = choose|p: int| 0 <= p < order.len() && order[p] == 0int;
    let p1 = choose|p: int| 0 <= p < order.len() && order[p] == 1int;
    let p2 = choose|p: int| 0 <= p < order.len() && order[p] == 2int;
    let p3 = choose|p: int| 0 <= p < order.len() && order[p] == 3int;
    assert(0 <= p0 < 4 && order[p0] == 0);
    assert(0 <= p1 < 4 && order[p1] == 1);
    assert(0 <= p2 < 4 && order[p2] == 2);
    assert(0 <= p3 < 4 && order[p3] == 3);
    // the kernel execution waits on both writes, the read-back on the kernel
    assert(plan[2].waits@[0] == 0usize && plan[2].waits@[1] == 1usize);
    assert(plan[3].waits@[0] == 2usize);
    assert(plan[order[p2]].waits@.contains(order[p0] as usize));
    assert(plan[order[p2]].waits@.contains(order[p1] as usize));
    assert(plan[order[p3]].waits@.contains(order[p2] as usize));
    assert(p0 < p2 && p1 < p2 && p2 < p3);
    assert(p2 == 2 && p3 == 3);
    if p0 == 0 {
        assert(p1 == 1);
        assert(order =~= seq![0int, 1int, 2int, 3int]);
    } else {
        assert(p0 == 1 && p1 == 0);
        assert(order =~= seq![1int, 0int, 2int, 3int]);
    }
}

/// Correctness of the wiring: under every completion order the scheduler
/// may choose, the host output region afterwards holds the elementwise sum
/// of the first `n` elements of the two host inputs.
pub proof fn lemma_vecadd_plan_correct(
    s: DataFlow,
    plan: Seq<Submission>,
    order: Seq<int>,
    n: nat,
)
    requires
        is_vecadd_plan(plan),
        valid_completion_order(plan, order),
        n <= s.host_a.len(),
        n <= s.host_b.len(),
    ensures
        run_plan(s, plan, order, n).host_c.len() == n,
        forall|i: int|
            0 <= i < n ==> run_plan(s, plan, order, n).host_c[i] == s.host_a[i] + s.host_b[i],
        run_plan(s, plan, order, n).host_a == s.host_a,
        run_plan(s, plan, order, n).host_b == s.host_b,
{
    lemma_vecadd_orders(plan, order);
    lemma_vecadd_in_order(s, plan, order, n);
}

/// Evaluates the run for the two concrete completion orders.
proof fn lemma_vecadd_in_order(s: DataFlow, plan: Seq<Submission>, order: Seq<int>, n: nat)
    requires
        is_vecadd_plan(plan),
        order == seq![0int, 1int, 2int, 3int] || order == seq![1int, 0int, 2int, 3int],
        n <= s.host_a.len(),
        n <= s.host_b.len(),
    ensures
        run_plan(s, plan, order, n).host_c.len() == n,
        forall|i: int|
            0 <= i < n ==> run_plan(s, plan, order, n).host_c[i] == s.host_a[i] + s.host_b[i],
        run_plan(s, plan, order, n).host_a == s.host_a,
        run_plan(s, plan, order, n).host_b == s.host_b,
{
    reveal_with_fuel(run_plan, 5);
    let written = DataFlow {
        dev_a: s.host_a.take(n as int),
        dev_b: s.host_b.take(n as int),
        ..s
    };
    let executed = apply_op(written, OpKind::ExecuteKernel, n);
    let done = apply_op(executed, OpKind::ReadOutput, n);
    if order == seq![0int, 1int, 2int, 3int] {
        let o1 = seq![0int];
        let o2 = seq![0int, 1int];
        let o3 = seq![0int, 1int, 2int];
        assert(o1.drop_last() =~= Seq::<int>::empty());
        assert(o2.drop_last() =~= o1);
        assert(o3.drop_last() =~= o2);
        assert(order.drop_last() =~= o3);
        assert(run_plan(s, plan, o1, n) == apply_op(s, OpKind::WriteInputA, n));
        assert(run_plan(s, plan, o2, n) =~= written);
        assert(run_plan(s, plan, o3, n) == apply_op(run_plan(s, plan, o2, n), OpKind::ExecuteKernel, n));
        assert(run_plan(s, plan, order, n) == done);
    } else {
        let o1 = seq![1int];
        let o2 = seq![1int, 0int];
        let o3 = seq![1int, 0int, 2int];
        assert(o1.drop_last() =~= Seq::<int>::empty());
        assert(o2.drop_last() =~= o1);
        assert(o3.drop_last() =~= o2);
        assert(order.drop_last() =~= o3);
        assert(run_plan(s, plan, o1, n) == apply_op(s, OpKind::WriteInputB, n));
        assert(run_plan(s, plan, o2, n) =~= written);
        assert(run_plan(s, plan, o3, n) == apply_op(run_plan(s, plan, o2, n), OpKind::ExecuteKernel, n));
        assert(run_plan(s, plan, order, n) == done);
    }
    assert(executed.dev_c == Seq::new(n, |i: int| written.dev_a[i] + written.dev_b[i]));
    assert(done.host_c =~= executed.dev_c);
    assert forall|i: int| 0 <= i < n implies done.host_c[i] == s.host_a[i] + s.host_b[i] by {
        assert(written.dev_a[i] == s.host_a[i]);
        assert(written.dev_b[i] == s.host_b[i]);
    }
}

/// Runs of the host-fallback path and of the device model agree bit for
/// bit: when the host regions mirror two integer inputs and the plan
/// completes in any valid order over their common length, the output region
/// holds exactly the elementwise sum that the host fallback computes.
pub proof fn lemma_paths_agree(
    s: DataFlow,
    plan: Seq<Submission>,
    order: Seq<int>,
    a: Seq<i32>,
    b: Seq<i32>,
    c: Seq<i32>,
    n: nat,
)
    requires
        is_vecadd_plan(plan),
        valid_completion_order(plan, order),
        s.host_a == a.map_values(|x: i32| x as int),
        s.host_b == b.map_values(|x: i32| x as int),
        n == vstd::math::min(a.len() as int, b.len() as int),
        crate::is_elementwise_sum(a, b, c),
    ensures
        run_plan(s, plan, order, n).host_c == c.map_values(|x: i32| x as int),
{
    lemma_vecadd_plan_correct(s, plan, order, n);
    assert(run_plan(s, plan, order, n).host_c =~= c.map_values(|x: i32| x as int));
}

/// Orchestrating twice in sequence over the same host inputs yields the
/// same output both times: the first run leaves the input regions as they
/// were, so the second run reads back the same sums.
pub proof fn lemma_orchestrate_idempotent(
    s: DataFlow,
    plan: Seq<Submission>,
    order1: Seq<int>,
    order2: Seq<int>,
    n: nat,
)
    requires
        is_vecadd_plan(plan),
        valid_completion_order(plan, order1),
        valid_completion_order(plan, order2),
        n <= s.host_a.len(),
        n <= s.host_b.len(),
    ensures
        ({
            let once = run_plan(s, plan, order1, n);
            let twice = run_plan(once, plan, order2, n);
            twice.host_c == once.host_c
        }),
{
    let once = run_plan(s, plan, order1, n);
    lemma_vecadd_plan_correct(s, plan, order1, n);
    lemma_vecadd_plan_correct(once, plan, order2, n);
    assert(run_plan(once, plan, order2, n).host_c =~= once.host_c);
}

/// The number of elements one logical operation covers: the length of the
/// shorter input, to which unequal-length inputs are truncated.
pub fn common_size(a_len: usize, b_len: usize) -> (r: usize)
    ensures
        r == vstd::math::min(a_len as int, b_len as int),
{
    if a_len <= b_len {
        a_len
    } else {
        b_len
    }
}

/// The access modes of the three device buffers of one logical operation:
/// the two inputs are read-only to the device, the output write-only.
pub fn buffer_modes() -> (r: (MemMode, MemMode, MemMode))
    ensures
        r == (MemMode::Read, MemMode::Read, MemMode::Write),
{
    (MemMode::Read, MemMode::Read, MemMode::Write)
}

/// The default-initialized host output region of one logical operation.
pub fn zeroed_output(size: usize) -> (r: Vec<i32>)
    ensures
        r@.len() == size,
        forall|i: int| 0 <= i < size ==> r@[i] == 0i32,
{
    let mut r: Vec<i32> = Vec::new();
    let mut i: usize = 0;
    while i < size
        invariant
            i <= size,
            r@.len() == i,
            forall|j: int| 0 <= j < i ==> r@[j] == 0i32,
        decreases size - i,
    {
        r.push(0);
        i += 1;
    }
    r
}

/// The orchestrator's phases for one logical operation, with a failed
/// terminal reachable from any phase, carrying the stage that failed.
#[derive(Clone, Copy, PartialEq, Eq, Structural, Debug)]
pub enum Phase {
    Init,
    BuffersAllocated,
    KernelReady,
    Dispatched,
    Completed,
    Failed(Stage),
}

/// What the embedding program must do next in a given phase, for an
/// operation over `size` elements with work groups of `local` items:
/// allocate the three host-backed buffers, build the kernel and bind its
/// four arguments, submit the plan's writes and the kernel dispatch, then
/// submit the read-back and drain the queue with a finish barrier. A
/// terminal phase asks for nothing.
pub fn next_action(phase: Phase, size: usize, local: usize) -> (r: Option<DeviceAction>)
    requires
        local > 0,
        size + local - 1 <= usize::MAX,
    ensures
        phase == Phase::Init ==> r == Some(DeviceAction::AllocateBuffers { size }),
        phase == Phase::BuffersAllocated ==> r == Some(DeviceAction::PrepareKernel),
        phase == Phase::KernelReady ==> (r == Some(DeviceAction::SubmitWritesAndDispatch {
            global_size: exec::spec_work_size(local as int, size as int) as usize,
            local_size: local,
        })),
        phase == Phase::Dispatched ==> r == Some(DeviceAction::SubmitReadAndDrain),
        (phase == Phase::Completed || phase matches Phase::Failed(_)) ==> r is None,
{
    match phase {
        Phase::Init => Some(DeviceAction::AllocateBuffers { size }),
        Phase::BuffersAllocated => Some(DeviceAction::PrepareKernel),
        Phase::KernelReady => Some(DeviceAction::SubmitWritesAndDispatch {
            global_size: exec::get_global_work_size(local, size),
            local_size: local,
        }),
        Phase::Dispatched => Some(DeviceAction::SubmitReadAndDrain),
        Phase::Completed => None,
        Phase::Failed(_) => None,
    }
}

/// The outside work the embedding program performs between phases.
#[derive(Clone, Copy, PartialEq, Eq, Structural, Debug)]
pub enum DeviceAction {
    AllocateBuffers { size: usize },
    PrepareKernel,
    SubmitWritesAndDispatch { global_size: usize, local_size: usize },
    SubmitReadAndDrain,
}

/// Advances the orchestrator by the outcome of the current phase's action:
/// success moves to the next phase of `Init → BuffersAllocated →
/// KernelReady → Dispatched → Completed`; a failure at any phase moves to
/// the failed terminal with the failing stage, and the terminals are
/// absorbing.
pub fn advance(phase: Phase, outcome: Result<(), Stage>) -> (next: Phase)
    ensures
        phase == Phase::Completed ==> next == phase,
        phase matches Phase::Failed(_) ==> next == phase,
        !(phase == Phase::Completed || phase matches Phase::Failed(_)) ==> match outcome {
            Ok(()) => match phase {
                Phase::Init => next == Phase::BuffersAllocated,
                Phase::BuffersAllocated => next == Phase::KernelReady,
                Phase::KernelReady => next == Phase::Dispatched,
                Phase::Dispatched => next == Phase::Completed,
                _ => true,
            },
            Err(stage) => next == Phase::Failed(stage),
        },
{
    match phase {
        Phase::Completed => Phase::Completed,
        Phase::Failed(stage) => Phase::Failed(stage),
        _ => match outcome {
            Ok(()) => match phase {
                Phase::Init => Phase::BuffersAllocated,
                Phase::BuffersAllocated => Phase::KernelReady,
                Phase::KernelReady => Phase::Dispatched,
                Phase::Dispatched => Phase::Completed,
                _ => phase,
            },
            Err(stage) => Phase::Failed(stage),
        },
    }
}

} // verus!
