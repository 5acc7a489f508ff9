//! Listener registry and the per-tick evaluation order of a network.
//!
//! A `Node` of the simulator binds one neuron engine, one `Listeners`
//! registry and an ordered list of outgoing synapses.  The engine's
//! arithmetic is real-valued and runs outside this crate; what is decided
//! here is everything order-dependent: in which sequence listeners are told
//! of a spike, and in which sequence nodes are stepped and synaptic current
//! is delivered within one tick.

use vstd::prelude::*;

verus! {

/// Marker for a spike observer.  Callbacks themselves live with the caller;
/// the registry below tracks them by handle.
pub trait Listener {

}

/// An ordered registry of listener handles.
///
/// Listeners are invoked synchronously on a spike, in registration order,
/// each exactly once per spike; they are never removed automatically.
pub struct Listeners {
    listeners: Vec<u64>,
}

impl View for Listeners {
    type V = Seq<u64>;

    closed spec fn view(&self) -> Seq<u64> {
        self.listeners@
    }
}

impl Listeners {
    /// An empty registry.
    pub fn new() -> (r: Self)
        ensures
            r@ == Seq::<u64>::empty(),
    {
        Self { listeners: Vec::new() }
    }

    /// Registers one more listener, after all earlier ones.
    pub fn add(&mut self, listener: u64)
        ensures
            final(self)@ == old(self)@.push(listener),
    {
        self.listeners.push(listener);
    }

    /// The invocation order for one spike: every registered listener,
    /// exactly once, in registration order.
    pub fn inform(&self) -> (r: Vec<u64>)
        ensures
            r@ == self@,
    {
        let mut order: Vec<u64> = Vec::new();
        let mut i: usize = 0;
        while i < self.listeners.len()
            invariant
                i <= self.listeners.len(),
                order@ == self.listeners@.take(i as int),
            decreases self.listeners.len() - i,
        {
            order.push(self.listeners[i]);
            proof {
                assert(order@ =~= self.listeners@.take(i as int + 1));
            }
            i = i + 1;
        }
        proof {
            assert(order@ =~= self.listeners@);
        }
        order
    }
}

/// An outgoing fibre; carries no data yet.
pub struct Axon {

}

// ---------------------------------------------------------------------------
// The tick schedule
// ---------------------------------------------------------------------------

/// One action of a tick.  The caller that owns the real-valued state
/// performs them in the order given.
#[derive(Debug, PartialEq, Eq, Copy, Clone, Structural)]
pub enum TickAction {
    /// Advance the engine of `node` by one step, informing its listeners if
    /// it spikes.
    Step { node: usize },
    /// Step the `edge`-th outgoing synapse of `from` — arming it first if
    /// `from` just fired — and deliver the resulting current to `to`.
    Deliver { from: usize, edge: usize, to: usize },
}

/// The actions of one node's visit: its own engine step, then one delivery
/// per outgoing synapse, in registration order.
pub open spec fn node_plan(node: usize, targets: Seq<usize>) -> Seq<TickAction> {
    seq![TickAction::Step { node }] + Seq::new(
        targets.len(),
        |j: int| TickAction::Deliver { from: node, edge: j as usize, to: targets[j] },
    )
}

/// The actions of one whole tick: every node's visit, in index order.
///
/// Synaptic current is written into the target's accumulated input the
/// moment the edge is processed, so a target placed after its source in the
/// node order sees the current within the same tick, and one placed before
/// its source only on the next tick.
pub open spec fn tick_plan(outgoing: Seq<Seq<usize>>) -> Seq<TickAction>
    decreases outgoing.len(),
{
    if outgoing.len() == 0 {
        Seq::<TickAction>::empty()
    } else {
        tick_plan(outgoing.drop_last()) + node_plan(
            (outgoing.len() - 1) as usize,
            outgoing.last(),
        )
    }
}

/// Where node `i`'s visit begins in the tick plan.
pub open spec fn plan_offset(outgoing: Seq<Seq<usize>>, i: int) -> int
    decreases i,
{
    if i <= 0 {
        0
    } else {
        plan_offset(outgoing, i - 1) + 1 + outgoing[i - 1].len()
    }
}

/// The offsets only read the prefix of the topology.
proof fn lemma_plan_offset_prefix(a: Seq<Seq<usize>>, b: Seq<Seq<usize>>, i: int)
    requires
        0 <= i <= a.len(),
        a.len() <= b.len(),
        forall|k: int| 0 <= k < a.len() ==> a[k] == b[k],
    ensures
        plan_offset(a, i) == plan_offset(b, i),
    decreases i,
{
    if i > 0 {
        lemma_plan_offset_prefix(a, b, i - 1);
    }
}

/// The shape of the tick plan: one visit per node at its offset, each
/// holding the node's own step and then its deliveries in edge order.
pub proof fn lemma_tick_plan_shape(outgoing: Seq<Seq<usize>>)
    requires
        outgoing.len() <= usize::MAX,
        forall|i: int| 0 <= i < outgoing.len() ==> (#[trigger] outgoing[i]).len() <= usize::MAX,
    ensures
        tick_plan(outgoing).len() == plan_offset(outgoing, outgoing.len() as int),
        forall|i: int|
            0 <= i < outgoing.len() ==> tick_plan(outgoing)[plan_offset(outgoing, i)]
                == (TickAction::Step { node: i as usize }),
        forall|i: int, j: int|
            0 <= i < outgoing.len() && 0 <= j < outgoing[i].len() ==> tick_plan(outgoing)[
                plan_offset(outgoing, i) + 1 + j
            ] == (TickAction::Deliver { from: i as usize, edge: j as usize, to: outgoing[i][j] }),
    decreases outgoing.len(),
{
    if outgoing.len() > 0 {
        let pre = outgoing.drop_last();
        lemma_tick_plan_shape(pre);
        assert forall|i: int| 0 <= i <= pre.len() implies plan_offset(pre, i) == plan_offset(
            outgoing,
            i,
        ) by {
            lemma_plan_offset_prefix(pre, outgoing, i);
        }
        let n = (outgoing.len() - 1) as usize;
        let tail = node_plan(n, outgoing.last());
        assert(tick_plan(outgoing) == tick_plan(pre) + tail);
        assert(tail.len() == 1 + outgoing.last().len());
        assert(tail[0] == (TickAction::Step { node: n }));
        assert forall|j: int| 0 <= j < outgoing.last().len() implies tail[1 + j]
            == (TickAction::Deliver { from: n, edge: j as usize, to: outgoing.last()[j] }) by {
            assert(tail[1 + j] == Seq::new(
                outgoing.last().len(),
                |k: int| TickAction::Deliver { from: n, edge: k as usize, to: outgoing.last()[k] },
            )[j]);
        }
        assert forall|i: int|
            0 <= i < outgoing.len() implies tick_plan(outgoing)[plan_offset(outgoing, i)]
            == (TickAction::Step { node: i as usize }) by {
            if i < pre.len() {
                lemma_plan_offset_monotonic(pre, 0, i);
                lemma_plan_offset_monotonic(pre, i, pre.len() as int);
                assert(0 <= plan_offset(pre, i) < tick_plan(pre).len());
                assert((tick_plan(pre) + tail)[plan_offset(pre, i)] == tick_plan(pre)[
                    plan_offset(pre, i)
                ]);
            } else {
                assert(i == pre.len());
                assert(plan_offset(outgoing, i) == tick_plan(pre).len());
                assert(tick_plan(outgoing)[plan_offset(outgoing, i)] == tail[0]);
            }
        }
        assert forall|i: int, j: int|
            0 <= i < outgoing.len() && 0 <= j < outgoing[i].len() implies tick_plan(outgoing)[
            plan_offset(outgoing, i) + 1 + j
        ] == (TickAction::Deliver { from: i as usize, edge: j as usize, to: outgoing[i][j] }) by {
            if i < pre.len() {
                lemma_plan_offset_monotonic(pre, 0, i);
                lemma_plan_offset_monotonic(pre, i, pre.len() as int);
                assert(0 <= plan_offset(pre, i) + 1 + j < tick_plan(pre).len());
                assert((tick_plan(pre) + tail)[plan_offset(pre, i) + 1 + j] == tick_plan(pre)[
                    plan_offset(pre, i) + 1 + j
                ]);
            } else {
                assert(i == pre.len());
                assert(plan_offset(outgoing, i) == tick_plan(pre).len());
                assert(tick_plan(outgoing)[plan_offset(outgoing, i) + 1 + j] == tail[1 + j]);
                assert(outgoing[i] == outgoing.last());
            }
        }
    }
}

/// Offsets grow strictly along the node order: a later node's visit starts
/// after every action of an earlier node's visit.
pub proof fn lemma_plan_offset_monotonic(outgoing: Seq<Seq<usize>>, i: int, k: int)
    requires
        0 <= i <= k,
    ensures
        plan_offset(outgoing, i) <= plan_offset(outgoing, k),
        i < k <= outgoing.len() ==> plan_offset(outgoing, i) + 1 + outgoing[i].len()
            <= plan_offset(outgoing, k),
    decreases k - i,
{
    if i < k {
        lemma_plan_offset_monotonic(outgoing, i, k - 1);
    }
}

/// The order-dependent delivery rule of one tick: a delivery always comes
/// after its source's step; it comes before the target's own step — so the
/// target consumes the current within the same tick — exactly when the
/// target is visited after the source, and after the target's step — so the
/// current waits for the next tick — exactly when the target is visited
/// first.
pub proof fn lemma_delivery_order(outgoing: Seq<Seq<usize>>, u: int, j: int)
    requires
        outgoing.len() <= usize::MAX,
        forall|i: int| 0 <= i < outgoing.len() ==> (#[trigger] outgoing[i]).len() <= usize::MAX,
        0 <= u < outgoing.len(),
        0 <= j < outgoing[u].len(),
        outgoing[u][j] < outgoing.len(),
    ensures
        ({
            let plan = tick_plan(outgoing);
            let t = outgoing[u][j] as int;
            let step_u = plan_offset(outgoing, u);
            let del = step_u + 1 + j;
            let step_t = plan_offset(outgoing, t);
            &&& plan[step_u] == (TickAction::Step { node: u as usize })
            &&& plan[del] == (TickAction::Deliver {
                from: u as usize,
                edge: j as usize,
                to: outgoing[u][j],
            })
            &&& plan[step_t] == (TickAction::Step { node: outgoing[u][j] })
            &&& step_u < del
            &&& t > u ==> del < step_t
            &&& t <= u ==> step_t <= step_u
        }),
{
    lemma_tick_plan_shape(outgoing);
    let t = outgoing[u][j] as int;
    if t > u {
        lemma_plan_offset_monotonic(outgoing, u, t);
    } else {
        lemma_plan_offset_monotonic(outgoing, t, u);
    }
}

/// Computes the tick plan for a topology given as each node's ordered
/// target list.
pub fn tick_order(outgoing: &Vec<Vec<usize>>) -> (plan: Vec<TickAction>)
    ensures
        plan@ == tick_plan(outgoing@.map_values(|v: Vec<usize>| v@)),
{
    let ghost topo = outgoing@.map_values(|v: Vec<usize>| v@);
    let mut plan: Vec<TickAction> = Vec::new();
    let mut i: usize = 0;
    while i < outgoing.len()
        invariant
            i <= outgoing.len(),
            topo == outgoing@.map_values(|v: Vec<usize>| v@),
            plan@ == tick_plan(topo.take(i as int)),
        decreases outgoing.len() - i,
    {
        plan.push(TickAction::Step { node: i });
        let mut j: usize = 0;
        while j < outgoing[i].len()
            invariant
                i < outgoing.len(),
                j <= outgoing@[i as int]@.len(),
                topo == outgoing@.map_values(|v: Vec<usize>| v@),
                plan@ == tick_plan(topo.take(i as int)) + node_plan(i, topo[i as int].take(
                    j as int,
                )),
            decreases outgoing@[i as int]@.len() - j,
        {
            plan.push(TickAction::Deliver { from: i, edge: j, to: outgoing[i][j] });
            proof {
                assert(node_plan(i, topo[i as int].take(j as int + 1)) =~= node_plan(
                    i,
                    topo[i as int].take(j as int),
                ).push(TickAction::Deliver { from: i, edge: j, to: topo[i as int][j as int] }));
                assert(plan@ =~= tick_plan(topo.take(i as int)) + node_plan(
                    i,
                    topo[i as int].take(j as int + 1),
                ));
            }
            j = j + 1;
        }
        proof {
            assert(topo[i as int].take(topo[i as int].len() as int) =~= topo[i as int]);
            assert(topo.take(i as int + 1).drop_last() =~= topo.take(i as int));
            assert(topo.take(i as int + 1).last() == topo[i as int]);
            assert(tick_plan(topo.take(i as int + 1)) == tick_plan(topo.take(i as int))
                + node_plan(i, topo[i as int]));
        }
        i = i + 1;
    }
    proof {
        assert(topo.take(outgoing@.len() as int) =~= topo);
    }
    plan
}

} // verus!
