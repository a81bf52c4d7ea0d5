use vstd::prelude::*;

verus! {

/// Loop control for one pixel of the escape-time evaluator.
///
/// The evaluator iterates `z := z * z + c` and stops as soon as the iterate
/// leaves the escape radius or the iteration budget runs out.  The squared
/// magnitude and the threshold test live in the floating-point kernel; this
/// structure owns everything discrete about the loop: whose turn it is, how
/// many iterations were spent, whether the point escaped, and the guarantee
/// that the loop ends within the budget.
///
/// Protocol: the kernel tests the current iterate against the threshold and
/// reports the verdict through `observe`.  While `done` is false the kernel
/// advances `z` once and reports again; once `done` is true the tally is
/// final.
#[derive(Clone, Copy, Debug, PartialEq, Eq, Structural)]
pub struct EscapeProgress {
    /// The iteration budget; positive by the configuration invariant.
    pub max_iterations: u32,
    /// Iterations spent so far; once done, the recorded tally.
    pub iterations_used: u32,
    /// True once the point has been seen beyond the escape threshold.
    pub escaped: bool,
    /// True once the loop is over, by escape or by exhaustion.
    pub done: bool,
}

impl EscapeProgress {
    /// What every reachable state satisfies.  In particular an escaped tally
    /// is always strictly below the budget, and an exhausted one equals it.
    pub open spec fn wf(self) -> bool {
        &&& self.max_iterations > 0
        &&& self.iterations_used <= self.max_iterations
        &&& (self.escaped ==> self.done)
        &&& (self.escaped ==> self.iterations_used < self.max_iterations)
        &&& (self.done && !self.escaped ==> self.iterations_used == self.max_iterations)
    }

    /// How many more turns the loop can take: a strictly decreasing measure,
    /// so the evaluator terminates within the budget.
    pub open spec fn turns_left(self) -> int {
        if self.done {
            0
        } else {
            self.max_iterations - self.iterations_used + 1
        }
    }

    /// The exact state after one turn of the loop on verdict `escaped_now`:
    /// exhaustion closes the loop without consulting the verdict, an escaping
    /// verdict closes it with the current tally, a quiet one spends one
    /// iteration.
    pub open spec fn spec_turn(self, escaped_now: bool) -> EscapeProgress {
        if self.iterations_used == self.max_iterations {
            EscapeProgress { done: true, ..self }
        } else if escaped_now {
            EscapeProgress { escaped: true, done: true, ..self }
        } else {
            EscapeProgress { iterations_used: (self.iterations_used + 1) as u32, ..self }
        }
    }

    /// A fresh pixel's state: nothing spent, nothing decided.
    pub open spec fn spec_start(max_iterations: u32) -> EscapeProgress {
        EscapeProgress { max_iterations, iterations_used: 0u32, escaped: false, done: false }
    }

    /// The state after feeding `verdicts` to the loop turn by turn, stopping
    /// as soon as the loop closes or the verdicts run out.
    pub open spec fn run(self, verdicts: Seq<bool>) -> EscapeProgress
        decreases verdicts.len(),
    {
        if verdicts.len() == 0 || self.done {
            self
        } else {
            self.spec_turn(verdicts[0]).run(verdicts.drop_first())
        }
    }

    /// A fresh pixel: nothing spent, nothing decided.
    pub fn start(max_iterations: u32) -> (r: EscapeProgress)
        requires
            max_iterations > 0,
        ensures
            r.wf(),
            r == Self::spec_start(max_iterations),
            r.max_iterations == max_iterations,
            r.iterations_used == 0,
            !r.escaped,
            !r.done,
    {
        EscapeProgress { max_iterations, iterations_used: 0, escaped: false, done: false }
    }

    /// One turn of the evaluator loop.  `escaped_now` is the kernel's verdict
    /// on the current iterate: beyond the escape threshold, or not finite.
    ///
    /// If the budget is already spent the point is recorded as non-escaping
    /// and the verdict is not consulted: the iterate reached after the last
    /// budgeted step is never tested.  Otherwise an escaping verdict ends the
    /// loop with the current tally, and a quiet one spends one iteration.
    pub fn observe(&mut self, escaped_now: bool)
        requires
            old(self).wf(),
            !old(self).done,
        ensures
            final(self).wf(),
            final(self).max_iterations == old(self).max_iterations,
            old(self).iterations_used == old(self).max_iterations ==> final(self).done
                && !final(self).escaped
                && final(self).iterations_used == old(self).iterations_used,
            old(self).iterations_used < old(self).max_iterations && escaped_now
                ==> final(self).done && final(self).escaped
                && final(self).iterations_used == old(self).iterations_used,
            old(self).iterations_used < old(self).max_iterations && !escaped_now
                ==> !final(self).done && !final(self).escaped
                && final(self).iterations_used == old(self).iterations_used + 1,
            final(self).turns_left() < old(self).turns_left(),
            *final(self) == old(self).spec_turn(escaped_now),
    {
        if self.iterations_used == self.max_iterations {
            self.done = true;
        } else if escaped_now {
            self.escaped = true;
            self.done = true;
        } else {
            self.iterations_used = self.iterations_used + 1;
        }
    }
}

/// Loop control for a group of pixels evaluated in lockstep.
///
/// Wide (vectorized) evaluation runs the same multiply-add step on several
/// lanes at once, so a lane that escapes cannot break out of the loop on its
/// own: it is retired by a mask and carried along unchanged while the other
/// lanes keep iterating.  `LaneGroup` owns that mask discipline: each turn
/// takes one verdict per lane, retired lanes never change again, and every
/// live lane advances exactly as a pixel of its own would.
pub struct LaneGroup {
    /// One bookkeeping record per lane.
    pub lanes: Vec<EscapeProgress>,
}

impl LaneGroup {
    /// Every lane is a well-formed pixel record.
    pub open spec fn wf(self) -> bool {
        forall|i: int| 0 <= i < self.lanes@.len() ==> self.lanes@[i].wf()
    }

    /// The exact state of lane record `p` after a group turn with verdict
    /// `escaped_now`: retired lanes are masked out and kept as they are.
    pub open spec fn spec_lane_turn(p: EscapeProgress, escaped_now: bool) -> EscapeProgress {
        if p.done {
            p
        } else {
            p.spec_turn(escaped_now)
        }
    }

    /// The lane states after the lockstep turns in `turns`, one verdict
    /// vector per turn, applied in order with retired lanes masked out.
    pub open spec fn spec_group_run(lanes: Seq<EscapeProgress>, turns: Seq<Seq<bool>>) -> Seq<
        EscapeProgress,
    >
        decreases turns.len(),
    {
        if turns.len() == 0 {
            lanes
        } else {
            Self::spec_group_run(
                lanes.map(|j: int, p: EscapeProgress| Self::spec_lane_turn(p, turns[0][j])),
                turns.drop_first(),
            )
        }
    }

    /// A group of `n_lanes` fresh pixels sharing one iteration budget.
    pub fn start(n_lanes: usize, max_iterations: u32) -> (r: LaneGroup)
        requires
            max_iterations > 0,
        ensures
            r.wf(),
            r.lanes@.len() == n_lanes,
            forall|i: int|
                0 <= i < n_lanes ==> r.lanes@[i] == (EscapeProgress {
                    max_iterations,
                    iterations_used: 0u32,
                    escaped: false,
                    done: false,
                }),
    {
        let mut lanes: Vec<EscapeProgress> = Vec::new();
        let mut i: usize = 0;
        while i < n_lanes
            invariant
                max_iterations > 0,
                i <= n_lanes,
                lanes@.len() == i,
                forall|j: int|
                    0 <= j < i ==> lanes@[j] == (EscapeProgress {
                        max_iterations,
                        iterations_used: 0u32,
                        escaped: false,
                        done: false,
                    }),
            decreases n_lanes - i,
        {
            lanes.push(EscapeProgress::start(max_iterations));
            i = i + 1;
        }
        LaneGroup { lanes }
    }

    /// One lockstep turn: `escaped_now[i]` is the kernel's verdict on lane
    /// `i`'s current iterate.  Retired lanes ignore their verdict and stay
    /// exactly as they were; each live lane takes one `observe` turn.
    pub fn observe(&mut self, escaped_now: &Vec<bool>)
        requires
            old(self).wf(),
            escaped_now@.len() == old(self).lanes@.len(),
        ensures
            final(self).wf(),
            final(self).lanes@.len() == old(self).lanes@.len(),
            forall|i: int|
                0 <= i < old(self).lanes@.len() ==> final(self).lanes@[i] == Self::spec_lane_turn(
                    old(self).lanes@[i],
                    escaped_now@[i],
                ),
            forall|i: int|
                0 <= i < old(self).lanes@.len() && old(self).lanes@[i].done
                    ==> final(self).lanes@[i] == old(self).lanes@[i],
    {
        let ghost orig: LaneGroup = *self;
        let n = self.lanes.len();
        let mut i: usize = 0;
        while i < n
            invariant
                orig.wf(),
                n == orig.lanes@.len(),
                escaped_now@.len() == n,
                i <= n,
                self.lanes@.len() == n,
                forall|j: int| i <= j < n ==> self.lanes@[j] == orig.lanes@[j],
                forall|j: int|
                    0 <= j < i ==> self.lanes@[j] == Self::spec_lane_turn(
                        orig.lanes@[j],
                        escaped_now@[j],
                    ),
            decreases n - i,
        {
            let lane = self.lanes[i];
            proof {
                assert(lane == orig.lanes@[i as int]);
                assert(lane.wf());
            }
            if !lane.done {
                let mut turned = lane;
                turned.observe(escaped_now[i]);
                self.lanes.set(i, turned);
            }
            i = i + 1;
        }
        proof {
            assert forall|j: int|
                0 <= j < n implies self.lanes@[j].wf() by {
                assert(self.lanes@[j] == Self::spec_lane_turn(orig.lanes@[j], escaped_now@[j]));
            }
        }
    }

    /// Whether every lane has retired, so the lockstep loop can stop.
    pub fn all_done(&self) -> (r: bool)
        ensures
            r == (forall|i: int| 0 <= i < self.lanes@.len() ==> self.lanes@[i].done),
    {
        let n = self.lanes.len();
        let mut i: usize = 0;
        while i < n
            invariant
                n == self.lanes@.len(),
                i <= n,
                forall|j: int| 0 <= j < i ==> self.lanes@[j].done,
            decreases n - i,
        {
            if !self.lanes[i].done {
                return false;
            }
            i = i + 1;
        }
        true
    }
}

/// Every escaped point spent strictly fewer iterations than the budget:
/// the tally of an escaped pixel always lies in `[0, max_iterations)`.
pub proof fn law_escaped_tally_bounded(p: EscapeProgress)
    requires
        p.wf(),
        p.escaped,
    ensures
        0 <= p.iterations_used < p.max_iterations,
{
}

/// A pixel that never escaped and finished its loop spent the whole budget:
/// its tally equals `max_iterations` exactly.
pub proof fn law_exhausted_tally_full(p: EscapeProgress)
    requires
        p.wf(),
        p.done,
        !p.escaped,
    ensures
        p.iterations_used == p.max_iterations,
{
}

/// Index of the first escaping verdict in a sequence, or the sequence's
/// length if every verdict is quiet.
pub open spec fn first_escape(verdicts: Seq<bool>) -> int
    decreases verdicts.len(),
{
    if verdicts.len() == 0 {
        0
    } else if verdicts[0] {
        0
    } else {
        1 + first_escape(verdicts.drop_first())
    }
}

/// `first_escape` really is an index into the sequence, or its length.
pub proof fn lemma_first_escape_bounds(verdicts: Seq<bool>)
    ensures
        0 <= first_escape(verdicts) <= verdicts.len(),
    decreases verdicts.len(),
{
    if verdicts.len() > 0 && !verdicts[0] {
        lemma_first_escape_bounds(verdicts.drop_first());
    }
}

/// The loop stops at the first escaping verdict.  From any live state, if
/// the first escaping verdict arrives while budget remains, the pixel
/// escapes then and there and the tally grows by exactly that index; if it
/// does not arrive within the remaining budget but the verdicts outlast the
/// budget, the pixel closes as non-escaping with the budget spent in full.
pub proof fn lemma_run_decides(p: EscapeProgress, verdicts: Seq<bool>)
    requires
        p.wf(),
        !p.done,
        !p.escaped,
    ensures
        ({
            let k = first_escape(verdicts);
            let rem = p.max_iterations - p.iterations_used;
            let q = p.run(verdicts);
            &&& (k < rem && k < verdicts.len() ==> q.done && q.escaped && q.iterations_used
                == p.iterations_used + k && q.max_iterations == p.max_iterations)
            &&& (k >= rem && verdicts.len() >= rem + 1 ==> q.done && !q.escaped
                && q.iterations_used == p.max_iterations && q.max_iterations
                == p.max_iterations)
        }),
    decreases verdicts.len(),
{
    lemma_first_escape_bounds(verdicts);
    if verdicts.len() == 0 {
        return ;
    }
    let rest = verdicts.drop_first();
    let q0 = p.spec_turn(verdicts[0]);
    assert(p.run(verdicts) == q0.run(rest));
    if p.iterations_used == p.max_iterations {
        assert(q0 == (EscapeProgress { done: true, ..p }));
        assert(q0.run(rest) == q0);
    } else if verdicts[0] {
        assert(first_escape(verdicts) == 0);
        assert(q0 == (EscapeProgress { escaped: true, done: true, ..p }));
        assert(q0.run(rest) == q0);
    } else {
        lemma_first_escape_bounds(rest);
        assert(first_escape(verdicts) == 1 + first_escape(rest));
        assert(q0 == (EscapeProgress {
            iterations_used: (p.iterations_used + 1) as u32,
            ..p
        }));
        assert(q0.wf());
        lemma_run_decides(q0, rest);
    }
}

/// The evaluator's whole-loop contract, from a fresh pixel: fed any verdict
/// sequence, the pixel escapes with tally `k`, the index of the first
/// escaping verdict, whenever `k` lies within the budget and the verdicts
/// reach it; and when no escape arrives within the budget, a verdict
/// sequence that outlasts the budget closes the pixel as non-escaping with
/// the budget spent in full.
pub proof fn law_first_escape_decides(max_iterations: u32, verdicts: Seq<bool>)
    requires
        max_iterations > 0,
    ensures
        ({
            let k = first_escape(verdicts);
            let q = EscapeProgress::spec_start(max_iterations).run(verdicts);
            &&& (k < max_iterations && k < verdicts.len() ==> q.done && q.escaped
                && q.iterations_used == k)
            &&& (k >= max_iterations && verdicts.len() > max_iterations ==> q.done && !q.escaped
                && q.iterations_used == max_iterations)
        }),
{
    lemma_run_decides(EscapeProgress::spec_start(max_iterations), verdicts);
}

/// Lane `i`'s own verdict stream: one verdict out of each lockstep turn.
pub open spec fn lane_verdicts(turns: Seq<Seq<bool>>, i: int) -> Seq<bool> {
    Seq::new(turns.len(), |t: int| turns[t][i])
}

/// Lockstep evaluation is reproducible lane by lane: after any sequence of
/// group turns, each lane holds exactly the state the scalar per-pixel loop
/// reaches on that lane's own verdict stream.  No lane's outcome depends on
/// any other lane, so wide and scalar evaluation agree pixel for pixel.
pub proof fn law_lockstep_matches_scalar(
    lanes: Seq<EscapeProgress>,
    turns: Seq<Seq<bool>>,
    i: int,
)
    requires
        0 <= i < lanes.len(),
        forall|t: int| 0 <= t < turns.len() ==> turns[t].len() == lanes.len(),
    ensures
        LaneGroup::spec_group_run(lanes, turns)[i] == lanes[i].run(lane_verdicts(turns, i)),
    decreases turns.len(),
{
    let col = lane_verdicts(turns, i);
    if turns.len() == 0 {
        assert(col.len() == 0);
    } else {
        let rest = turns.drop_first();
        let lanes2 = lanes.map(
            |j: int, p: EscapeProgress| LaneGroup::spec_lane_turn(p, turns[0][j]),
        );
        assert(lanes2.len() == lanes.len());
        assert(LaneGroup::spec_group_run(lanes, turns) == LaneGroup::spec_group_run(
            lanes2,
            rest,
        ));
        assert(forall|t: int| 0 <= t < rest.len() ==> rest[t].len() == lanes2.len());
        law_lockstep_matches_scalar(lanes2, rest, i);
        assert(lanes2[i] == LaneGroup::spec_lane_turn(lanes[i], turns[0][i]));
        let colrest = lane_verdicts(rest, i);
        assert(col.len() == turns.len());
        assert(col[0] == turns[0][i]);
        assert(col.drop_first() =~= colrest);
        if lanes[i].done {
            assert(lanes[i].run(col) == lanes[i]);
            assert(lanes2[i] == lanes[i]);
            assert(lanes[i].run(colrest) == lanes[i]);
        } else {
            assert(lanes[i].run(col) == lanes[i].spec_turn(col[0]).run(col.drop_first()));
        }
    }
}

/// The per-pixel tally bounds hold lane by lane in a lockstep group as well:
/// an escaped lane sits strictly below the budget, an exhausted lane exactly
/// at it.
pub proof fn law_group_tallies(g: LaneGroup, i: int)
    requires
        g.wf(),
        0 <= i < g.lanes@.len(),
    ensures
        g.lanes@[i].escaped ==> 0 <= g.lanes@[i].iterations_used < g.lanes@[i].max_iterations,
        g.lanes@[i].done && !g.lanes@[i].escaped ==> g.lanes@[i].iterations_used
            == g.lanes@[i].max_iterations,
{
}

} // verus!
