use vstd::prelude::*;
use crate::action::Action;
use vstd::multiset::Multiset;

verus! {

/// One operation on a work queue, as a value: used to state what a series of
/// operations does.
pub enum Step {
    Assign(Action),
    Execute,
}

/// What one operation does to the pending sequence `q`: the sequence after
/// it, and the action it hands out, if any. Assigning appends; executing
/// takes the most recently appended action.
pub open spec fn step(q: Seq<Action>, s: Step) -> (Seq<Action>, Option<Action>) {
    match s {
        Step::Assign(a) => (q.push(a), None),
        Step::Execute => if q.len() == 0 {
            (q, None)
        } else {
            (q.drop_last(), Some(q.last()))
        },
    }
}

/// What a series of operations does to the pending sequence `q`: the
/// sequence after the last of them, and the actions they handed out, in the
/// order they were handed out.
pub open spec fn run(q: Seq<Action>, ops: Seq<Step>) -> (Seq<Action>, Seq<Action>)
    decreases ops.len(),
{
    if ops.len() == 0 {
        (q, Seq::empty())
    } else {
        let (before, out) = run(q, ops.drop_last());
        let (after, taken) = step(before, ops.last());
        match taken {
            Some(a) => (after, out.push(a)),
            None => (after, out),
        }
    }
}

/// The actions that a series of operations assigns, in order.
pub open spec fn assigned(ops: Seq<Step>) -> Seq<Action>
    decreases ops.len(),
{
    if ops.len() == 0 {
        Seq::empty()
    } else {
        match ops.last() {
            Step::Assign(a) => assigned(ops.drop_last()).push(a),
            Step::Execute => assigned(ops.drop_last()),
        }
    }
}

/// One assignment of each action of `actions`, in order.
pub open spec fn assigns(actions: Seq<Action>) -> Seq<Step> {
    actions.map_values(|a: Action| Step::Assign(a))
}

/// `n` executions in a row.
pub open spec fn executes(n: nat) -> Seq<Step> {
    Seq::new(n, |i: int| Step::Execute)
}

/// Running two series one after the other is running the first, then the
/// second from where the first left the queue; the actions handed out are
/// those of the first followed by those of the second.
pub proof fn lemma_run_append(q: Seq<Action>, first: Seq<Step>, second: Seq<Step>)
    ensures
        run(q, first + second) == ({
            let (mid, out1) = run(q, first);
            let (last, out2) = run(mid, second);
            (last, out1 + out2)
        }),
    decreases second.len(),
{
    if second.len() == 0 {
        assert(first + second =~= first);
        let (mid, out1) = run(q, first);
        assert(out1 + Seq::<Action>::empty() =~= out1);
    } else {
        let all = first + second;
        assert(all.drop_last() =~= first + second.drop_last());
        assert(all.last() == second.last());
        lemma_run_append(q, first, second.drop_last());
        let (mid, out1) = run(q, first);
        let (m2, out2) = run(mid, second.drop_last());
        let (after, taken) = step(m2, second.last());
        match taken {
            Some(a) => {
                assert((out1 + out2).push(a) =~= out1 + out2.push(a));
            },
            None => {},
        }
    }
}

/// Assigning each action of `actions` leaves them appended to the queue and
/// hands nothing out.
pub proof fn lemma_run_assigns(q: Seq<Action>, actions: Seq<Action>)
    ensures
        run(q, assigns(actions)) == (q + actions, Seq::<Action>::empty()),
    decreases actions.len(),
{
    if actions.len() == 0 {
        assert(assigns(actions) =~= Seq::<Step>::empty());
        assert(q + actions =~= q);
    } else {
        let init = actions.drop_last();
        assert(assigns(actions).drop_last() =~= assigns(init));
        lemma_run_assigns(q, init);
        assert((q + init).push(actions.last()) =~= q + actions);
    }
}

/// Executing `k` times on a queue that ends with `actions` (`k` at most their
/// number) hands out the last `k` of them, the last one first.
pub proof fn lemma_run_executes(q: Seq<Action>, actions: Seq<Action>, k: nat)
    requires
        k <= actions.len(),
    ensures
        run(q + actions, executes(k)) == (
            q + actions.subrange(0, actions.len() - k),
            actions.subrange(actions.len() - k, actions.len() as int).reverse(),
        ),
    decreases k,
{
    let n = actions.len() as int;
    if k == 0 {
        assert(executes(k) =~= Seq::<Step>::empty());
        assert(actions.subrange(0, n) =~= actions);
        assert(actions.subrange(n, n).reverse() =~= Seq::<Action>::empty());
    } else {
        let j = (k - 1) as nat;
        assert(executes(k).drop_last() =~= executes(j));
        lemma_run_executes(q, actions, j);
        let before = q + actions.subrange(0, n - j);
        assert(before.len() > 0);
        assert(before.last() == actions[n - k]);
        assert(before.drop_last() =~= q + actions.subrange(0, n - k));
        assert(actions.subrange(n - j, n).reverse().push(actions[n - k])
            =~= actions.subrange(n - k, n).reverse());
    }
}

/// Assigning `a1, ..., an` and then executing `n` times hands out
/// `an, ..., a1` (the most recent first) and leaves the queue as it was.
pub proof fn lemma_last_in_first_out(q: Seq<Action>, actions: Seq<Action>)
    ensures
        run(q, assigns(actions) + executes(actions.len())) == (q, actions.reverse()),
{
    lemma_run_append(q, assigns(actions), executes(actions.len()));
    lemma_run_assigns(q, actions);
    lemma_run_executes(q, actions, actions.len());
    assert(actions.subrange(0, 0) =~= Seq::<Action>::empty());
    assert(q + Seq::<Action>::empty() =~= q);
    assert(actions.subrange(0, actions.len() as int) =~= actions);
    assert(Seq::<Action>::empty() + actions.reverse() =~= actions.reverse());
}

/// No action is lost or made up: whatever the series of operations, the
/// actions handed out together with those still pending are, as a multiset,
/// those pending at the start together with those assigned. In particular a
/// queue that starts and ends empty hands out exactly as many actions as
/// were assigned.
pub proof fn lemma_no_action_lost(q: Seq<Action>, ops: Seq<Step>)
    ensures
        run(q, ops).1.to_multiset().add(run(q, ops).0.to_multiset())
            == q.to_multiset().add(assigned(ops).to_multiset()),
        q.len() == 0 && run(q, ops).0.len() == 0 ==> run(q, ops).1.len() == assigned(ops).len(),
    decreases ops.len(),
{
    broadcast use vstd::seq_lib::group_to_multiset_ensures;

    if ops.len() == 0 {
        assert(run(q, ops).1.to_multiset() =~= Multiset::empty());
        assert(assigned(ops).to_multiset() =~= Multiset::empty());
        assert(Multiset::<Action>::empty().add(q.to_multiset()) =~= q.to_multiset().add(
            Multiset::empty(),
        ));
    } else {
        lemma_no_action_lost(q, ops.drop_last());
        let (before, out) = run(q, ops.drop_last());
        match ops.last() {
            Step::Assign(a) => {
                assert(before.push(a).to_multiset() =~= before.to_multiset().insert(a));
                let prior = assigned(ops.drop_last());
                assert(prior.push(a).to_multiset() =~= prior.to_multiset().insert(a));
                assert(out.to_multiset().add(before.to_multiset()) == q.to_multiset().add(
                    prior.to_multiset(),
                ));
                assert forall|x: Action|
                    #![auto]
                    out.to_multiset().add(before.push(a).to_multiset()).count(x) == q.to_multiset().add(
                        prior.push(a).to_multiset(),
                    ).count(x) by {
                    assert(out.to_multiset().add(before.to_multiset()).count(x) == q.to_multiset().add(
                        prior.to_multiset(),
                    ).count(x));
                }
                assert(out.to_multiset().add(before.push(a).to_multiset()) =~= q.to_multiset().add(
                    assigned(ops.drop_last()).push(a).to_multiset(),
                ));
            },
            Step::Execute => {
                if before.len() > 0 {
                    let a = before.last();
                    assert(before.drop_last().push(a) =~= before);
                    assert(out.push(a).to_multiset().add(before.drop_last().to_multiset())
                        =~= out.to_multiset().add(before.to_multiset()));
                }
            },
        }
    }
    let (fin, outs) = run(q, ops);
    assert(outs.to_multiset().add(fin.to_multiset()).len() == outs.len() + fin.len());
    assert(q.to_multiset().add(assigned(ops).to_multiset()).len() == q.len() + assigned(ops).len());
}

/// A work queue: the pending actions in the order they were assigned.
/// The most recently assigned action is handed out first.
pub struct Work {
    Queue: Vec<Action>,
}

impl View for Work {
    type V = Seq<Action>;

    closed spec fn view(&self) -> Seq<Action> {
        self.Queue@
    }
}

impl Work {
    /// An empty work queue.
    pub fn Begin() -> (r: Work)
        ensures
            r@ == Seq::<Action>::empty(),
    {
        Work { Queue: Vec::new() }
    }

    /// Appends `action` to the end of the queue.
    pub fn Assign(&mut self, action: Action)
        ensures
            (final(self)@, None::<Action>) == step(old(self)@, Step::Assign(action)),
            final(self)@ == old(self)@.push(action),
    {
        self.Queue.push(action);
    }

    /// Removes and returns the most recently assigned action, or `None` when
    /// the queue is empty.
    pub fn Execute(&mut self) -> (r: Option<Action>)
        ensures
            (final(self)@, r) == step(old(self)@, Step::Execute),
            old(self)@.len() == 0 <==> r is None,
    {
        self.Queue.pop()
    }

    /// The number of pending actions.
    pub fn Len(&self) -> (r: usize)
        ensures
            r == self@.len(),
    {
        self.Queue.len()
    }
}

} // verus!
