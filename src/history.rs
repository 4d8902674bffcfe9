use vstd::prelude::*;
use crate::shape::Shape;

verus! {

/// The two stacks of a history; the top of each is its last element.
pub ghost struct HistoryModel {
    pub committed: Seq<Shape>,
    pub undone: Seq<Shape>,
}

impl HistoryModel {
    pub open spec fn empty() -> HistoryModel {
        HistoryModel { committed: Seq::empty(), undone: Seq::empty() }
    }

    /// A new shape goes on top of `committed`; the redo stack is dropped.
    pub open spec fn push(self, s: Shape) -> HistoryModel {
        HistoryModel { committed: self.committed.push(s), undone: Seq::empty() }
    }

    /// `push` of the shape, if there is one.
    pub open spec fn commit(self, s: Option<Shape>) -> HistoryModel {
        match s {
            Some(s) => self.push(s),
            None => self,
        }
    }

    /// The top of `committed` moves to `undone` and is returned.
    pub open spec fn undo(self) -> (HistoryModel, Option<Shape>) {
        if self.committed.len() == 0 {
            (self, None)
        } else {
            let s = self.committed.last();
            (HistoryModel { committed: self.committed.drop_last(), undone: self.undone.push(s) }, Some(s))
        }
    }

    /// The top of `undone` moves back to `committed` and is returned.
    pub open spec fn redo(self) -> (HistoryModel, Option<Shape>) {
        if self.undone.len() == 0 {
            (self, None)
        } else {
            let s = self.undone.last();
            (HistoryModel { committed: self.committed.push(s), undone: self.undone.drop_last() }, Some(s))
        }
    }
}

/// The history after pushing each shape of `p` in turn.
pub open spec fn push_all(h: HistoryModel, p: Seq<Shape>) -> HistoryModel
    decreases p.len(),
{
    if p.len() == 0 {
        h
    } else {
        push_all(h, p.drop_last()).push(p.last())
    }
}

/// The history after `k` undos.
pub open spec fn undo_times(h: HistoryModel, k: nat) -> HistoryModel
    decreases k,
{
    if k == 0 {
        h
    } else {
        undo_times(h, (k - 1) as nat).undo().0
    }
}

/// The history after `k` redos.
pub open spec fn redo_times(h: HistoryModel, k: nat) -> HistoryModel
    decreases k,
{
    if k == 0 {
        h
    } else {
        redo_times(h, (k - 1) as nat).redo().0
    }
}

proof fn lemma_push_all_from_empty(p: Seq<Shape>)
    ensures
        push_all(HistoryModel::empty(), p) == (HistoryModel { committed: p, undone: Seq::empty() }),
    decreases p.len(),
{
    if p.len() > 0 {
        lemma_push_all_from_empty(p.drop_last());
        assert(p.drop_last().push(p.last()) =~= p);
    } else {
        assert(p =~= Seq::<Shape>::empty());
    }
}

proof fn lemma_undo_times(p: Seq<Shape>, k: nat)
    requires
        k <= p.len(),
    ensures
        undo_times(HistoryModel { committed: p, undone: Seq::empty() }, k) == (HistoryModel {
            committed: p.take(p.len() - k),
            undone: p.skip(p.len() - k).reverse(),
        }),
    decreases k,
{
    let n = p.len();
    if k == 0 {
        assert(p.take(n as int) =~= p);
        assert(p.skip(n as int).reverse() =~= Seq::<Shape>::empty());
    } else {
        lemma_undo_times(p, (k - 1) as nat);
        let prev = p.take(n - k + 1);
        assert(prev.last() == p[n - k]);
        assert(prev.drop_last() =~= p.take(n - k));
        assert(p.skip(n - k + 1).reverse().push(p[n - k]) =~= p.skip(n - k).reverse());
    }
}

proof fn lemma_redo_times(p: Seq<Shape>, j: nat)
    requires
        j <= p.len(),
    ensures
        redo_times(HistoryModel { committed: Seq::empty(), undone: p.reverse() }, j) == (HistoryModel {
            committed: p.take(j as int),
            undone: p.skip(j as int).reverse(),
        }),
    decreases j,
{
    if j == 0 {
        assert(p.take(0) =~= Seq::<Shape>::empty());
        assert(p.skip(0) =~= p);
    } else {
        lemma_redo_times(p, (j - 1) as nat);
        let u = p.skip(j - 1).reverse();
        assert(u.last() == p[j - 1]);
        assert(p.take(j - 1).push(p[j - 1]) =~= p.take(j as int));
        assert(u.drop_last() =~= p.skip(j as int).reverse());
    }
}

/// Pushing the shapes of `p` onto an empty history and then undoing `p.len()`
/// times leaves nothing committed; undo hands the shapes back newest first,
/// each redo after that hands them back in the reverse of that order, and
/// `p.len()` redos leave exactly `p` committed.
pub proof fn lemma_undo_all_then_redo_all(p: Seq<Shape>)
    ensures
        push_all(HistoryModel::empty(), p).committed == p,
        undo_times(push_all(HistoryModel::empty(), p), p.len()).committed.len() == 0,
        forall|j: nat|
            j < p.len() ==> #[trigger] undo_times(push_all(HistoryModel::empty(), p), j).undo().1
                == Some(p[p.len() - 1 - j]),
        forall|j: nat|
            j < p.len() ==> #[trigger] redo_times(
                undo_times(push_all(HistoryModel::empty(), p), p.len()),
                j,
            ).redo().1 == undo_times(push_all(HistoryModel::empty(), p), (p.len() - 1 - j) as nat).undo().1,
        redo_times(undo_times(push_all(HistoryModel::empty(), p), p.len()), p.len()).committed == p,
        redo_times(undo_times(push_all(HistoryModel::empty(), p), p.len()), p.len()).undone.len() == 0,
{
    let n = p.len();
    lemma_push_all_from_empty(p);
    lemma_undo_times(p, n);
    assert(p.skip(0) =~= p);
    assert(p.take(0) =~= Seq::<Shape>::empty());
    assert(undo_times(push_all(HistoryModel::empty(), p), n) == (HistoryModel {
        committed: Seq::empty(),
        undone: p.reverse(),
    }));
    assert forall|j: nat| j < n implies #[trigger] undo_times(push_all(HistoryModel::empty(), p), j).undo().1
        == Some(p[n - 1 - j]) by {
        lemma_undo_times(p, j);
        assert(p.take(n - j).last() == p[n - 1 - j]);
    }
    assert forall|j: nat| j < n implies #[trigger] redo_times(
        undo_times(push_all(HistoryModel::empty(), p), n),
        j,
    ).redo().1 == undo_times(push_all(HistoryModel::empty(), p), (n - 1 - j) as nat).undo().1 by {
        lemma_redo_times(p, j);
        lemma_undo_times(p, (n - 1 - j) as nat);
        assert(p.skip(j as int).reverse().last() == p[j as int]);
        assert(p.take(j + 1 as int).last() == p[j as int]);
    }
    lemma_redo_times(p, n);
    assert(p.take(n as int) =~= p);
}

/// A push after an undo drops what that undo took: after pushing `a` and `b`,
/// undoing, and pushing `c`, there is nothing to redo.
pub proof fn lemma_push_after_undo_drops_redo(h: HistoryModel, a: Shape, b: Shape, c: Shape)
    ensures
        h.push(a).push(b).undo().0.push(c).redo() == (h.push(a).push(b).undo().0.push(c), None::<Shape>),
{
}

/// A cleared history has nothing to undo or redo: both leave it as it is.
pub proof fn lemma_cleared_is_inert()
    ensures
        HistoryModel::empty().undo() == (HistoryModel::empty(), None::<Shape>),
        HistoryModel::empty().redo() == (HistoryModel::empty(), None::<Shape>),
{
}

/// Committed shapes, in drawing order, and the shapes that undo took off them.
pub struct History {
    committed: Vec<Shape>,
    undone: Vec<Shape>,
}

impl View for History {
    type V = HistoryModel;

    closed spec fn view(&self) -> HistoryModel {
        HistoryModel { committed: self.committed@, undone: self.undone@ }
    }
}

impl History {
    pub fn new() -> (h: History)
        ensures
            h@ == HistoryModel::empty(),
    {
        History { committed: Vec::new(), undone: Vec::new() }
    }

    /// The committed shapes, oldest first.
    pub fn committed(&self) -> (r: &Vec<Shape>)
        ensures
            r@ == self@.committed,
    {
        &self.committed
    }

    /// The shapes that redo can bring back; the next one is last.
    pub fn undone(&self) -> (r: &Vec<Shape>)
        ensures
            r@ == self@.undone,
    {
        &self.undone
    }

    pub fn push(&mut self, s: Shape)
        ensures
            final(self)@ == old(self)@.push(s),
    {
        self.committed.push(s);
        self.undone.clear();
        assert(final(self)@.undone =~= Seq::<Shape>::empty());
    }

    /// Takes back the last committed shape; does nothing when there is none.
    pub fn undo(&mut self) -> (r: Option<Shape>)
        ensures
            (final(self)@, r) == old(self)@.undo(),
    {
        match self.committed.pop() {
            Some(s) => {
                self.undone.push(s);
                Some(s)
            },
            None => None,
        }
    }

    /// Brings back the last undone shape; does nothing when there is none.
    pub fn redo(&mut self) -> (r: Option<Shape>)
        ensures
            (final(self)@, r) == old(self)@.redo(),
    {
        match self.undone.pop() {
            Some(s) => {
                self.committed.push(s);
                Some(s)
            },
            None => None,
        }
    }

    /// Empties both stacks.
    pub fn clear(&mut self)
        ensures
            final(self)@ == HistoryModel::empty(),
    {
        self.committed.clear();
        self.undone.clear();
        assert(final(self)@.committed =~= Seq::<Shape>::empty());
        assert(final(self)@.undone =~= Seq::<Shape>::empty());
    }
}

} // verus!
