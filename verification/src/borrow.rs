use vstd::prelude::*;

verus! {

/// The borrow state of a cell: free, shared by a number of views, or held by one exclusive
/// view.
#[derive(Clone, Copy, Debug, PartialEq, Eq, Structural)]
pub enum BorrowFlag {
    /// No view is outstanding.
    Free,
    /// The given number of shared views are outstanding; the number is at least one.
    Shared(usize),
    /// One exclusive view is outstanding.
    Exclusive,
}

/// A request that changes the borrow state of a cell.
#[derive(Clone, Copy, Debug, PartialEq, Eq, Structural)]
pub enum BorrowOp {
    /// Ask for a shared view.
    Borrow,
    /// Ask for an exclusive view.
    BorrowMut,
    /// Give a shared view back.
    Release,
    /// Give the exclusive view back.
    ReleaseMut,
}

/// How many views of each kind are live: handed out and not yet given back.
pub struct LiveViews {
    /// The live shared views.
    pub shared: int,
    /// The live exclusive views.
    pub exclusive: int,
}

impl LiveViews {
    /// The aliasing discipline: at most one exclusive view, and none while a shared view is
    /// live.
    pub open spec fn disciplined(&self) -> bool {
        &&& 0 <= self.shared
        &&& 0 <= self.exclusive <= 1
        &&& self.exclusive == 1 ==> self.shared == 0
    }

    /// The counts after `op` was asked of a cell in state `flag`.
    pub open spec fn after(self, flag: BorrowFlag, op: BorrowOp) -> LiveViews {
        if !flag.grants(op) {
            self
        } else {
            match op {
                BorrowOp::Borrow => LiveViews { shared: self.shared + 1, ..self },
                BorrowOp::BorrowMut => LiveViews { exclusive: self.exclusive + 1, ..self },
                BorrowOp::Release => LiveViews { shared: self.shared - 1, ..self },
                BorrowOp::ReleaseMut => LiveViews { exclusive: self.exclusive - 1, ..self },
            }
        }
    }

    /// The counts after each request of `ops` was asked in turn, starting in state `flag`.
    pub open spec fn after_all(self, flag: BorrowFlag, ops: Seq<BorrowOp>) -> LiveViews
        decreases ops.len(),
    {
        if ops.len() == 0 {
            self
        } else {
            self.after(flag, ops[0]).after_all(flag.step(ops[0]), ops.drop_first())
        }
    }
}

impl BorrowFlag {
    /// A count of shared views is never zero.
    pub open spec fn wf(&self) -> bool {
        self matches BorrowFlag::Shared(n) ==> n >= 1
    }

    /// The number of shared views that the flag records.
    pub open spec fn shared_views(&self) -> int {
        match self {
            BorrowFlag::Shared(n) => *n as int,
            _ => 0,
        }
    }

    /// The number of exclusive views that the flag records.
    pub open spec fn exclusive_views(&self) -> int {
        match self {
            BorrowFlag::Exclusive => 1,
            _ => 0,
        }
    }

    /// Whether one more shared view can be handed out: none is exclusive, and the count of
    /// shared views still fits the machine word.
    pub open spec fn admits_shared(&self) -> bool {
        match self {
            BorrowFlag::Free => true,
            BorrowFlag::Shared(n) => *n < usize::MAX,
            BorrowFlag::Exclusive => false,
        }
    }

    /// Whether an exclusive view can be handed out: no view at all is outstanding.
    pub open spec fn admits_exclusive(&self) -> bool {
        self is Free
    }

    /// Whether a request is granted in this state. A view can be given back only while one of
    /// its kind is outstanding.
    pub open spec fn grants(&self, op: BorrowOp) -> bool {
        match op {
            BorrowOp::Borrow => self.admits_shared(),
            BorrowOp::BorrowMut => self.admits_exclusive(),
            BorrowOp::Release => self is Shared,
            BorrowOp::ReleaseMut => self is Exclusive,
        }
    }

    /// The state after a request: a granted request moves the state, a refused one leaves it
    /// as it is.
    pub open spec fn step(self, op: BorrowOp) -> BorrowFlag {
        if !self.grants(op) {
            self
        } else {
            match op {
                BorrowOp::Borrow => BorrowFlag::Shared((self.shared_views() + 1) as usize),
                BorrowOp::BorrowMut => BorrowFlag::Exclusive,
                BorrowOp::Release => if self.shared_views() <= 1 {
                    BorrowFlag::Free
                } else {
                    BorrowFlag::Shared((self.shared_views() - 1) as usize)
                },
                BorrowOp::ReleaseMut => BorrowFlag::Free,
            }
        }
    }

    /// The state after each request of `ops` in turn.
    pub open spec fn run(self, ops: Seq<BorrowOp>) -> BorrowFlag
        decreases ops.len(),
    {
        if ops.len() == 0 {
            self
        } else {
            self.step(ops[0]).run(ops.drop_first())
        }
    }

    /// Whether the flag records exactly the live views `views`.
    pub open spec fn records(&self, views: LiveViews) -> bool {
        self.shared_views() == views.shared && self.exclusive_views() == views.exclusive
    }

    /// Tests whether one more shared view can be handed out.
    pub fn can_share(&self) -> (r: bool)
        ensures
            r == self.admits_shared(),
    {
        match self {
            BorrowFlag::Free => true,
            BorrowFlag::Shared(n) => *n < usize::MAX,
            BorrowFlag::Exclusive => false,
        }
    }

    /// Asks for a request, and says whether it was granted.
    pub fn apply(&mut self, op: BorrowOp) -> (granted: bool)
        requires
            old(self).wf(),
        ensures
            granted == old(self).grants(op),
            *final(self) == old(self).step(op),
            final(self).wf(),
    {
        match op {
            BorrowOp::Borrow => match *self {
                BorrowFlag::Free => {
                    *self = BorrowFlag::Shared(1);
                    true
                },
                BorrowFlag::Shared(n) => {
                    if n < usize::MAX {
                        *self = BorrowFlag::Shared(n + 1);
                        true
                    } else {
                        false
                    }
                },
                BorrowFlag::Exclusive => false,
            },
            BorrowOp::BorrowMut => match *self {
                BorrowFlag::Free => {
                    *self = BorrowFlag::Exclusive;
                    true
                },
                _ => false,
            },
            BorrowOp::Release => match *self {
                BorrowFlag::Shared(n) => {
                    if n <= 1 {
                        *self = BorrowFlag::Free;
                    } else {
                        *self = BorrowFlag::Shared(n - 1);
                    }
                    true
                },
                _ => false,
            },
            BorrowOp::ReleaseMut => match *self {
                BorrowFlag::Exclusive => {
                    *self = BorrowFlag::Free;
                    true
                },
                _ => false,
            },
        }
    }
}

/// A refused request changes nothing: neither the state nor the live views.
pub proof fn lemma_refused_changes_nothing(flag: BorrowFlag, views: LiveViews, op: BorrowOp)
    requires
        !flag.grants(op),
    ensures
        flag.step(op) == flag,
        views.after(flag, op) == views,
{
}

/// One request keeps the discipline: if the flag records the live views and they are
/// disciplined, the same holds after the request.
pub proof fn lemma_step_keeps_discipline(flag: BorrowFlag, views: LiveViews, op: BorrowOp)
    requires
        flag.wf(),
        flag.records(views),
        views.disciplined(),
    ensures
        flag.step(op).wf(),
        flag.step(op).records(views.after(flag, op)),
        views.after(flag, op).disciplined(),
{
}

/// Whatever requests are made of a cell, in whatever order, the live views stay disciplined:
/// at most one exclusive view or any number of shared views, never both. The flag always
/// records exactly the views that are live.
pub proof fn lemma_run_keeps_discipline(flag: BorrowFlag, views: LiveViews, ops: Seq<BorrowOp>)
    requires
        flag.wf(),
        flag.records(views),
        views.disciplined(),
    ensures
        flag.run(ops).wf(),
        flag.run(ops).records(views.after_all(flag, ops)),
        views.after_all(flag, ops).disciplined(),
    decreases ops.len(),
{
    if ops.len() > 0 {
        lemma_step_keeps_discipline(flag, views, ops[0]);
        lemma_run_keeps_discipline(
            flag.step(ops[0]),
            views.after(flag, ops[0]),
            ops.drop_first(),
        );
    }
}

/// A fresh cell has no live view, so every sequence of requests on it keeps the discipline.
pub proof fn lemma_fresh_cell_keeps_discipline(ops: Seq<BorrowOp>)
    ensures
        ({
            let none = LiveViews { shared: 0, exclusive: 0 };
            &&& BorrowFlag::Free.run(ops).wf()
            &&& BorrowFlag::Free.run(ops).records(none.after_all(BorrowFlag::Free, ops))
            &&& none.after_all(BorrowFlag::Free, ops).disciplined()
        }),
{
    lemma_run_keeps_discipline(BorrowFlag::Free, LiveViews { shared: 0, exclusive: 0 }, ops);
}

} // verus!
