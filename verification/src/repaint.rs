//! Repaint outcomes and their aggregation into one instruction per batch.

use vstd::prelude::*;
use vstd::seq_lib::*;

verus! {

/// What must be redrawn after one call, ordered by how much of the surface it covers.
#[derive(Clone, Copy, Debug, PartialEq, Eq, Structural)]
pub enum RepaintOutcome {
    /// No visual change.
    Nothing,
    /// Only the cursor moved.
    Cursor { row: u64, col: u64 },
    /// A rectangular region of cells is dirty.
    Area { top: u64, bot: u64, left: u64, right: u64 },
    /// The whole surface must be redrawn.
    Full,
}

pub open spec fn min_spec(a: u64, b: u64) -> u64 {
    if a <= b {
        a
    } else {
        b
    }
}

pub open spec fn max_spec(a: u64, b: u64) -> u64 {
    if a >= b {
        a
    } else {
        b
    }
}

fn min_of(a: u64, b: u64) -> (m: u64)
    ensures
        m == min_spec(a, b),
{
    if a <= b {
        a
    } else {
        b
    }
}

fn max_of(a: u64, b: u64) -> (m: u64)
    ensures
        m == max_spec(a, b),
{
    if a >= b {
        a
    } else {
        b
    }
}

impl RepaintOutcome {
    /// Rank in the severity order: `Nothing` 0, `Cursor` 1, `Area` 2, `Full` 3.
    pub open spec fn rank(self) -> int {
        match self {
            RepaintOutcome::Nothing => 0,
            RepaintOutcome::Cursor { .. } => 1,
            RepaintOutcome::Area { .. } => 2,
            RepaintOutcome::Full => 3,
        }
    }

    /// The outcome of `self` followed by `later`.
    ///
    /// `Full` absorbs everything, two areas give their bounding rectangle, an area absorbs
    /// a cursor move, the later of two cursor moves stays, and `Nothing` changes nothing.
    pub open spec fn join_spec(self, later: RepaintOutcome) -> RepaintOutcome {
        match (self, later) {
            (RepaintOutcome::Full, _) => RepaintOutcome::Full,
            (_, RepaintOutcome::Full) => RepaintOutcome::Full,
            (
                RepaintOutcome::Area { top, bot, left, right },
                RepaintOutcome::Area { top: top2, bot: bot2, left: left2, right: right2 },
            ) => RepaintOutcome::Area {
                top: min_spec(top, top2),
                bot: max_spec(bot, bot2),
                left: min_spec(left, left2),
                right: max_spec(right, right2),
            },
            (RepaintOutcome::Area { .. }, _) => self,
            (_, RepaintOutcome::Area { .. }) => later,
            (_, RepaintOutcome::Cursor { .. }) => later,
            (_, RepaintOutcome::Nothing) => self,
        }
    }

    /// Severity rank of this outcome.
    pub fn severity(self) -> (s: u8)
        ensures
            s == self.rank(),
    {
        match self {
            RepaintOutcome::Nothing => 0,
            RepaintOutcome::Cursor { .. } => 1,
            RepaintOutcome::Area { .. } => 2,
            RepaintOutcome::Full => 3,
        }
    }

    /// Combines this outcome with the outcome of a later call.
    #[verifier::when_used_as_spec(join_spec)]
    pub fn join(self, later: RepaintOutcome) -> (joined: RepaintOutcome)
        ensures
            joined == self.join_spec(later),
    {
        match (self, later) {
            (RepaintOutcome::Full, _) => RepaintOutcome::Full,
            (_, RepaintOutcome::Full) => RepaintOutcome::Full,
            (
                RepaintOutcome::Area { top, bot, left, right },
                RepaintOutcome::Area { top: top2, bot: bot2, left: left2, right: right2 },
            ) => RepaintOutcome::Area {
                top: min_of(top, top2),
                bot: max_of(bot, bot2),
                left: min_of(left, left2),
                right: max_of(right, right2),
            },
            (RepaintOutcome::Area { .. }, _) => self,
            (_, RepaintOutcome::Area { .. }) => later,
            (_, RepaintOutcome::Cursor { .. }) => later,
            (_, RepaintOutcome::Nothing) => self,
        }
    }
}

/// The instruction for a whole batch: the outcomes joined in the order of the calls,
/// starting from `Nothing`.
pub open spec fn fold_spec(outcomes: Seq<RepaintOutcome>) -> RepaintOutcome
    decreases outcomes.len(),
{
    if outcomes.len() == 0 {
        RepaintOutcome::Nothing
    } else {
        fold_spec(outcomes.drop_last()).join(outcomes.last())
    }
}

/// Folds the outcomes of a batch into the one instruction that covers them all.
pub fn fold(outcomes: &Vec<RepaintOutcome>) -> (instruction: RepaintOutcome)
    ensures
        instruction == fold_spec(outcomes@),
{
    let mut acc = RepaintOutcome::Nothing;
    let mut i: usize = 0;
    while i < outcomes.len()
        invariant
            i <= outcomes.len(),
            acc == fold_spec(outcomes@.take(i as int)),
        decreases outcomes.len() - i,
    {
        proof {
            let next = outcomes@.take(i + 1);
            assert(next.drop_last() =~= outcomes@.take(i as int));
            assert(next.last() == outcomes@[i as int]);
        }
        acc = acc.join(outcomes[i]);
        i += 1;
    }
    proof {
        assert(outcomes@.take(i as int) =~= outcomes@);
    }
    acc
}

/// Whether the folded instruction of `outcomes` is the same in every order: an `Area`
/// or `Full` is among them, or all cursor moves among them go to the same cell.
pub open spec fn order_insensitive(outcomes: Seq<RepaintOutcome>) -> bool {
    ||| exists|i: int| 0 <= i < outcomes.len() && (#[trigger] outcomes[i]).rank() >= 2
    ||| forall|i: int, j: int|
        0 <= i < outcomes.len() && 0 <= j < outcomes.len() && outcomes[i] is Cursor
            && outcomes[j] is Cursor ==> outcomes[i] == outcomes[j]
}

/// Joining is associative.
pub proof fn lemma_join_associative(a: RepaintOutcome, b: RepaintOutcome, c: RepaintOutcome)
    ensures
        a.join(b).join(c) == a.join(b.join(c)),
{
}

/// Joining is commutative, except for two cursor moves to different cells.
pub proof fn lemma_join_commutative(a: RepaintOutcome, b: RepaintOutcome)
    requires
        !(a is Cursor && b is Cursor && a != b),
    ensures
        a.join(b) == b.join(a),
{
}

/// `Nothing` is the identity of joining, and `Full` absorbs every outcome.
pub proof fn lemma_join_identity_and_top(a: RepaintOutcome)
    ensures
        a.join(RepaintOutcome::Nothing) == a,
        RepaintOutcome::Nothing.join(a) == a,
        a.join(RepaintOutcome::Full) == RepaintOutcome::Full,
        RepaintOutcome::Full.join(a) == RepaintOutcome::Full,
{
}

/// The severity of a join is the larger of the two severities.
pub proof fn lemma_join_rank(a: RepaintOutcome, b: RepaintOutcome)
    ensures
        a.join(b).rank() == if a.rank() >= b.rank() {
            a.rank()
        } else {
            b.rank()
        },
{
}

/// Folding a batch made of two parts is joining the folds of the parts.
pub proof fn lemma_fold_concat(a: Seq<RepaintOutcome>, b: Seq<RepaintOutcome>)
    ensures
        fold_spec(a + b) == fold_spec(a).join(fold_spec(b)),
    decreases b.len(),
{
    if b.len() == 0 {
        assert(a + b =~= a);
    } else {
        assert((a + b).drop_last() =~= a + b.drop_last());
        assert((a + b).last() == b.last());
        lemma_fold_concat(a, b.drop_last());
        lemma_join_associative(fold_spec(a), fold_spec(b.drop_last()), b.last());
    }
}

/// The folded instruction is at least as severe as every outcome of the batch, and as
/// severe as one of them (or `Nothing` for an empty batch).
pub proof fn lemma_fold_rank(outcomes: Seq<RepaintOutcome>)
    ensures
        forall|i: int| 0 <= i < outcomes.len() ==> (#[trigger] outcomes[i]).rank() <= fold_spec(outcomes).rank(),
        outcomes.len() == 0 ==> fold_spec(outcomes) == RepaintOutcome::Nothing,
        outcomes.len() > 0 ==> exists|i: int|
            0 <= i < outcomes.len() && (#[trigger] outcomes[i]).rank() == fold_spec(outcomes).rank(),
    decreases outcomes.len(),
{
    if outcomes.len() > 0 {
        let front = outcomes.drop_last();
        lemma_fold_rank(front);
        lemma_join_rank(fold_spec(front), outcomes.last());
        assert forall|i: int| 0 <= i < outcomes.len() implies (#[trigger] outcomes[i]).rank()
            <= fold_spec(outcomes).rank() by {
            if i < front.len() {
                assert(front[i] == outcomes[i]);
            }
        }
        if front.len() > 0 && fold_spec(front).rank() >= outcomes.last().rank() {
            let k = choose|k: int|
                0 <= k < front.len() && (#[trigger] front[k]).rank() == fold_spec(front).rank();
            assert(outcomes[k] == front[k]);
        } else {
            assert(outcomes[outcomes.len() - 1].rank() == fold_spec(outcomes).rank());
        }
    }
}

/// A batch that holds a `Full` folds to `Full`.
pub proof fn lemma_fold_full(outcomes: Seq<RepaintOutcome>)
    requires
        outcomes.contains(RepaintOutcome::Full),
    ensures
        fold_spec(outcomes) == RepaintOutcome::Full,
{
    lemma_fold_rank(outcomes);
    let i = choose|i: int| 0 <= i < outcomes.len() && outcomes[i] == RepaintOutcome::Full;
    assert(outcomes[i].rank() == 3);
}

/// `Full` followed by any area folds to `Full`.
pub proof fn lemma_fold_full_then_area(top: u64, bot: u64, left: u64, right: u64)
    ensures
        fold_spec(seq![RepaintOutcome::Full, RepaintOutcome::Area { top, bot, left, right }])
            == RepaintOutcome::Full,
{
    let s = seq![RepaintOutcome::Full, RepaintOutcome::Area { top, bot, left, right }];
    assert(s[0] == RepaintOutcome::Full);
    lemma_fold_full(s);
}

/// A batch that folds to a cursor move holds that cursor move.
pub proof fn lemma_fold_cursor_is_member(outcomes: Seq<RepaintOutcome>)
    requires
        fold_spec(outcomes) is Cursor,
    ensures
        outcomes.contains(fold_spec(outcomes)),
    decreases outcomes.len(),
{
    if outcomes.len() > 0 {
        let front = outcomes.drop_last();
        if outcomes.last() is Cursor {
            assert(outcomes[outcomes.len() - 1] == fold_spec(outcomes));
        } else {
            lemma_fold_cursor_is_member(front);
            let k = choose|k: int| 0 <= k < front.len() && front[k] == fold_spec(front);
            assert(outcomes[k] == fold_spec(outcomes));
        }
    }
}

/// An outcome with every cursor move sent to the cell (0, 0).
spec fn anchored(o: RepaintOutcome) -> RepaintOutcome {
    if o is Cursor {
        RepaintOutcome::Cursor { row: 0, col: 0 }
    } else {
        o
    }
}

spec fn anchored_step() -> spec_fn(RepaintOutcome, RepaintOutcome) -> RepaintOutcome {
    |acc: RepaintOutcome, o: RepaintOutcome| anchored(acc).join(anchored(o))
}

proof fn lemma_anchored_fold(outcomes: Seq<RepaintOutcome>)
    ensures
        outcomes.fold_left(RepaintOutcome::Nothing, anchored_step()) == anchored(
            fold_spec(outcomes),
        ),
    decreases outcomes.len(),
{
    if outcomes.len() > 0 {
        lemma_anchored_fold(outcomes.drop_last());
    }
}

/// The folded instruction does not depend on the order of the calls, for every batch
/// that is `order_insensitive`.
pub proof fn lemma_fold_permutation(a: Seq<RepaintOutcome>, b: Seq<RepaintOutcome>)
    requires
        a.to_multiset() == b.to_multiset(),
        order_insensitive(a),
    ensures
        fold_spec(a) == fold_spec(b),
{
    broadcast use group_to_multiset_ensures;

    let f = anchored_step();
    assert(commutative_foldl(f));
    lemma_fold_left_permutation(a, b, f, RepaintOutcome::Nothing);
    lemma_anchored_fold(a);
    lemma_anchored_fold(b);
    assert(anchored(fold_spec(a)) == anchored(fold_spec(b)));
    if fold_spec(a) is Cursor {
        lemma_fold_cursor_is_member(a);
        lemma_fold_cursor_is_member(b);
        lemma_fold_rank(a);
        let ia = choose|i: int| 0 <= i < a.len() && a[i] == fold_spec(a);
        assert(b.to_multiset().count(fold_spec(b)) > 0);
        assert(a.contains(fold_spec(b)));
        let ib = choose|i: int| 0 <= i < a.len() && a[i] == fold_spec(b);
        assert(a[ia] is Cursor && a[ib] is Cursor);
    }
}

} // verus!
