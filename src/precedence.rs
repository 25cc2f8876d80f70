use vstd::prelude::*;

verus! {

/// How a chain `x0 op0 x1 op1 ... xn` of operands and binary operators
/// groups. Leaves and nodes carry positions: operand `i` is `xi`, operator
/// `k` stands between `xk` and `x(k+1)`.
#[derive(Debug, PartialEq, Eq)]
pub enum FoldTree {
    /// The operand at this position.
    Leaf(usize),
    /// The operator at this position applied to the groups on its two sides.
    Node(usize, Box<FoldTree>, Box<FoldTree>),
}

/// The operator among positions `lo..hi` that binds loosest: the rightmost
/// one of lowest precedence, since every operator associates to the left.
pub open spec fn loosest(prec: Seq<u8>, lo: int, hi: int) -> int
    decreases hi - lo,
{
    if hi - lo <= 1 {
        lo
    } else {
        let r = loosest(prec, lo + 1, hi);
        if prec[lo] < prec[r] {
            lo
        } else {
            r
        }
    }
}

/// The grouping of the operands `lo..=hi` with the operators `lo..hi` between
/// them, where operator `k` has precedence `prec[k]` (higher binds tighter):
/// the loosest operator is the root, and each side groups the same way.
pub open spec fn fold_tree(prec: Seq<u8>, lo: int, hi: int) -> FoldTree
    decreases hi - lo,
{
    if hi <= lo {
        FoldTree::Leaf(lo as usize)
    } else {
        let k = loosest(prec, lo, hi);
        proof {
            lemma_loosest(prec, lo, hi);
        }
        FoldTree::Node(k as usize, Box::new(fold_tree(prec, lo, k)), Box::new(fold_tree(prec, k + 1, hi)))
    }
}

/// Every leaf of `t` is at most `n_ops` and every node is below it.
pub open spec fn within(t: FoldTree, n_ops: int) -> bool
    decreases t,
{
    match t {
        FoldTree::Leaf(i) => i <= n_ops,
        FoldTree::Node(k, l, r) => k < n_ops && within(*l, n_ops) && within(*r, n_ops),
    }
}

/// The loosest operator lies in the range; those left of it bind at least as
/// tightly, those right of it strictly more tightly.
pub proof fn lemma_loosest(prec: Seq<u8>, lo: int, hi: int)
    requires
        lo < hi,
    ensures
        lo <= loosest(prec, lo, hi) < hi,
        forall|j: int| lo <= j < loosest(prec, lo, hi) ==> #[trigger] prec[j] >= prec[loosest(prec, lo, hi)],
        forall|j: int| loosest(prec, lo, hi) < j < hi ==> #[trigger] prec[j] > prec[loosest(prec, lo, hi)],
    decreases hi - lo,
{
    if hi - lo > 1 {
        lemma_loosest(prec, lo + 1, hi);
    }
}

/// The properties of [`lemma_loosest`] single out the loosest operator.
pub proof fn lemma_loosest_unique(prec: Seq<u8>, lo: int, hi: int, c: int)
    requires
        lo <= c < hi,
        forall|j: int| lo <= j < c ==> #[trigger] prec[j] >= prec[c],
        forall|j: int| c < j < hi ==> #[trigger] prec[j] > prec[c],
    ensures
        loosest(prec, lo, hi) == c,
{
    lemma_loosest(prec, lo, hi);
    let k = loosest(prec, lo, hi);
    if k < c {
        assert(prec[k] >= prec[c]);
        assert(prec[c] > prec[k]);
    } else if k > c {
        assert(prec[k] > prec[c]);
        assert(prec[c] >= prec[k]);
    }
}

/// The loosest operator of a range depends only on the precedences inside it.
pub proof fn lemma_loosest_congruent(p: Seq<u8>, q: Seq<u8>, lo: int, hi: int)
    requires
        forall|i: int| lo <= i < hi ==> #[trigger] p[i] == q[i],
    ensures
        loosest(p, lo, hi) == loosest(q, lo, hi),
    decreases hi - lo,
{
    if hi - lo > 1 {
        lemma_loosest_congruent(p, q, lo + 1, hi);
        lemma_loosest(p, lo + 1, hi);
    }
}

/// The grouping of a range depends only on the precedences inside it.
pub proof fn lemma_fold_tree_congruent(p: Seq<u8>, q: Seq<u8>, lo: int, hi: int)
    requires
        forall|i: int| lo <= i < hi ==> #[trigger] p[i] == q[i],
    ensures
        fold_tree(p, lo, hi) == fold_tree(q, lo, hi),
    decreases hi - lo,
{
    if lo < hi {
        lemma_loosest_congruent(p, q, lo, hi);
        lemma_loosest(p, lo, hi);
        let k = loosest(p, lo, hi);
        lemma_fold_tree_congruent(p, q, lo, k);
        lemma_fold_tree_congruent(p, q, k + 1, hi);
    }
}

/// The grouping only names positions of the chain.
pub proof fn lemma_fold_tree_within(prec: Seq<u8>, lo: int, hi: int, n_ops: int)
    requires
        0 <= lo <= hi,
        hi <= n_ops,
        n_ops <= usize::MAX,
    ensures
        within(fold_tree(prec, lo, hi), n_ops),
    decreases hi - lo,
{
    if lo < hi {
        lemma_loosest(prec, lo, hi);
        let k = loosest(prec, lo, hi);
        lemma_fold_tree_within(prec, lo, k, n_ops);
        lemma_fold_tree_within(prec, k + 1, hi, n_ops);
    }
}

/// Operators of equal precedence group to the left: in a chain whose
/// operators all bind alike, the last operator is the root and takes the
/// whole rest of the chain as its left operand, so `a - b - c` is
/// `(a - b) - c`.
pub proof fn lemma_left_associative(prec: Seq<u8>, lo: int, hi: int)
    requires
        0 <= lo < hi,
        hi <= prec.len(),
        hi <= usize::MAX,
        forall|i: int, j: int| lo <= i < hi && lo <= j < hi ==> #[trigger] prec[i] == #[trigger] prec[j],
    ensures
        fold_tree(prec, lo, hi) == FoldTree::Node(
            (hi - 1) as usize,
            Box::new(fold_tree(prec, lo, hi - 1)),
            Box::new(FoldTree::Leaf(hi as usize)),
        ),
{
    lemma_loosest_unique(prec, lo, hi, hi - 1);
    assert(fold_tree(prec, hi, hi) == FoldTree::Leaf(hi as usize));
}

/// An operator that binds more tightly than every other one of the chain
/// groups only its two neighbours: it is a node whose sides are leaves.
pub proof fn lemma_tightest_groups_neighbours(prec: Seq<u8>, lo: int, hi: int, k: int)
    requires
        0 <= lo <= k < hi,
        hi <= prec.len(),
        hi <= usize::MAX,
        forall|j: int| lo <= j < hi && j != k ==> #[trigger] prec[j] < prec[k],
    ensures
        contains_node(
            fold_tree(prec, lo, hi),
            FoldTree::Node(k as usize, Box::new(FoldTree::Leaf(k as usize)), Box::new(FoldTree::Leaf((k + 1) as usize))),
        ),
    decreases hi - lo,
{
    lemma_loosest(prec, lo, hi);
    let c = loosest(prec, lo, hi);
    if c == k {
        if lo < k {
            assert(prec[lo] >= prec[c]);
            assert(prec[lo] < prec[k]);
        }
        if k + 1 < hi {
            assert(prec[k + 1] > prec[c]);
            assert(prec[k + 1] < prec[k]);
        }
        assert(fold_tree(prec, lo, k) == FoldTree::Leaf(k as usize));
        assert(fold_tree(prec, k + 1, hi) == FoldTree::Leaf((k + 1) as usize));
    } else if c < k {
        lemma_tightest_groups_neighbours(prec, c + 1, hi, k);
    } else {
        lemma_tightest_groups_neighbours(prec, lo, c, k);
    }
}

/// Whether `n` is `t` or a subtree of it.
pub open spec fn contains_node(t: FoldTree, n: FoldTree) -> bool
    decreases t,
{
    t == n || match t {
        FoldTree::Leaf(_) => false,
        FoldTree::Node(_, l, r) => contains_node(*l, n) || contains_node(*r, n),
    }
}

/// Precedence climbing from operand `start`: takes operators while they bind
/// at least `min` tightly and returns the grouping together with the position
/// of the first operator it left.
fn climb(prec: &Vec<u8>, start: usize, min: u16) -> (res: (FoldTree, usize))
    requires
        start <= prec@.len(),
    ensures
        start <= res.1 <= prec@.len(),
        forall|j: int| start <= j < res.1 ==> #[trigger] prec@[j] >= min,
        res.1 == prec@.len() || prec@[res.1 as int] < min,
        res.0 == fold_tree(prec@, start as int, res.1 as int),
    decreases prec@.len() - start,
{
    let mut lhs = FoldTree::Leaf(start);
    let mut pos = start;
    while pos < prec.len() && prec[pos] as u16 >= min
        invariant
            start <= pos <= prec@.len(),
            forall|j: int| start <= j < pos ==> #[trigger] prec@[j] >= min,
            pos < prec@.len() ==> forall|j: int| start <= j < pos ==> #[trigger] prec@[j] >= prec@[pos as int],
            lhs == fold_tree(prec@, start as int, pos as int),
        decreases prec@.len() - pos,
    {
        let p = prec[pos];
        let (rhs, next) = climb(prec, pos + 1, p as u16 + 1);
        proof {
            lemma_loosest_unique(prec@, start as int, next as int, pos as int);
        }
        lhs = FoldTree::Node(pos, Box::new(lhs), Box::new(rhs));
        pos = next;
    }
    (lhs, pos)
}

/// Groups a chain with `prec@.len()` operators, operator `k` having
/// precedence `prec[k]`: higher binds tighter, equal groups to the left.
pub fn fold_order(prec: &Vec<u8>) -> (t: FoldTree)
    ensures
        t == fold_tree(prec@, 0, prec@.len() as int),
{
    let (t, end) = climb(prec, 0, 0);
    t
}

} // verus!
