use autalon::precedence::{fold_order, FoldTree};

fn leaf(i: usize) -> Box<FoldTree> {
    Box::new(FoldTree::Leaf(i))
}

#[test]
fn equal_operators_group_left() {
    // 2 - 3 - 4 is (2 - 3) - 4.
    let t = fold_order(&vec![1, 1]);
    assert_eq!(t, FoldTree::Node(1, Box::new(FoldTree::Node(0, leaf(0), leaf(1))), leaf(2)));
    let t = fold_order(&vec![2, 2, 2]);
    let inner = FoldTree::Node(1, Box::new(FoldTree::Node(0, leaf(0), leaf(1))), leaf(2));
    assert_eq!(t, FoldTree::Node(2, Box::new(inner), leaf(3)));
}

#[test]
fn tighter_operator_groups_first_in_tree() {
    // a + b * c is a + (b * c).
    let t = fold_order(&vec![1, 2]);
    assert_eq!(t, FoldTree::Node(0, leaf(0), Box::new(FoldTree::Node(1, leaf(1), leaf(2)))));
    // a * b + c is (a * b) + c.
    let t = fold_order(&vec![2, 1]);
    assert_eq!(t, FoldTree::Node(1, Box::new(FoldTree::Node(0, leaf(0), leaf(1))), leaf(2)));
    // a + b ^ c * d is a + ((b ^ c) * d).
    let t = fold_order(&vec![1, 3, 2]);
    let pow = FoldTree::Node(1, leaf(1), leaf(2));
    let mul = FoldTree::Node(2, Box::new(pow), leaf(3));
    assert_eq!(t, FoldTree::Node(0, leaf(0), Box::new(mul)));
}

#[test]
fn single_operand_is_a_leaf() {
    assert_eq!(fold_order(&vec![]), FoldTree::Leaf(0));
}
