use vstd::prelude::*;
use crate::ast::{Callee, Expr, Literal, MemberAccess};
use crate::checker::Checker;
use crate::compat_check::{arith_compatible, arith_op_allowed, check_arithmetic_op, check_comparation_op, check_type_arithmetic, comp_op_allowed};
use crate::pkg_fn_checker::{get_pkg_fn_return_type, pkg_fn_result};
use crate::precedence::{fold_order, fold_tree, lemma_fold_tree_congruent, lemma_fold_tree_within, lemma_left_associative, loosest, within, FoldTree};
use crate::types::{copy_result, ArithOp, CheckError, CompOp, Construct, LogicOp, Operator, Type};
use crate::var_state_checker::looked_up;

verus! {

/// The type of a literal.
pub open spec fn literal_type(l: Literal) -> Type {
    match l {
        Literal::Str(_) => Type::Str,
        Literal::Number(_) => Type::Number,
        Literal::Bool(_) => Type::Bool,
        Literal::ByOption(_) => Type::ByOption,
    }
}

/// The type of a name used as a value: a declared variable's type.
pub open spec fn member_type(m: MemberAccess, vars: Map<Seq<char>, Type>) -> Result<Type, CheckError> {
    match m {
        MemberAccess::Plain(name) => looked_up(vars, name),
        MemberAccess::Qualified(_, _) => Err(CheckError::UnsupportedConstruct(Construct::QualifiedMember)),
    }
}

/// The first error among outcomes, from the left.
pub open spec fn first_error(rs: Seq<Result<Type, CheckError>>) -> Option<CheckError>
    decreases rs.len(),
{
    if rs.len() == 0 {
        None
    } else {
        match rs[0] {
            Err(e) => Some(e),
            Ok(_) => first_error(rs.drop_first()),
        }
    }
}

/// The types of outcomes that hold no error.
pub open spec fn ok_types(rs: Seq<Result<Type, CheckError>>) -> Seq<Type> {
    rs.map_values(|r: Result<Type, CheckError>| match r {
        Ok(t) => t,
        Err(_) => Type::Void,
    })
}

/// The type of a call whose arguments resolve to `args`. Only
/// package-qualified calls are implemented: any other callee shape is
/// rejected before the arguments are looked at. Otherwise the first failed
/// argument fails the call.
pub open spec fn call_type(callee: Callee, args: Seq<Result<Type, CheckError>>) -> Result<Type, CheckError> {
    match callee {
        Callee::PackageQualified(pkg, name) => match first_error(args) {
            Some(e) => Err(e),
            None => pkg_fn_result(name, pkg, ok_types(args)),
        },
        Callee::PackageValueQualified(_, _, _) => Err(CheckError::UnsupportedConstruct(Construct::BuiltinValue)),
        _ => Err(CheckError::UnsupportedConstruct(Construct::LocalFunction)),
    }
}

/// One application of a binary operator to operand types `l` and `r`.
/// Arithmetic: the operator must suit the left type and the right type must
/// be compatible with it; the result has the left type. Comparison: the
/// operator must suit the left type and both types must be equal; the result
/// is a boolean. Logical: the result has the left type, and the two types
/// are neither compared nor required to be boolean.
pub open spec fn apply_op(op: Operator, l: Type, r: Type) -> Result<Type, CheckError> {
    match op {
        Operator::Arith(a) => if !arith_op_allowed(l, a) {
            Err(CheckError::OperatorTypeIncompatible(l, op))
        } else if !arith_compatible(l, r) {
            Err(CheckError::OperandTypeMismatch(l, r))
        } else {
            Ok(l)
        },
        Operator::Comp(c) => if !comp_op_allowed(l, c) {
            Err(CheckError::OperatorTypeIncompatible(l, op))
        } else if l != r {
            Err(CheckError::OperandTypeMismatch(l, r))
        } else {
            Ok(Type::Bool)
        },
        Operator::Logic(_) => Ok(l),
    }
}

/// The outcome of a grouping: the left side first, then the right side,
/// then the operator.
pub open spec fn fold_eval(t: FoldTree, operands: Seq<Result<Type, CheckError>>, ops: Seq<Operator>) -> Result<Type, CheckError>
    decreases t,
{
    match t {
        FoldTree::Leaf(i) => operands[i as int],
        FoldTree::Node(k, l, r) => match fold_eval(*l, operands, ops) {
            Err(e) => Err(e),
            Ok(lt) => match fold_eval(*r, operands, ops) {
                Err(e) => Err(e),
                Ok(rt) => apply_op(ops[k as int], lt, rt),
            },
        },
    }
}

/// The precedence of each operator.
pub open spec fn precedences(ops: Seq<Operator>) -> Seq<u8> {
    ops.map_values(|o: Operator| o.spec_precedence())
}

/// The type of a chain with the given operand outcomes and operators,
/// grouped by precedence.
pub open spec fn chain_type(operands: Seq<Result<Type, CheckError>>, ops: Seq<Operator>) -> Result<Type, CheckError> {
    fold_eval(fold_tree(precedences(ops), 0, ops.len() as int), operands, ops)
}

/// The type of expression `e` with the variables `vars`, or the error that
/// rejects it.
pub open spec fn expr_type(e: Expr, vars: Map<Seq<char>, Type>) -> Result<Type, CheckError>
    decreases e,
{
    match e {
        Expr::Literal(l) => Ok(literal_type(l)),
        Expr::Member(m) => member_type(m, vars),
        Expr::Call(callee, args) => call_type(callee, expr_types(args@, vars)),
        Expr::Arith(head, rest) => chain_type(
            seq![expr_type(*head, vars)] + rest_types(rest@, vars),
            rest@.map_values(|p: (ArithOp, Expr)| Operator::Arith(p.0)),
        ),
        Expr::Comp(head, rest) => chain_type(
            seq![expr_type(*head, vars)] + rest_types(rest@, vars),
            rest@.map_values(|p: (CompOp, Expr)| Operator::Comp(p.0)),
        ),
        Expr::Logic(head, rest) => chain_type(
            seq![expr_type(*head, vars)] + rest_types(rest@, vars),
            rest@.map_values(|p: (LogicOp, Expr)| Operator::Logic(p.0)),
        ),
    }
}

/// The outcome of each expression of a list.
pub open spec fn expr_types(es: Seq<Expr>, vars: Map<Seq<char>, Type>) -> Seq<Result<Type, CheckError>>
    decreases es,
{
    if es.len() == 0 {
        seq![]
    } else {
        expr_types(es.drop_last(), vars).push(expr_type(es.last(), vars))
    }
}

/// The outcome of each operand after the first of a chain.
pub open spec fn rest_types<O>(rest: Seq<(O, Expr)>, vars: Map<Seq<char>, Type>) -> Seq<Result<Type, CheckError>>
    decreases rest,
{
    if rest.len() == 0 {
        seq![]
    } else {
        rest_types(rest.drop_last(), vars).push(expr_type(rest.last().1, vars))
    }
}

/// Every literal resolves to its own type, whatever the variables: a string
/// to `Str`, a number to `Number`, a boolean to `Bool`, a by-option selector
/// to `ByOption`.
pub proof fn lemma_literal_type(l: Literal, vars: Map<Seq<char>, Type>)
    ensures
        expr_type(Expr::Literal(l), vars) == Ok::<Type, CheckError>(match l {
            Literal::Str(_) => Type::Str,
            Literal::Number(_) => Type::Number,
            Literal::Bool(_) => Type::Bool,
            Literal::ByOption(_) => Type::ByOption,
        }),
{
}

/// A single comparison of an operand of type `l` with one of type `r`: an
/// operator that `l` does not support fails with `OperatorTypeIncompatible`,
/// operands of different types fail with `OperandTypeMismatch`, and
/// otherwise the comparison is a boolean, whatever the operand type.
pub proof fn lemma_single_comparison(l: Type, op: CompOp, r: Type)
    ensures
        chain_type(seq![Ok(l), Ok(r)], seq![Operator::Comp(op)]) == (if !comp_op_allowed(l, op) {
            Err::<Type, CheckError>(CheckError::OperatorTypeIncompatible(l, Operator::Comp(op)))
        } else if l != r {
            Err(CheckError::OperandTypeMismatch(l, r))
        } else {
            Ok(Type::Bool)
        }),
{
    let ops = seq![Operator::Comp(op)];
    let prec = precedences(ops);
    assert(loosest(prec, 0, 1) == 0);
    assert(fold_tree(prec, 0, 0) == FoldTree::Leaf(0));
    assert(fold_tree(prec, 1, 1) == FoldTree::Leaf(1));
    let t = FoldTree::Node(0, Box::new(FoldTree::Leaf(0)), Box::new(FoldTree::Leaf(1)));
    assert(fold_tree(prec, 0, 1) == t);
    let operands = seq![Ok::<Type, CheckError>(l), Ok::<Type, CheckError>(r)];
    assert(fold_eval(FoldTree::Leaf(0), operands, ops) == Ok::<Type, CheckError>(l));
    assert(fold_eval(FoldTree::Leaf(1), operands, ops) == Ok::<Type, CheckError>(r));
    assert(ops[0] == Operator::Comp(op));
    assert(fold_eval(t, operands, ops) == apply_op(Operator::Comp(op), l, r));
}

/// Operators that bind alike fold from the left: a chain with one more
/// operand and operator has the outcome of the shorter chain combined with
/// the new operand by the new operator, so `2 - 3 - 4` is `(2 - 3) - 4`.
pub proof fn lemma_chain_folds_left(
    operands: Seq<Result<Type, CheckError>>,
    ops: Seq<Operator>,
    x: Result<Type, CheckError>,
    op: Operator,
)
    requires
        operands.len() == ops.len() + 1,
        ops.len() < usize::MAX,
        forall|i: int| 0 <= i < ops.len() ==> (#[trigger] ops[i]).spec_precedence() == op.spec_precedence(),
    ensures
        chain_type(operands.push(x), ops.push(op)) == (match chain_type(operands, ops) {
            Err(e) => Err(e),
            Ok(lt) => match x {
                Err(e) => Err(e),
                Ok(rt) => apply_op(op, lt, rt),
            },
        }),
{
    let n = ops.len() as int;
    let longer = ops.push(op);
    let p = precedences(ops);
    let q = precedences(longer);
    assert forall|i: int, j: int| 0 <= i < n + 1 && 0 <= j < n + 1 implies #[trigger] q[i] == #[trigger] q[j] by {
        assert(longer[i].spec_precedence() == op.spec_precedence());
        assert(longer[j].spec_precedence() == op.spec_precedence());
    }
    lemma_left_associative(q, 0, n + 1);
    assert forall|i: int| 0 <= i < n implies #[trigger] q[i] == p[i] by {
        assert(longer[i] == ops[i]);
    }
    lemma_fold_tree_congruent(q, p, 0, n);
    lemma_fold_tree_within(p, 0, n, n);
    lemma_fold_eval_extend(fold_tree(p, 0, n), operands, ops, x, op);
    assert(fold_eval(FoldTree::Leaf((n + 1) as usize), operands.push(x), longer) == x);
    assert(longer[n] == op);
}

/// A grouping within a chain evaluates alike when the chain is extended.
proof fn lemma_fold_eval_extend(
    t: FoldTree,
    operands: Seq<Result<Type, CheckError>>,
    ops: Seq<Operator>,
    x: Result<Type, CheckError>,
    op: Operator,
)
    requires
        within(t, ops.len() as int),
        operands.len() == ops.len() + 1,
    ensures
        fold_eval(t, operands.push(x), ops.push(op)) == fold_eval(t, operands, ops),
    decreases t,
{
    match t {
        FoldTree::Leaf(i) => {
            assert(operands.push(x)[i as int] == operands[i as int]);
        },
        FoldTree::Node(k, l, r) => {
            lemma_fold_eval_extend(*l, operands, ops, x, op);
            lemma_fold_eval_extend(*r, operands, ops, x, op);
            assert(ops.push(op)[k as int] == ops[k as int]);
        },
    }
}

proof fn lemma_rest_types_len<O>(rest: Seq<(O, Expr)>, vars: Map<Seq<char>, Type>)
    ensures
        rest_types(rest, vars).len() == rest.len(),
    decreases rest.len(),
{
    if rest.len() > 0 {
        lemma_rest_types_len(rest.drop_last(), vars);
    }
}

proof fn lemma_first_error_push(rs: Seq<Result<Type, CheckError>>, r: Result<Type, CheckError>)
    ensures
        first_error(rs.push(r)) == (match first_error(rs) {
            Some(e) => Some(e),
            None => match r {
                Err(e) => Some(e),
                Ok(_) => None::<CheckError>,
            },
        }),
    decreases rs.len(),
{
    if rs.len() > 0 {
        assert(rs.push(r)[0] == rs[0]);
        assert(rs.push(r).drop_first() =~= rs.drop_first().push(r));
        lemma_first_error_push(rs.drop_first(), r);
    } else {
        assert(rs.push(r).drop_first() =~= Seq::<Result<Type, CheckError>>::empty());
        assert(first_error(rs.push(r).drop_first()) is None);
        assert(rs.push(r)[0] == r);
    }
}

/// Evaluates a grouping over the operand outcomes.
fn eval_fold(t: &FoldTree, operands: &Vec<Result<Type, CheckError>>, ops: &Vec<Operator>) -> (r: Result<Type, CheckError>)
    requires
        within(*t, ops@.len() as int),
        operands@.len() == ops@.len() + 1,
    ensures
        r == fold_eval(*t, operands@, ops@),
    decreases t,
{
    match t {
        FoldTree::Leaf(i) => copy_result(&operands[*i]),
        FoldTree::Node(k, l, r) => {
            let lt = match eval_fold(l, operands, ops) {
                Ok(lt) => lt,
                Err(e) => return Err(e),
            };
            let rt = match eval_fold(r, operands, ops) {
                Ok(rt) => rt,
                Err(e) => return Err(e),
            };
            apply_operator(ops[*k], lt, rt)
        },
    }
}

/// One application of a binary operator to operand types.
fn apply_operator(op: Operator, l: Type, r: Type) -> (res: Result<Type, CheckError>)
    ensures
        res == apply_op(op, l, r),
{
    match op {
        Operator::Arith(a) => {
            if let Err(e) = check_arithmetic_op(l, a) {
                return Err(e);
            }
            if let Err(e) = check_type_arithmetic(l, r) {
                return Err(e);
            }
            Ok(l)
        },
        Operator::Comp(c) => {
            if let Err(e) = check_comparation_op(l, c) {
                return Err(e);
            }
            if l != r {
                return Err(CheckError::OperandTypeMismatch(l, r));
            }
            Ok(Type::Bool)
        },
        Operator::Logic(_) => Ok(l),
    }
}

/// Groups a chain by precedence and evaluates it.
fn fold_chain(operands: &Vec<Result<Type, CheckError>>, ops: &Vec<Operator>) -> (r: Result<Type, CheckError>)
    requires
        operands@.len() == ops@.len() + 1,
    ensures
        r == chain_type(operands@, ops@),
{
    let mut prec: Vec<u8> = Vec::new();
    let mut i: usize = 0;
    while i < ops.len()
        invariant
            0 <= i <= ops@.len(),
            prec@ == precedences(ops@.subrange(0, i as int)),
        decreases ops@.len() - i,
    {
        prec.push(ops[i].precedence());
        i = i + 1;
        assert(prec@ =~= precedences(ops@.subrange(0, i as int)));
    }
    assert(ops@.subrange(0, ops@.len() as int) =~= ops@);
    let t = fold_order(&prec);
    proof {
        lemma_fold_tree_within(prec@, 0, prec@.len() as int, ops@.len() as int);
    }
    eval_fold(&t, operands, ops)
}

/// The operators of a chain, in order.
fn chain_ops<O: Copy>(rest: &Vec<(O, Expr)>) -> (r: Vec<O>)
    ensures
        r@ == rest@.map_values(|p: (O, Expr)| p.0),
{
    let mut ops: Vec<O> = Vec::new();
    let mut i: usize = 0;
    while i < rest.len()
        invariant
            0 <= i <= rest@.len(),
            ops@ == rest@.subrange(0, i as int).map_values(|p: (O, Expr)| p.0),
        decreases rest@.len() - i,
    {
        ops.push(rest[i].0);
        i = i + 1;
        assert(ops@ =~= rest@.subrange(0, i as int).map_values(|p: (O, Expr)| p.0));
    }
    assert(rest@.subrange(0, rest@.len() as int) =~= rest@);
    ops
}

impl Checker {
    /// The type of a literal.
    pub fn get_comparable_returntype(comparable: &Literal) -> (r: Type)
        ensures
            r == literal_type(*comparable),
    {
        match comparable {
            Literal::Str(_) => Type::Str,
            Literal::Number(_) => Type::Number,
            Literal::Bool(_) => Type::Bool,
            Literal::ByOption(_) => Type::ByOption,
        }
    }

    /// The type of a name used as a value.
    pub fn get_member_returntype(&self, member: &MemberAccess) -> (r: Result<Type, CheckError>)
        ensures
            r == member_type(*member, self.vars()),
    {
        match member {
            MemberAccess::Plain(name) => self.var_lookup(name),
            MemberAccess::Qualified(_, _) => Err(CheckError::UnsupportedConstruct(Construct::QualifiedMember)),
        }
    }

    /// The type of a call of the built-in function `pkg:name` with arguments
    /// of types `args`.
    pub fn get_pkgfn_returntype(name: &String, pkg: &String, args: &Vec<Type>) -> (r: Result<Type, CheckError>)
        ensures
            r == pkg_fn_result(*name, *pkg, args@),
    {
        get_pkg_fn_return_type(name, pkg, args)
    }

    /// The type of an arithmetic chain whose operands resolved to `operands`
    /// and whose operators are `ops`.
    pub fn get_expr_returntype(operands: &Vec<Result<Type, CheckError>>, ops: &Vec<ArithOp>) -> (r: Result<Type, CheckError>)
        requires
            operands@.len() == ops@.len() + 1,
        ensures
            r == chain_type(operands@, ops@.map_values(|o: ArithOp| Operator::Arith(o))),
    {
        let mut all: Vec<Operator> = Vec::new();
        let mut i: usize = 0;
        while i < ops.len()
            invariant
                0 <= i <= ops@.len(),
                all@ == ops@.subrange(0, i as int).map_values(|o: ArithOp| Operator::Arith(o)),
            decreases ops@.len() - i,
        {
            all.push(Operator::Arith(ops[i]));
            i = i + 1;
            assert(all@ =~= ops@.subrange(0, i as int).map_values(|o: ArithOp| Operator::Arith(o)));
        }
        assert(ops@.subrange(0, ops@.len() as int) =~= ops@);
        fold_chain(operands, &all)
    }

    /// The type of a comparison chain whose operands resolved to `operands`
    /// and whose operators are `ops`.
    pub fn get_comp_returntype(operands: &Vec<Result<Type, CheckError>>, ops: &Vec<CompOp>) -> (r: Result<Type, CheckError>)
        requires
            operands@.len() == ops@.len() + 1,
        ensures
            r == chain_type(operands@, ops@.map_values(|o: CompOp| Operator::Comp(o))),
    {
        let mut all: Vec<Operator> = Vec::new();
        let mut i: usize = 0;
        while i < ops.len()
            invariant
                0 <= i <= ops@.len(),
                all@ == ops@.subrange(0, i as int).map_values(|o: CompOp| Operator::Comp(o)),
            decreases ops@.len() - i,
        {
            all.push(Operator::Comp(ops[i]));
            i = i + 1;
            assert(all@ =~= ops@.subrange(0, i as int).map_values(|o: CompOp| Operator::Comp(o)));
        }
        assert(ops@.subrange(0, ops@.len() as int) =~= ops@);
        fold_chain(operands, &all)
    }

    /// The type of a logical chain whose operands resolved to `operands` and
    /// whose operators are `ops`.
    pub fn get_logic_returntype(operands: &Vec<Result<Type, CheckError>>, ops: &Vec<LogicOp>) -> (r: Result<Type, CheckError>)
        requires
            operands@.len() == ops@.len() + 1,
        ensures
            r == chain_type(operands@, ops@.map_values(|o: LogicOp| Operator::Logic(o))),
    {
        let mut all: Vec<Operator> = Vec::new();
        let mut i: usize = 0;
        while i < ops.len()
            invariant
                0 <= i <= ops@.len(),
                all@ == ops@.subrange(0, i as int).map_values(|o: LogicOp| Operator::Logic(o)),
            decreases ops@.len() - i,
        {
            all.push(Operator::Logic(ops[i]));
            i = i + 1;
            assert(all@ =~= ops@.subrange(0, i as int).map_values(|o: LogicOp| Operator::Logic(o)));
        }
        assert(ops@.subrange(0, ops@.len() as int) =~= ops@);
        fold_chain(operands, &all)
    }

    /// The type of a call: the callee's shape is checked first, then the
    /// arguments are resolved from left to right and the first that fails
    /// fails the call.
    fn get_fnpair_returntype(&self, callee: &Callee, args: &Vec<Expr>) -> (r: Result<Type, CheckError>)
        ensures
            r == call_type(*callee, expr_types(args@, self.vars())),
        decreases args,
    {
        let (pkg, name) = match callee {
            Callee::PackageQualified(pkg, name) => (pkg, name),
            Callee::PackageValueQualified(_, _, _) => {
                return Err(CheckError::UnsupportedConstruct(Construct::BuiltinValue));
            },
            _ => return Err(CheckError::UnsupportedConstruct(Construct::LocalFunction)),
        };
        let ghost vars = self.vars();
        let mut types: Vec<Type> = Vec::new();
        let mut i: usize = 0;
        while i < args.len()
            invariant
                0 <= i <= args@.len(),
                vars == self.vars(),
                *callee == Callee::PackageQualified(*pkg, *name),
                first_error(expr_types(args@.subrange(0, i as int), vars)) is None,
                types@ == ok_types(expr_types(args@.subrange(0, i as int), vars)),
            decreases args@.len() - i,
        {
            let ghost prefix = expr_types(args@.subrange(0, i as int), vars);
            assert(args@.subrange(0, i + 1).drop_last() =~= args@.subrange(0, i as int));
            let r = self.get_pair_returntype(&args[i]);
            proof {
                lemma_first_error_push(prefix, r);
            }
            match r {
                Ok(t) => types.push(t),
                Err(e) => {
                    proof {
                        lemma_first_error_extend(args@, vars, i as int + 1);
                    }
                    return Err(e);
                },
            }
            i = i + 1;
            assert(types@ =~= ok_types(expr_types(args@.subrange(0, i as int), vars)));
        }
        assert(args@.subrange(0, args@.len() as int) =~= args@);
        get_pkg_fn_return_type(name, pkg, &types)
    }

    /// The outcome of each operand after the first of a chain.
    fn resolve_rest<O>(&self, rest: &Vec<(O, Expr)>) -> (r: Vec<Result<Type, CheckError>>)
        ensures
            r@ == rest_types(rest@, self.vars()),
        decreases rest,
    {
        let mut out: Vec<Result<Type, CheckError>> = Vec::new();
        let mut i: usize = 0;
        while i < rest.len()
            invariant
                0 <= i <= rest@.len(),
                out@ == rest_types(rest@.subrange(0, i as int), self.vars()),
            decreases rest@.len() - i,
        {
            assert(rest@.subrange(0, i + 1).drop_last() =~= rest@.subrange(0, i as int));
            let r = self.get_pair_returntype(&rest[i].1);
            out.push(r);
            i = i + 1;
        }
        assert(rest@.subrange(0, rest@.len() as int) =~= rest@);
        out
    }

    /// The type of any expression with the variables declared so far.
    pub fn get_pair_returntype(&self, e: &Expr) -> (r: Result<Type, CheckError>)
        ensures
            r == expr_type(*e, self.vars()),
        decreases e,
    {
        match e {
            Expr::Literal(l) => Ok(Checker::get_comparable_returntype(l)),
            Expr::Member(m) => self.get_member_returntype(m),
            Expr::Call(callee, args) => self.get_fnpair_returntype(callee, args),
            Expr::Arith(head, rest) => {
                let mut operands: Vec<Result<Type, CheckError>> = Vec::new();
                operands.push(self.get_pair_returntype(head));
                let mut others = self.resolve_rest(rest);
                operands.append(&mut others);
                let ops = chain_ops(rest);
                proof {
                    lemma_rest_types_len(rest@, self.vars());
                }
                assert(ops@.map_values(|o: ArithOp| Operator::Arith(o))
                    =~= rest@.map_values(|p: (ArithOp, Expr)| Operator::Arith(p.0)));
                Checker::get_expr_returntype(&operands, &ops)
            },
            Expr::Comp(head, rest) => {
                let mut operands: Vec<Result<Type, CheckError>> = Vec::new();
                operands.push(self.get_pair_returntype(head));
                let mut others = self.resolve_rest(rest);
                operands.append(&mut others);
                let ops = chain_ops(rest);
                proof {
                    lemma_rest_types_len(rest@, self.vars());
                }
                assert(ops@.map_values(|o: CompOp| Operator::Comp(o))
                    =~= rest@.map_values(|p: (CompOp, Expr)| Operator::Comp(p.0)));
                Checker::get_comp_returntype(&operands, &ops)
            },
            Expr::Logic(head, rest) => {
                let mut operands: Vec<Result<Type, CheckError>> = Vec::new();
                operands.push(self.get_pair_returntype(head));
                let mut others = self.resolve_rest(rest);
                operands.append(&mut others);
                let ops = chain_ops(rest);
                proof {
                    lemma_rest_types_len(rest@, self.vars());
                }
                assert(ops@.map_values(|o: LogicOp| Operator::Logic(o))
                    =~= rest@.map_values(|p: (LogicOp, Expr)| Operator::Logic(p.0)));
                Checker::get_logic_returntype(&operands, &ops)
            },
        }
    }
}

/// Once the outcomes of a prefix of the arguments hold an error, the first
/// error of all the outcomes is that one.
proof fn lemma_first_error_extend(es: Seq<Expr>, vars: Map<Seq<char>, Type>, n: int)
    requires
        0 <= n <= es.len(),
        first_error(expr_types(es.subrange(0, n), vars)) is Some,
    ensures
        first_error(expr_types(es, vars)) == first_error(expr_types(es.subrange(0, n), vars)),
    decreases es.len() - n,
{
    if n == es.len() {
        assert(es.subrange(0, n) =~= es);
    } else {
        assert(es.subrange(0, n + 1).drop_last() =~= es.subrange(0, n));
        lemma_first_error_push(expr_types(es.subrange(0, n), vars), expr_type(es[n], vars));
        lemma_first_error_extend(es, vars, n + 1);
    }
}

} // verus!
