use autalon::ast::{Callee, Expr, Literal, MemberAccess, Statement};
use autalon::checker::{statement_checker, Checker};
use autalon::types::{ArithOp, CheckError, CompOp, Construct, LogicOp, Operator, Type};

fn s(text: &str) -> String {
    text.to_string()
}

fn string(text: &str) -> Expr {
    Expr::Literal(Literal::Str(format!("\"{}\"", text)))
}

fn number(text: &str) -> Expr {
    Expr::Literal(Literal::Number(s(text)))
}

fn boolean(b: bool) -> Expr {
    Expr::Literal(Literal::Bool(b))
}

fn var(name: &str) -> Expr {
    Expr::Member(MemberAccess::Plain(s(name)))
}

fn builtin_call(name: &str, args: Vec<Expr>) -> Expr {
    Expr::Call(Callee::PackageQualified(s("#"), s(name)), args)
}

fn resolve(e: &Expr) -> Result<Type, CheckError> {
    Checker::new().get_pair_returntype(e)
}

#[test]
fn pass_returntype_comparation() {
    let e = Expr::Comp(Box::new(boolean(true)), vec![(CompOp::Eq, boolean(true))]);
    assert_eq!(resolve(&e), Ok(Type::Bool));
    let r = Checker::get_comp_returntype(&vec![Ok(Type::Bool), Ok(Type::Bool)], &vec![CompOp::Eq]);
    assert_eq!(r, Ok(Type::Bool));
}

#[test]
fn pass_returntype_comparationlogic() {
    let middle = Expr::Comp(Box::new(boolean(false)), vec![(CompOp::Eq, boolean(false))]);
    let e = Expr::Logic(
        Box::new(boolean(true)),
        vec![(LogicOp::And, middle), (LogicOp::And, boolean(false))],
    );
    assert_eq!(resolve(&e), Ok(Type::Bool));
}

#[test]
fn pass_returntype_logic() {
    let e = Expr::Logic(Box::new(boolean(true)), vec![(LogicOp::And, boolean(false))]);
    assert_eq!(resolve(&e), Ok(Type::Bool));
    let r = Checker::get_logic_returntype(&vec![Ok(Type::Bool), Ok(Type::Bool)], &vec![LogicOp::And]);
    assert_eq!(r, Ok(Type::Bool));
}

#[test]
fn pass_returntype_expr_pkgmember_noargs() {
    let e = builtin_call("GetAndSwitchToAnyIFrame", vec![]);
    assert_eq!(resolve(&e), Ok(Type::Void));
}

#[test]
fn pass_returntype_expr_pkgmember_args() {
    let e = builtin_call("NavigateToUrl", vec![string("google.com")]);
    assert_eq!(resolve(&e), Ok(Type::Void));
}

#[test]
fn pass_vardeclaration() {
    let program = vec![Statement::VarDeclaration(s("test"), string("asd"))];
    assert_eq!(statement_checker(&program), Ok(()));
}

#[test]
fn pass_varassignment() {
    let program = vec![
        Statement::VarDeclaration(s("test"), string("asd")),
        Statement::VarAssignment(s("test"), string("testassign")),
    ];
    assert_eq!(statement_checker(&program), Ok(()));
}

#[test]
fn literals_resolve_to_their_type() {
    assert_eq!(resolve(&string("a")), Ok(Type::Str));
    assert_eq!(resolve(&number("12")), Ok(Type::Number));
    assert_eq!(resolve(&boolean(false)), Ok(Type::Bool));
    assert_eq!(resolve(&Expr::Literal(Literal::ByOption(s("ByOption.Text")))), Ok(Type::ByOption));
    assert_eq!(Checker::get_comparable_returntype(&Literal::Number(s("3"))), Type::Number);
}

#[test]
fn declared_name_looks_up_to_its_type() {
    let mut checker = Checker::new();
    assert_eq!(checker.var_insert(&s("x"), Type::Number), Ok(()));
    assert_eq!(checker.var_lookup(&s("x")), Ok(Type::Number));
    assert_eq!(checker.var_insert(&s("x"), Type::Str), Err(CheckError::AlreadyDeclared(s("x"))));
    assert_eq!(checker.var_lookup(&s("x")), Ok(Type::Number));
    assert_eq!(checker.get_pair_returntype(&var("x")), Ok(Type::Number));
}

#[test]
fn undeclared_name_fails_lookup() {
    let checker = Checker::default();
    assert_eq!(checker.var_lookup(&s("y")), Err(CheckError::Undeclared(s("y"))));
    assert_eq!(checker.get_pair_returntype(&var("y")), Err(CheckError::Undeclared(s("y"))));
    assert_eq!(
        checker.get_member_returntype(&MemberAccess::Plain(s("y"))),
        Err(CheckError::Undeclared(s("y")))
    );
}

#[test]
fn zero_parameter_function_rejects_arguments() {
    for name in ["GetAndSwitchToAnyIFrame", "GetAndSwitchToParentIFrame", "GetAndSwitchToRootIFrame"] {
        assert_eq!(resolve(&builtin_call(name, vec![])), Ok(Type::Void));
        assert_eq!(
            resolve(&builtin_call(name, vec![number("1")])),
            Err(CheckError::ArityMismatch(0, 1))
        );
        assert_eq!(
            resolve(&builtin_call(name, vec![number("1"), string("a")])),
            Err(CheckError::ArityMismatch(0, 2))
        );
    }
}

#[test]
fn matching_arguments_return_declared_type() {
    let by_text = Expr::Literal(Literal::ByOption(s("ByOption.Text")));
    let call = builtin_call(
        "GetElementByString",
        vec![string("Login"), by_text, string("*"), boolean(true)],
    );
    assert_eq!(resolve(&call), Ok(Type::Void));
    let call = builtin_call("SetWindowDimension", vec![number("800"), number("600")]);
    assert_eq!(resolve(&call), Ok(Type::Void));
}

#[test]
fn first_wrong_argument_is_reported() {
    let call = builtin_call(
        "GetElementByString",
        vec![string("Login"), string("text"), number("1"), boolean(true)],
    );
    assert_eq!(resolve(&call), Err(CheckError::ArgTypeMismatch(1, Type::ByOption, Type::Str)));
    let call = builtin_call("SetWindowDimension", vec![number("800"), string("600")]);
    assert_eq!(resolve(&call), Err(CheckError::ArgTypeMismatch(1, Type::Number, Type::Str)));
}

#[test]
fn failing_argument_fails_the_call() {
    let call = builtin_call("NavigateToUrl", vec![var("missing")]);
    assert_eq!(resolve(&call), Err(CheckError::Undeclared(s("missing"))));
}

#[test]
fn resolving_twice_gives_the_same_outcome() {
    let mut checker = Checker::new();
    checker.var_insert(&s("n"), Type::Number).unwrap();
    let e = Expr::Arith(Box::new(var("n")), vec![(ArithOp::Mul, number("2"))]);
    let first = checker.get_pair_returntype(&e);
    let second = checker.get_pair_returntype(&e);
    assert_eq!(first, Ok(Type::Number));
    assert_eq!(first, second);
    let bad = Expr::Arith(Box::new(var("n")), vec![(ArithOp::Add, string("x"))]);
    assert_eq!(checker.get_pair_returntype(&bad), checker.get_pair_returntype(&bad));
    let program = vec![Statement::Expr(e)];
    assert_eq!(checker.check_statements(&program), Ok(()));
    assert_eq!(checker.check_statements(&program), Ok(()));
    assert_eq!(checker.var_lookup(&s("n")), Ok(Type::Number));
}

#[test]
fn equality_of_numbers_is_boolean() {
    let e = Expr::Comp(Box::new(number("5")), vec![(CompOp::Eq, number("5"))]);
    assert_eq!(resolve(&e), Ok(Type::Bool));
}

#[test]
fn comparison_of_different_types_fails() {
    let e = Expr::Comp(Box::new(number("5")), vec![(CompOp::Lt, string("a"))]);
    assert_eq!(resolve(&e), Err(CheckError::OperandTypeMismatch(Type::Number, Type::Str)));
}

#[test]
fn ordering_of_strings_fails() {
    let e = Expr::Comp(Box::new(string("a")), vec![(CompOp::Lt, string("b"))]);
    assert_eq!(
        resolve(&e),
        Err(CheckError::OperatorTypeIncompatible(Type::Str, Operator::Comp(CompOp::Lt)))
    );
    let e = Expr::Comp(Box::new(string("a")), vec![(CompOp::Ne, string("b"))]);
    assert_eq!(resolve(&e), Ok(Type::Bool));
}

#[test]
fn comparison_chain_is_boolean() {
    let e = Expr::Comp(
        Box::new(number("1")),
        vec![(CompOp::Lt, number("2")), (CompOp::Eq, boolean(true))],
    );
    assert_eq!(resolve(&e), Ok(Type::Bool));
}

#[test]
fn subtraction_chain_of_numbers() {
    let e = Expr::Arith(
        Box::new(number("2")),
        vec![(ArithOp::Sub, number("3")), (ArithOp::Sub, number("4"))],
    );
    assert_eq!(resolve(&e), Ok(Type::Number));
    let r = Checker::get_expr_returntype(
        &vec![Ok(Type::Number), Ok(Type::Number), Ok(Type::Number)],
        &vec![ArithOp::Sub, ArithOp::Sub],
    );
    assert_eq!(r, Ok(Type::Number));
}

#[test]
fn string_concatenation_only() {
    let e = Expr::Arith(Box::new(string("a")), vec![(ArithOp::Add, string("b"))]);
    assert_eq!(resolve(&e), Ok(Type::Str));
    let e = Expr::Arith(Box::new(string("a")), vec![(ArithOp::Sub, string("b"))]);
    assert_eq!(
        resolve(&e),
        Err(CheckError::OperatorTypeIncompatible(Type::Str, Operator::Arith(ArithOp::Sub)))
    );
    let e = Expr::Arith(Box::new(string("a")), vec![(ArithOp::Add, number("1"))]);
    assert_eq!(resolve(&e), Err(CheckError::OperandTypeMismatch(Type::Str, Type::Number)));
    let e = Expr::Arith(Box::new(boolean(true)), vec![(ArithOp::Add, boolean(true))]);
    assert_eq!(
        resolve(&e),
        Err(CheckError::OperatorTypeIncompatible(Type::Bool, Operator::Arith(ArithOp::Add)))
    );
}

#[test]
fn number_supports_every_arithmetic_operator() {
    for op in [ArithOp::Add, ArithOp::Sub, ArithOp::Div, ArithOp::Mul, ArithOp::Mod, ArithOp::Pow] {
        let e = Expr::Arith(Box::new(number("6")), vec![(op, number("3"))]);
        assert_eq!(resolve(&e), Ok(Type::Number));
    }
}

#[test]
fn left_group_is_checked_before_right_operand() {
    let e = Expr::Arith(
        Box::new(string("a")),
        vec![(ArithOp::Sub, string("b")), (ArithOp::Add, var("missing"))],
    );
    assert_eq!(
        resolve(&e),
        Err(CheckError::OperatorTypeIncompatible(Type::Str, Operator::Arith(ArithOp::Sub)))
    );
    let e = Expr::Arith(
        Box::new(var("missing")),
        vec![(ArithOp::Sub, string("b"))],
    );
    assert_eq!(resolve(&e), Err(CheckError::Undeclared(s("missing"))));
}

#[test]
fn tighter_operator_groups_first() {
    // "a" + 1 * 2 groups as "a" + (1 * 2): the product is a number.
    let e = Expr::Arith(
        Box::new(string("a")),
        vec![(ArithOp::Add, number("1")), (ArithOp::Mul, number("2"))],
    );
    assert_eq!(resolve(&e), Err(CheckError::OperandTypeMismatch(Type::Str, Type::Number)));
    // "a" * "b" + "c" groups as ("a" * "b") + "c": the product fails first.
    let e = Expr::Arith(
        Box::new(string("a")),
        vec![(ArithOp::Mul, string("b")), (ArithOp::Add, string("c"))],
    );
    assert_eq!(
        resolve(&e),
        Err(CheckError::OperatorTypeIncompatible(Type::Str, Operator::Arith(ArithOp::Mul)))
    );
}

#[test]
fn logical_chain_has_left_type() {
    let e = Expr::Logic(Box::new(number("5")), vec![(LogicOp::Or, boolean(true))]);
    assert_eq!(resolve(&e), Ok(Type::Number));
    let e = Expr::Logic(Box::new(boolean(true)), vec![(LogicOp::Or, var("missing"))]);
    assert_eq!(resolve(&e), Err(CheckError::Undeclared(s("missing"))));
}

#[test]
fn reassignment_with_same_type() {
    let program = vec![
        Statement::VarDeclaration(s("x"), string("hello")),
        Statement::VarAssignment(s("x"), string("world")),
    ];
    assert_eq!(statement_checker(&program), Ok(()));
    let mut checker = Checker::new();
    assert_eq!(checker.check_statements(&program), Ok(()));
    assert_eq!(checker.var_lookup(&s("x")), Ok(Type::Str));
}

#[test]
fn reassignment_with_other_type_fails() {
    let program = vec![
        Statement::VarDeclaration(s("x"), string("hello")),
        Statement::VarAssignment(s("x"), number("5")),
    ];
    assert_eq!(
        statement_checker(&program),
        Err(CheckError::AssignmentTypeMismatch(Type::Str, Type::Number))
    );
}

#[test]
fn navigate_to_url_resolves() {
    let e = builtin_call("NavigateToUrl", vec![string("https://example.com")]);
    assert_eq!(resolve(&e), Ok(Type::Void));
    let e = Expr::Call(
        Callee::PackageQualified(s("builtin"), s("NavigateToUrl")),
        vec![string("https://example.com")],
    );
    assert_eq!(resolve(&e), Ok(Type::Void));
}

#[test]
fn frame_switch_without_arguments() {
    let e = builtin_call("GetAndSwitchToAnyIFrame", vec![]);
    assert_eq!(resolve(&e), Ok(Type::Void));
    let e = builtin_call("GetAndSwitchToAnyIFrame", vec![string("frame")]);
    assert_eq!(resolve(&e), Err(CheckError::ArityMismatch(0, 1)));
}

#[test]
fn unknown_package_and_function() {
    let e = Expr::Call(Callee::PackageQualified(s("web"), s("NavigateToUrl")), vec![]);
    assert_eq!(resolve(&e), Err(CheckError::UnsupportedPackage(s("web"))));
    let e = builtin_call("Navigate", vec![]);
    assert_eq!(resolve(&e), Err(CheckError::UnknownFunction(s("Navigate"), s("#"))));
    assert_eq!(
        Checker::get_pkgfn_returntype(&s("navigatetourl"), &s("#"), &vec![Type::Str]),
        Err(CheckError::UnknownFunction(s("navigatetourl"), s("#")))
    );
}

#[test]
fn reserved_constructs_are_rejected() {
    let e = Expr::Call(Callee::Bare(s("NavigateToUrl")), vec![]);
    assert_eq!(resolve(&e), Err(CheckError::UnsupportedConstruct(Construct::LocalFunction)));
    let e = Expr::Call(Callee::ValueQualified(s("page"), s("NavigateToUrl")), vec![]);
    assert_eq!(resolve(&e), Err(CheckError::UnsupportedConstruct(Construct::LocalFunction)));
    let e = Expr::Call(
        Callee::PackageValueQualified(s("#"), s("page"), s("NavigateToUrl")),
        vec![],
    );
    assert_eq!(resolve(&e), Err(CheckError::UnsupportedConstruct(Construct::BuiltinValue)));
    let e = Expr::Member(MemberAccess::Qualified(s("#"), s("page")));
    assert_eq!(resolve(&e), Err(CheckError::UnsupportedConstruct(Construct::QualifiedMember)));
}

#[test]
fn statement_kinds() {
    let program = vec![
        Statement::EscapeBlock(s("println 'raw'")),
        Statement::Expr(builtin_call("GetAndSwitchToRootIFrame", vec![])),
    ];
    assert_eq!(statement_checker(&program), Ok(()));
    let program = vec![Statement::Unrecognized(s("cfg_section"))];
    assert_eq!(
        statement_checker(&program),
        Err(CheckError::UnrecognizedStatement(s("cfg_section")))
    );
    let program = vec![
        Statement::VarDeclaration(s("a"), number("1")),
        Statement::VarDeclaration(s("a"), number("2")),
    ];
    assert_eq!(statement_checker(&program), Err(CheckError::AlreadyDeclared(s("a"))));
    let program = vec![Statement::VarAssignment(s("b"), number("1"))];
    assert_eq!(statement_checker(&program), Err(CheckError::Undeclared(s("b"))));
}

#[test]
fn checking_stops_at_first_failure() {
    let program = vec![
        Statement::VarAssignment(s("b"), number("1")),
        Statement::Unrecognized(s("other")),
    ];
    assert_eq!(statement_checker(&program), Err(CheckError::Undeclared(s("b"))));
}

#[test]
fn declaration_uses_value_type() {
    let mut checker = Checker::new();
    let value = Expr::Arith(Box::new(number("1")), vec![(ArithOp::Add, number("2"))]);
    assert_eq!(checker.check_var_declaration(&s("sum"), &value), Ok(()));
    assert_eq!(checker.var_lookup(&s("sum")), Ok(Type::Number));
    assert_eq!(checker.check_var_assignment(&s("sum"), &number("3")), Ok(()));
    assert_eq!(
        checker.check_var_assignment(&s("sum"), &boolean(true)),
        Err(CheckError::AssignmentTypeMismatch(Type::Number, Type::Bool))
    );
    let stmt = Statement::VarDeclaration(s("flag"), var("sum"));
    assert_eq!(checker.check_statement(&stmt), Ok(()));
    assert_eq!(checker.var_lookup(&s("flag")), Ok(Type::Number));
}

#[test]
fn callee_shape_is_rejected_before_arguments() {
    let e = Expr::Call(Callee::Bare(s("f")), vec![var("x")]);
    assert_eq!(resolve(&e), Err(CheckError::UnsupportedConstruct(Construct::LocalFunction)));
    let e = Expr::Call(Callee::ValueQualified(s("v"), s("f")), vec![var("x")]);
    assert_eq!(resolve(&e), Err(CheckError::UnsupportedConstruct(Construct::LocalFunction)));
    let e = Expr::Call(Callee::PackageValueQualified(s("#"), s("v"), s("f")), vec![var("x")]);
    assert_eq!(resolve(&e), Err(CheckError::UnsupportedConstruct(Construct::BuiltinValue)));
}
