use autalon::builtin_package_definition::{all_functions, get_fn_metadata, BuiltinPkgFunctions, TargetUI};
use autalon::text::str_eq;
use autalon::checker_funcs::{check_arith_op_compat, check_comp_op_compat, check_logic_comp_type, check_type_arith_compat};
use autalon::compat_check::{check_arithmetic_op, check_comparation_op, check_type_arithmetic};
use autalon::pkg_fn_checker::get_pkg_fn_return_type;
use autalon::transpiler::{get_default_fn_template, pkg_fn_map_mapper, TranspilerOption};
use autalon::types::{ArithOp, CheckError, CompOp, Operator, Type};
use autalon::var_state_checker::{var_insert, var_lookup, var_remove, VarTable};

fn s(text: &str) -> String {
    text.to_string()
}

#[test]
fn catalog_has_every_function_once() {
    let all = all_functions();
    assert_eq!(all.len(), 28);
    for (i, f) in all.iter().enumerate() {
        assert_eq!(BuiltinPkgFunctions::from_name(f.ident()), Some(*f));
        for g in &all[i + 1..] {
            assert_ne!(f, g);
        }
    }
}

#[test]
fn lookup_by_name() {
    assert_eq!(
        BuiltinPkgFunctions::from_name("SetWindowDimension"),
        Some(BuiltinPkgFunctions::SetWindowDimension)
    );
    assert_eq!(BuiltinPkgFunctions::from_name("SetWindow"), None);
    assert_eq!(BuiltinPkgFunctions::from_name(""), None);
    assert_eq!(BuiltinPkgFunctions::MUIInputDateByLabelExact.ident(), "MUIInputDateByLabelExact");
}

#[test]
fn metadata_of_navigate() {
    let m = get_fn_metadata(&BuiltinPkgFunctions::NavigateToUrl);
    assert_eq!(m.name, "NavigateToUrl");
    assert_eq!(m.display_name, "Navigate To Url");
    assert_eq!(m.args.len(), 1);
    assert_eq!(m.args[0].arg_type, Type::Str);
    assert_eq!(m.args[0].default_value, "https://www.google.com");
    assert_eq!(m.return_type, Type::Void);
    assert_eq!(m.target_ui, TargetUI::Any);
}

#[test]
fn metadata_signatures() {
    let m = get_fn_metadata(&BuiltinPkgFunctions::SendTextToElementByString);
    let types: Vec<Type> = m.args.iter().map(|a| a.arg_type).collect();
    assert_eq!(types, vec![Type::Str, Type::Str, Type::ByOption, Type::Str, Type::Bool]);
    let m = get_fn_metadata(&BuiltinPkgFunctions::ExtUIInputDateByLabelExact);
    assert_eq!(m.target_ui, TargetUI::Ext);
    assert_eq!(m.args.len(), 2);
    let m = get_fn_metadata(&BuiltinPkgFunctions::MUIInputRadioUsingIndexByLabelExact);
    assert_eq!(m.target_ui, TargetUI::MUI);
    let m = get_fn_metadata(&BuiltinPkgFunctions::GetAndSwitchToRootIFrame);
    assert!(m.args.is_empty());
}

#[test]
fn type_names() {
    assert_eq!(Type::Str.name(), "string");
    assert_eq!(Type::Number.name(), "number");
    assert_eq!(Type::Bool.name(), "bool");
    assert_eq!(Type::ByOption.name(), "byoption");
    assert_eq!(Type::Void.name(), "void");
}

#[test]
fn string_equality() {
    assert!(str_eq("abc", "abc"));
    assert!(!str_eq("abc", "abd"));
    assert!(!str_eq("abc", "ab"));
    assert!(str_eq("", ""));
}

#[test]
fn package_function_checks() {
    assert_eq!(get_pkg_fn_return_type(&s("NavigateToUrl"), &s("#"), &vec![Type::Str]), Ok(Type::Void));
    assert_eq!(
        get_pkg_fn_return_type(&s("NavigateToUrl"), &s("#"), &vec![]),
        Err(CheckError::ArityMismatch(1, 0))
    );
    assert_eq!(
        get_pkg_fn_return_type(&s("NavigateToUrl"), &s("#"), &vec![Type::Number]),
        Err(CheckError::ArgTypeMismatch(0, Type::Str, Type::Number))
    );
    assert_eq!(
        get_pkg_fn_return_type(&s("NavigateToUrl"), &s("$"), &vec![Type::Str]),
        Err(CheckError::UnsupportedPackage(s("$")))
    );
}

#[test]
fn compatibility_tables() {
    assert_eq!(check_type_arithmetic(Type::Str, Type::Str), Ok(()));
    assert_eq!(check_type_arithmetic(Type::Bool, Type::Bool), Ok(()));
    assert_eq!(
        check_type_arithmetic(Type::Str, Type::Number),
        Err(CheckError::OperandTypeMismatch(Type::Str, Type::Number))
    );
    assert_eq!(
        check_type_arithmetic(Type::Void, Type::Void),
        Err(CheckError::OperandTypeMismatch(Type::Void, Type::Void))
    );
    assert_eq!(check_arithmetic_op(Type::Str, ArithOp::Add), Ok(()));
    assert_eq!(
        check_arithmetic_op(Type::Str, ArithOp::Pow),
        Err(CheckError::OperatorTypeIncompatible(Type::Str, Operator::Arith(ArithOp::Pow)))
    );
    assert_eq!(check_arithmetic_op(Type::Number, ArithOp::Mod), Ok(()));
    assert_eq!(check_comparation_op(Type::Bool, CompOp::Ne), Ok(()));
    assert_eq!(check_comparation_op(Type::Number, CompOp::Ge), Ok(()));
    assert_eq!(
        check_comparation_op(Type::Bool, CompOp::Gt),
        Err(CheckError::OperatorTypeIncompatible(Type::Bool, Operator::Comp(CompOp::Gt)))
    );
    assert_eq!(
        check_comparation_op(Type::ByOption, CompOp::Eq),
        Err(CheckError::OperatorTypeIncompatible(Type::ByOption, Operator::Comp(CompOp::Eq)))
    );
    assert_eq!(check_type_arith_compat(Type::Number, Type::Number), Ok(()));
    assert_eq!(
        check_arith_op_compat(Type::Bool, ArithOp::Add),
        Err(CheckError::OperatorTypeIncompatible(Type::Bool, Operator::Arith(ArithOp::Add)))
    );
    assert_eq!(check_comp_op_compat(Type::Str, CompOp::Eq), Ok(()));
    assert_eq!(check_logic_comp_type(Type::Bool, Type::Bool), Ok(()));
    assert_eq!(
        check_logic_comp_type(Type::Bool, Type::Str),
        Err(CheckError::OperandTypeMismatch(Type::Bool, Type::Str))
    );
}

#[test]
fn variable_table() {
    let mut table = VarTable::new();
    assert_eq!(var_insert(&mut table, s("a"), Type::Str), Ok(()));
    assert_eq!(var_insert(&mut table, s("b"), Type::Number), Ok(()));
    assert_eq!(var_insert(&mut table, s("a"), Type::Bool), Err(CheckError::AlreadyDeclared(s("a"))));
    assert_eq!(var_lookup(&table, s("a")), Ok(Type::Str));
    assert_eq!(var_lookup(&table, s("b")), Ok(Type::Number));
    assert_eq!(var_remove(&mut table, s("a")), Ok(()));
    assert_eq!(var_lookup(&table, s("a")), Err(CheckError::Undeclared(s("a"))));
    assert_eq!(var_lookup(&table, s("b")), Ok(Type::Number));
    assert_eq!(var_remove(&mut table, s("a")), Err(CheckError::Undeclared(s("a"))));
    assert_eq!(var_insert(&mut table, s("a"), Type::Bool), Ok(()));
    assert_eq!(var_lookup(&table, s("a")), Ok(Type::Bool));
}

#[test]
fn groovy_templates() {
    assert_eq!(
        get_default_fn_template(&s("NavigateToUrl"), &s("#")),
        Ok("driver.navigate().to({arg1})")
    );
    assert_eq!(
        get_default_fn_template(&s("SetWindowDimension"), &s("builtin")),
        Ok("driverExt.setWindowDimension({arg1}, {arg2})")
    );
    assert_eq!(
        get_default_fn_template(&s("Nope"), &s("#")),
        Err(CheckError::UnknownFunction(s("Nope"), s("#")))
    );
    assert_eq!(
        get_default_fn_template(&s("NavigateToUrl"), &s("other")),
        Err(CheckError::UnsupportedPackage(s("other")))
    );
    for f in all_functions() {
        assert!(get_default_fn_template(&s(f.ident()), &s("#")).is_ok());
    }
    assert_eq!(TranspilerOption::Groovy, TranspilerOption::Groovy);
}

#[test]
fn package_function_map() {
    let m = pkg_fn_map_mapper(("#", "NavigateToUrl", "driver.navigate().to({arg1})"));
    assert_eq!(m.package_name, "#");
    assert_eq!(m.func_name, "NavigateToUrl");
    assert_eq!(m.convert, "driver.navigate().to({arg1})");
}

#[test]
fn exported_names_are_callable_names() {
    for f in all_functions() {
        let m = get_fn_metadata(&f);
        assert_eq!(m.name, f.ident());
        assert_eq!(BuiltinPkgFunctions::from_name(m.name), Some(f));
    }
    let m = get_fn_metadata(&BuiltinPkgFunctions::ExtUIGetGroupFromLabel);
    assert_eq!(m.name, "ExtUIGetGroupFromLabel");
    let m = get_fn_metadata(&BuiltinPkgFunctions::MUIInputRadioUsingTextByLabelExact);
    assert_eq!(m.name, "MUIInputRadioUsingTextByLabelExact");
}
