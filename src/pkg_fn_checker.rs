use vstd::prelude::*;
use crate::builtin_package_definition::{get_fn_metadata, lookup_builtin, BuiltinPkgFunctions};
use crate::text::str_eq;
use crate::types::{CheckError, Type};

verus! {

/// The qualifiers that name the built-in package.
pub open spec fn is_builtin_package(pkg: Seq<char>) -> bool {
    pkg == "#"@ || pkg == "builtin"@
}

/// The first position from `i` on where the argument type differs from the
/// parameter type.
pub open spec fn first_mismatch(params: Seq<Type>, args: Seq<Type>, i: int) -> Option<int>
    decreases params.len() - i,
{
    if i < 0 || i >= params.len() {
        None
    } else if params[i] != args[i] {
        Some(i)
    } else {
        first_mismatch(params, args, i + 1)
    }
}

/// The type of a call of `f` with arguments of types `args`: the argument
/// count must equal the parameter count, then each argument must have its
/// parameter's type; the first failure is reported.
pub open spec fn signature_result(f: BuiltinPkgFunctions, args: Seq<Type>) -> Result<Type, CheckError> {
    let params = f.param_types();
    if params.len() != args.len() {
        Err(CheckError::ArityMismatch(params.len() as usize, args.len() as usize))
    } else {
        match first_mismatch(params, args, 0) {
            Some(i) => Err(CheckError::ArgTypeMismatch(i as usize, params[i], args[i])),
            None => Ok(f.return_type()),
        }
    }
}

/// The type of a call of `pkg:name` with arguments of types `args`.
pub open spec fn pkg_fn_result(name: String, pkg: String, args: Seq<Type>) -> Result<Type, CheckError> {
    if !is_builtin_package(pkg@) {
        Err(CheckError::UnsupportedPackage(pkg))
    } else {
        match lookup_builtin(name@) {
            None => Err(CheckError::UnknownFunction(name, pkg)),
            Some(f) => signature_result(f, args),
        }
    }
}

/// A call with exactly the parameter types returns the declared type; a
/// call with another argument count fails with both counts, which for a
/// function without parameters is any call with arguments.
pub proof fn lemma_signature(f: BuiltinPkgFunctions, args: Seq<Type>)
    requires
        args.len() <= usize::MAX,
    ensures
        args == f.param_types() ==> signature_result(f, args) == Ok::<Type, CheckError>(f.return_type()),
        args.len() != f.param_types().len() ==> signature_result(f, args) == Err::<Type, CheckError>(
            CheckError::ArityMismatch(f.param_types().len() as usize, args.len() as usize),
        ),
{
    if args == f.param_types() {
        lemma_no_mismatch(args, args, 0);
    }
}

proof fn lemma_no_mismatch(params: Seq<Type>, args: Seq<Type>, i: int)
    requires
        params == args,
        0 <= i,
    ensures
        first_mismatch(params, args, i) is None,
    decreases params.len() - i,
{
    if i < params.len() {
        lemma_no_mismatch(params, args, i + 1);
    }
}

/// Checks a call of the built-in function `pkg:name` whose arguments have
/// the types `args`, and returns the type of the call.
pub fn get_pkg_fn_return_type(name: &String, pkg: &String, args: &Vec<Type>) -> (r: Result<Type, CheckError>)
    ensures
        r == pkg_fn_result(*name, *pkg, args@),
{
    if !(str_eq(pkg.as_str(), "#") || str_eq(pkg.as_str(), "builtin")) {
        return Err(CheckError::UnsupportedPackage(pkg.clone()));
    }
    let f = match BuiltinPkgFunctions::from_name(name.as_str()) {
        Some(f) => f,
        None => return Err(CheckError::UnknownFunction(name.clone(), pkg.clone())),
    };
    let meta = get_fn_metadata(&f);
    if meta.args.len() != args.len() {
        return Err(CheckError::ArityMismatch(meta.args.len(), args.len()));
    }
    let mut i: usize = 0;
    while i < args.len()
        invariant
            0 <= i <= args@.len(),
            is_builtin_package(pkg@),
            lookup_builtin(name@) == Some(f),
            args@.len() == f.param_types().len(),
            meta.args@.len() == f.param_types().len(),
            forall|j: int| 0 <= j < meta.args@.len() ==> #[trigger] meta.args@[j].arg_type == f.param_types()[j],
            first_mismatch(f.param_types(), args@, 0) == first_mismatch(f.param_types(), args@, i as int),
        decreases args@.len() - i,
    {
        if meta.args[i].arg_type != args[i] {
            assert(first_mismatch(f.param_types(), args@, i as int) == Some(i as int));
            return Err(CheckError::ArgTypeMismatch(i, meta.args[i].arg_type, args[i]));
        }
        i = i + 1;
    }
    assert(first_mismatch(f.param_types(), args@, i as int) is None);
    Ok(meta.return_type)
}

} // verus!
