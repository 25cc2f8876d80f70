//! Static type checker for a small browser-automation scripting language.
//!
//! The checker walks an already parsed program (see [`ast`]), resolves the
//! type of every expression against a flat table of declared variables and
//! the catalog of built-in functions, and rejects the first ill-typed
//! statement. Binary operator chains are grouped by precedence climbing
//! ([`precedence`]) before their operand types are combined.

pub mod ast;
pub mod builtin_package_definition;
pub mod checker;
pub mod checker_funcs;
pub mod compat_check;
pub mod pkg_fn_checker;
pub mod precedence;
pub mod text;
pub mod transpiler;
pub mod tree_checker;
pub mod types;
pub mod var_state_checker;
