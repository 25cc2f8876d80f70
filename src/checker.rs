use vstd::prelude::*;
use crate::ast::{Expr, Statement};
use crate::tree_checker::expr_type;
use crate::types::{CheckError, Type};
use crate::var_state_checker::{declared, looked_up, var_insert, var_lookup, VarTable};

verus! {

/// The state of one checking pass: the variables declared so far.
pub struct Checker {
    var_table: VarTable,
}

/// The outcome of checking statement `s` with the variables `vars`: the
/// variables afterwards, or the first error.
pub open spec fn statement_result(s: Statement, vars: Map<Seq<char>, Type>) -> Result<Map<Seq<char>, Type>, CheckError> {
    match s {
        Statement::Expr(e) => match expr_type(e, vars) {
            Ok(_) => Ok(vars),
            Err(err) => Err(err),
        },
        Statement::VarDeclaration(name, e) => match expr_type(e, vars) {
            Ok(t) => declared(vars, name, t),
            Err(err) => Err(err),
        },
        Statement::VarAssignment(name, e) => match expr_type(e, vars) {
            Ok(t) => match looked_up(vars, name) {
                Ok(d) => if d == t {
                    Ok(vars)
                } else {
                    Err(CheckError::AssignmentTypeMismatch(d, t))
                },
                Err(err) => Err(err),
            },
            Err(err) => Err(err),
        },
        Statement::EscapeBlock(_) => Ok(vars),
        Statement::Unrecognized(kind) => Err(CheckError::UnrecognizedStatement(kind)),
    }
}

/// The outcome of checking `stmts` in order, starting from `vars`, stopping
/// at the first error.
pub open spec fn program_result(stmts: Seq<Statement>, vars: Map<Seq<char>, Type>) -> Result<Map<Seq<char>, Type>, CheckError>
    decreases stmts.len(),
{
    if stmts.len() == 0 {
        Ok(vars)
    } else {
        match program_result(stmts.drop_last(), vars) {
            Ok(v) => statement_result(stmts.last(), v),
            Err(e) => Err(e),
        }
    }
}

impl Checker {
    /// The declared variables and their types.
    pub closed spec fn vars(&self) -> Map<Seq<char>, Type> {
        self.var_table.view()
    }

    /// A checker with no variable declared.
    pub fn new() -> (r: Checker)
        ensures
            r.vars() == Map::<Seq<char>, Type>::empty(),
    {
        Checker { var_table: VarTable::new() }
    }

    /// Declares `name` with type `vartype`; fails if it is declared already.
    pub fn var_insert(&mut self, name: &String, vartype: Type) -> (r: Result<(), CheckError>)
        ensures
            match declared(old(self).vars(), *name, vartype) {
                Ok(vars) => r is Ok && final(self).vars() == vars,
                Err(e) => r == Err::<(), CheckError>(e) && final(self).vars() == old(self).vars(),
            },
    {
        var_insert(&mut self.var_table, name.clone(), vartype)
    }

    /// The type `name` was declared with; fails if it was never declared.
    pub fn var_lookup(&self, name: &String) -> (r: Result<Type, CheckError>)
        ensures
            r == looked_up(self.vars(), *name),
    {
        var_lookup(&self.var_table, name.clone())
    }

    /// Checks `var name = value;`: resolves the value, then declares the name
    /// with its type.
    pub fn check_var_declaration(&mut self, name: &String, value: &Expr) -> (r: Result<(), CheckError>)
        ensures
            match statement_result(Statement::VarDeclaration(*name, *value), old(self).vars()) {
                Ok(vars) => r is Ok && final(self).vars() == vars,
                Err(e) => r == Err::<(), CheckError>(e) && final(self).vars() == old(self).vars(),
            },
    {
        let t = match self.get_pair_returntype(value) {
            Ok(t) => t,
            Err(e) => return Err(e),
        };
        self.var_insert(name, t)
    }

    /// Checks `name = value;`: the name must be declared, with the type of
    /// the value.
    pub fn check_var_assignment(&self, name: &String, value: &Expr) -> (r: Result<(), CheckError>)
        ensures
            match statement_result(Statement::VarAssignment(*name, *value), self.vars()) {
                Ok(vars) => r is Ok && vars == self.vars(),
                Err(e) => r == Err::<(), CheckError>(e),
            },
    {
        let t = match self.get_pair_returntype(value) {
            Ok(t) => t,
            Err(e) => return Err(e),
        };
        let declared_type = match self.var_lookup(name) {
            Ok(d) => d,
            Err(e) => return Err(e),
        };
        if declared_type != t {
            Err(CheckError::AssignmentTypeMismatch(declared_type, t))
        } else {
            Ok(())
        }
    }

    /// Checks one statement; on success the declared variables are updated.
    pub fn check_statement(&mut self, statement: &Statement) -> (r: Result<(), CheckError>)
        ensures
            match statement_result(*statement, old(self).vars()) {
                Ok(vars) => r is Ok && final(self).vars() == vars,
                Err(e) => r == Err::<(), CheckError>(e) && final(self).vars() == old(self).vars(),
            },
    {
        match statement {
            Statement::Expr(e) => match self.get_pair_returntype(e) {
                Ok(_) => Ok(()),
                Err(err) => Err(err),
            },
            Statement::VarDeclaration(name, e) => self.check_var_declaration(name, e),
            Statement::VarAssignment(name, e) => self.check_var_assignment(name, e),
            Statement::EscapeBlock(_) => Ok(()),
            Statement::Unrecognized(kind) => Err(CheckError::UnrecognizedStatement(kind.clone())),
        }
    }

    /// Checks the statements in order and stops at the first that fails.
    pub fn check_statements(&mut self, statements: &Vec<Statement>) -> (r: Result<(), CheckError>)
        ensures
            match program_result(statements@, old(self).vars()) {
                Ok(vars) => r is Ok && final(self).vars() == vars,
                Err(e) => r == Err::<(), CheckError>(e),
            },
    {
        let ghost start = self.vars();
        let mut i: usize = 0;
        while i < statements.len()
            invariant
                0 <= i <= statements@.len(),
                start == old(self).vars(),
                program_result(statements@.subrange(0, i as int), start) == Ok::<Map<Seq<char>, Type>, CheckError>(self.vars()),
            decreases statements@.len() - i,
        {
            let ghost before = self.vars();
            assert(statements@.subrange(0, i + 1).drop_last() =~= statements@.subrange(0, i as int));
            let r = self.check_statement(&statements[i]);
            assert(statements@.subrange(0, i + 1).last() == statements@[i as int]);
            if r.is_err() {
                proof {
                    lemma_program_stops(statements@, start, i as int + 1);
                }
                return r;
            }
            i = i + 1;
        }
        assert(statements@.subrange(0, statements@.len() as int) =~= statements@);
        Ok(())
    }
}

/// Resolving an expression leaves the variables as they are: an expression
/// statement that passes keeps them, and checking the same expression
/// statement twice in a row has the outcome of checking it once.
pub proof fn lemma_expression_statement_idempotent(e: Expr, vars: Map<Seq<char>, Type>)
    ensures
        statement_result(Statement::Expr(e), vars) is Ok ==> statement_result(Statement::Expr(e), vars)
            == Ok::<Map<Seq<char>, Type>, CheckError>(vars),
        program_result(seq![Statement::Expr(e), Statement::Expr(e)], vars) == program_result(
            seq![Statement::Expr(e)],
            vars,
        ),
{
    let once = seq![Statement::Expr(e)];
    let twice = seq![Statement::Expr(e), Statement::Expr(e)];
    assert(twice.drop_last() =~= once);
    assert(once.drop_last() =~= Seq::<Statement>::empty());
    assert(program_result(once.drop_last(), vars) == Ok::<Map<Seq<char>, Type>, CheckError>(vars));
    assert(once.last() == Statement::Expr(e));
    assert(twice.last() == Statement::Expr(e));
}

impl Default for Checker {
    /// A checker with no variable declared.
    fn default() -> (r: Checker)
        ensures
            r.vars() == Map::<Seq<char>, Type>::empty(),
    {
        Checker::new()
    }
}

/// Once a prefix of the program fails, the whole program fails with the
/// same error.
proof fn lemma_program_stops(stmts: Seq<Statement>, vars: Map<Seq<char>, Type>, n: int)
    requires
        0 <= n <= stmts.len(),
        program_result(stmts.subrange(0, n), vars) is Err,
    ensures
        program_result(stmts, vars) == program_result(stmts.subrange(0, n), vars),
    decreases stmts.len() - n,
{
    if n == stmts.len() {
        assert(stmts.subrange(0, n) =~= stmts);
    } else {
        assert(stmts.subrange(0, n + 1).drop_last() =~= stmts.subrange(0, n));
        lemma_program_stops(stmts, vars, n + 1);
    }
}

/// Checks a whole program with a fresh set of variables and stops at the
/// first statement that fails.
pub fn statement_checker(statements: &Vec<Statement>) -> (r: Result<(), CheckError>)
    ensures
        match program_result(statements@, Map::<Seq<char>, Type>::empty()) {
            Ok(_) => r is Ok,
            Err(e) => r == Err::<(), CheckError>(e),
        },
{
    let mut checker = Checker::new();
    checker.check_statements(statements)
}

} // verus!
