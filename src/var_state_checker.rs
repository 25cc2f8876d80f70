use vstd::prelude::*;
use crate::text::str_eq;
use crate::types::{CheckError, Type};

verus! {

/// The declared variables of one checking pass: each name at most once,
/// with the type of the value it was declared with.
pub struct VarTable {
    entries: Vec<(String, Type)>,
}

/// The map that a list of (name, type) entries stands for.
pub open spec fn map_of(entries: Seq<(String, Type)>) -> Map<Seq<char>, Type>
    decreases entries.len(),
{
    if entries.len() == 0 {
        Map::empty()
    } else {
        map_of(entries.drop_last()).insert(entries.last().0@, entries.last().1)
    }
}

/// No name occurs twice.
pub open spec fn names_unique(entries: Seq<(String, Type)>) -> bool {
    forall|i: int, j: int|
        0 <= i < entries.len() && 0 <= j < entries.len() && i != j
            ==> #[trigger] entries[i].0@ != #[trigger] entries[j].0@
}

/// Declaring `name` with type `t` in `vars`: the extended map, or
/// `AlreadyDeclared` when the name is taken.
pub open spec fn declared(vars: Map<Seq<char>, Type>, name: String, t: Type) -> Result<Map<Seq<char>, Type>, CheckError> {
    if vars.contains_key(name@) {
        Err(CheckError::AlreadyDeclared(name))
    } else {
        Ok(vars.insert(name@, t))
    }
}

/// Looking `name` up in `vars`: its type, or `Undeclared`.
pub open spec fn looked_up(vars: Map<Seq<char>, Type>, name: String) -> Result<Type, CheckError> {
    if vars.contains_key(name@) {
        Ok(vars[name@])
    } else {
        Err(CheckError::Undeclared(name))
    }
}

/// A name just declared with a type looks up to that type, and declaring it
/// a second time, with any type, fails with `AlreadyDeclared`.
pub proof fn lemma_declare_then_lookup(vars: Map<Seq<char>, Type>, name: String, t: Type, t2: Type)
    requires
        !vars.contains_key(name@),
    ensures
        declared(vars, name, t) is Ok,
        looked_up(declared(vars, name, t)->Ok_0, name) == Ok::<Type, CheckError>(t),
        declared(declared(vars, name, t)->Ok_0, name, t2) == Err::<Map<Seq<char>, Type>, CheckError>(
            CheckError::AlreadyDeclared(name),
        ),
{
}

/// A name that was never declared fails to look up, with `Undeclared`.
pub proof fn lemma_undeclared_lookup(vars: Map<Seq<char>, Type>, name: String)
    requires
        !vars.contains_key(name@),
    ensures
        looked_up(vars, name) == Err::<Type, CheckError>(CheckError::Undeclared(name)),
{
}

proof fn lemma_map_of_keys(entries: Seq<(String, Type)>, k: Seq<char>)
    ensures
        map_of(entries).contains_key(k) <==> exists|i: int| 0 <= i < entries.len() && #[trigger] entries[i].0@ == k,
    decreases entries.len(),
{
    if entries.len() > 0 {
        let init = entries.drop_last();
        lemma_map_of_keys(init, k);
        if map_of(entries).contains_key(k) && entries.last().0@ != k {
            let i = choose|i: int| 0 <= i < init.len() && #[trigger] init[i].0@ == k;
            assert(entries[i].0@ == k);
        }
        if exists|i: int| 0 <= i < entries.len() && #[trigger] entries[i].0@ == k {
            let i = choose|i: int| 0 <= i < entries.len() && #[trigger] entries[i].0@ == k;
            if i < entries.len() - 1 {
                assert(init[i].0@ == k);
            }
        }
    }
}

proof fn lemma_map_of_value(entries: Seq<(String, Type)>, i: int)
    requires
        names_unique(entries),
        0 <= i < entries.len(),
    ensures
        map_of(entries).contains_key(entries[i].0@),
        map_of(entries)[entries[i].0@] == entries[i].1,
    decreases entries.len(),
{
    let init = entries.drop_last();
    if i < entries.len() - 1 {
        assert(init[i] == entries[i]);
        assert(names_unique(init));
        lemma_map_of_value(init, i);
    }
}

proof fn lemma_map_of_remove(entries: Seq<(String, Type)>, i: int)
    requires
        names_unique(entries),
        0 <= i < entries.len(),
    ensures
        map_of(entries.remove(i)) == map_of(entries).remove(entries[i].0@),
        names_unique(entries.remove(i)),
    decreases entries.len(),
{
    let k = entries[i].0@;
    let init = entries.drop_last();
    assert(names_unique(init));
    if i == entries.len() - 1 {
        assert(entries.remove(i) =~= init);
        assert forall|j: int| 0 <= j < init.len() implies #[trigger] init[j].0@ != k by {
            assert(entries[j] == init[j]);
        }
        lemma_map_of_keys(init, k);
        assert(map_of(entries).remove(k) =~= map_of(init));
    } else {
        lemma_map_of_remove(init, i);
        assert(entries.remove(i) =~= init.remove(i).push(entries.last()));
        assert(init.remove(i).push(entries.last()).drop_last() =~= init.remove(i));
        assert(entries.last().0@ != k);
        assert(map_of(entries.remove(i)) =~= map_of(entries).remove(k));
    }
}

impl VarTable {
    #[verifier::type_invariant]
    spec fn inv(self) -> bool {
        names_unique(self.entries@)
    }

    /// The declared variables and their types.
    pub closed spec fn view(&self) -> Map<Seq<char>, Type> {
        map_of(self.entries@)
    }

    /// A table with no variable declared.
    pub fn new() -> (r: VarTable)
        ensures
            r.view() == Map::<Seq<char>, Type>::empty(),
    {
        VarTable { entries: Vec::new() }
    }

    /// Position of the entry named `name`, if any.
    fn position(&self, name: &str) -> (r: Option<usize>)
        ensures
            match r {
                Some(i) => i < self.entries@.len() && self.entries@[i as int].0@ == name@,
                None => !self.view().contains_key(name@),
            },
    {
        let mut i: usize = 0;
        while i < self.entries.len()
            invariant
                0 <= i <= self.entries@.len(),
                forall|j: int| 0 <= j < i ==> #[trigger] self.entries@[j].0@ != name@,
            decreases self.entries@.len() - i,
        {
            if str_eq(self.entries[i].0.as_str(), name) {
                return Some(i);
            }
            i = i + 1;
        }
        proof {
            lemma_map_of_keys(self.entries@, name@);
        }
        None
    }
}

/// Declares `name` with type `vartype`; fails if it is declared already.
pub fn var_insert(table: &mut VarTable, name: String, vartype: Type) -> (r: Result<(), CheckError>)
    ensures
        match declared(old(table).view(), name, vartype) {
            Ok(vars) => r is Ok && final(table).view() == vars,
            Err(e) => r == Err::<(), CheckError>(e) && final(table).view() == old(table).view(),
        },
{
    proof {
        use_type_invariant(&*table);
    }
    match table.position(name.as_str()) {
        Some(i) => {
            proof {
                lemma_map_of_value(table.entries@, i as int);
            }
            Err(CheckError::AlreadyDeclared(name))
        },
        None => {
            let ghost before = table.entries@;
            proof {
                lemma_map_of_keys(before, name@);
            }
            let mut entries: Vec<(String, Type)> = Vec::new();
            core::mem::swap(&mut entries, &mut table.entries);
            entries.push((name, vartype));
            assert(entries@.drop_last() =~= before);
            core::mem::swap(&mut entries, &mut table.entries);
            Ok(())
        },
    }
}

/// The type `name` was declared with; fails if it was never declared.
pub fn var_lookup(table: &VarTable, name: String) -> (r: Result<Type, CheckError>)
    ensures
        r == looked_up(table.view(), name),
{
    proof {
        use_type_invariant(table);
    }
    match table.position(name.as_str()) {
        Some(i) => {
            proof {
                lemma_map_of_value(table.entries@, i as int);
            }
            Ok(table.entries[i].1)
        },
        None => Err(CheckError::Undeclared(name)),
    }
}

/// Forgets the declaration of `name`; fails if it was never declared.
pub fn var_remove(table: &mut VarTable, name: String) -> (r: Result<(), CheckError>)
    ensures
        r == (if old(table).view().contains_key(name@) {
            Ok(())
        } else {
            Err::<(), CheckError>(CheckError::Undeclared(name))
        }),
        final(table).view() == old(table).view().remove(name@),
{
    proof {
        use_type_invariant(&*table);
    }
    match table.position(name.as_str()) {
        Some(i) => {
            proof {
                lemma_map_of_value(table.entries@, i as int);
                lemma_map_of_remove(table.entries@, i as int);
            }
            let mut entries: Vec<(String, Type)> = Vec::new();
            core::mem::swap(&mut entries, &mut table.entries);
            entries.remove(i);
            core::mem::swap(&mut entries, &mut table.entries);
            Ok(())
        },
        None => {
            assert(old(table).view().remove(name@) =~= old(table).view());
            Err(CheckError::Undeclared(name))
        },
    }
}

} // verus!
