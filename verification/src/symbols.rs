//! The table of the functions met so far, by name.

use vstd::prelude::*;
use vstd::seq_lib::seq_to_set_is_finite;
use vstd::string::*;

use crate::ast::TypeSpecifier;

verus! {

/// What a name stands for.
#[derive(Clone, Copy, Debug, PartialEq, Eq, Structural)]
pub enum SymbolType {
    Function { return_type: TypeSpecifier },
    Variable,
}

/// A named entry of the table.
#[derive(Debug)]
pub struct Symbol {
    pub name: String,
    pub symbol_type: SymbolType,
}

/// The table as a map from names to what they stand for.
pub type Symbols = Map<Seq<char>, SymbolType>;

impl SymbolType {
    /// A function whose calls yield a value.
    pub open spec fn yields_value(self) -> bool {
        match self {
            SymbolType::Function { return_type } => return_type != TypeSpecifier::Void,
            SymbolType::Variable => false,
        }
    }

    pub fn returns_value(&self) -> (r: bool)
        ensures
            r == self.yields_value(),
    {
        match self {
            SymbolType::Function { return_type } => match return_type {
                TypeSpecifier::Void => false,
                _ => true,
            },
            SymbolType::Variable => false,
        }
    }
}

/// Names with what they stand for. A name has at most one entry; registering
/// it again replaces what it stood for.
pub struct SymbolTable {
    entries: Vec<Symbol>,
}

/// Some entry of `entries` has the name `name`.
spec fn names(entries: Seq<Symbol>, name: Seq<char>) -> bool {
    exists|i: int| 0 <= i < entries.len() && (#[trigger] entries[i]).name@ == name
}

/// The index of the entry named `name`.
spec fn position(entries: Seq<Symbol>, name: Seq<char>) -> int {
    choose|i: int| 0 <= i < entries.len() && (#[trigger] entries[i]).name@ == name
}

/// No two entries share a name.
spec fn distinct(entries: Seq<Symbol>) -> bool {
    forall|i: int, j: int|
        0 <= i < entries.len() && 0 <= j < entries.len() && (#[trigger] entries[i]).name@ == (
        #[trigger] entries[j]).name@ ==> i == j
}

/// The map that a list of entries stands for.
spec fn table_of(entries: Seq<Symbol>) -> Symbols {
    Map::new(
        |name: Seq<char>| names(entries, name),
        |name: Seq<char>| entries[position(entries, name)].symbol_type,
    )
}

/// Replacing the entry of a name keeps the names distinct and changes what
/// that one name stands for.
proof fn lemma_replaced(before: Seq<Symbol>, after: Seq<Symbol>, i: int)
    requires
        distinct(before),
        0 <= i < before.len(),
        after.len() == before.len(),
        after[i].name@ == before[i].name@,
        forall|k: int| 0 <= k < before.len() && k != i ==> after[k] == before[k],
    ensures
        distinct(after),
        table_of(after) =~= table_of(before).insert(after[i].name@, after[i].symbol_type),
{
    assert forall|k: int| 0 <= k < before.len() implies (#[trigger] after[k]).name@
        == before[k].name@ by {}
    assert forall|n: Seq<char>| names(after, n) == names(before, n) by {
        if names(before, n) {
            let k = position(before, n);
            assert(after[k].name@ == n);
        }
        if names(after, n) {
            let k = position(after, n);
            assert(before[k].name@ == n);
        }
    }
    assert forall|n: Seq<char>| names(after, n) implies position(after, n) == position(
        before,
        n,
    ) by {
        let k = position(after, n);
        assert(before[k].name@ == n);
    }
    assert(names(before, after[i].name@)) by {
        assert(before[i].name@ == after[i].name@);
    }
    assert(position(before, after[i].name@) == i);
}

/// Appending an entry under a new name keeps the names distinct and adds
/// that one name.
proof fn lemma_appended(before: Seq<Symbol>, after: Seq<Symbol>)
    requires
        distinct(before),
        after.len() == before.len() + 1,
        forall|k: int| 0 <= k < before.len() ==> after[k] == before[k],
        forall|k: int| 0 <= k < before.len() ==> (#[trigger] before[k]).name@ != after.last().name@,
    ensures
        distinct(after),
        table_of(after) =~= table_of(before).insert(after.last().name@, after.last().symbol_type),
{
    let last = before.len() as int;
    let name = after[last].name@;
    assert forall|k: int| 0 <= k < before.len() implies (#[trigger] after[k]).name@
        == before[k].name@ by {}
    assert forall|n: Seq<char>| names(after, n) == (names(before, n) || n == name) by {
        if names(before, n) {
            let k = position(before, n);
            assert(after[k].name@ == n);
        }
        if names(after, n) {
            let k = position(after, n);
            if k < last {
                assert(before[k].name@ == n);
            }
        }
        if n == name {
            assert(after[last].name@ == n);
        }
    }
    assert forall|n: Seq<char>| names(before, n) implies position(after, n) == position(
        before,
        n,
    ) by {
        let k = position(before, n);
        assert(after[k].name@ == n);
        let m = position(after, n);
        assert(after[m].name@ == n);
    }
    assert(names(after, name));
    assert(position(after, name) == last);
}

/// The names of a list of entries are finitely many.
proof fn lemma_finitely_many_names(entries: Seq<Symbol>)
    ensures
        table_of(entries).dom().finite(),
{
    let listed = Seq::new(entries.len(), |i: int| entries[i].name@);
    assert forall|name: Seq<char>| names(entries, name) implies listed.to_set().contains(
        name,
    ) by {
        let i = position(entries, name);
        assert(listed[i] == name);
    }
    assert forall|name: Seq<char>| listed.to_set().contains(name) implies names(
        entries,
        name,
    ) by {
        let i = choose|i: int| 0 <= i < listed.len() && listed[i] == name;
        assert(entries[i].name@ == name);
    }
    assert(table_of(entries).dom() =~= listed.to_set());
    seq_to_set_is_finite(listed);
}

impl View for SymbolTable {
    type V = Symbols;

    closed spec fn view(&self) -> Symbols {
        table_of(self.entries@)
    }
}

impl SymbolTable {
    #[verifier::type_invariant]
    spec fn well_formed(self) -> bool {
        distinct(self.entries@)
    }

    /// A table holds finitely many names.
    pub proof fn domain_is_finite(self)
        ensures
            self@.dom().finite(),
    {
        lemma_finitely_many_names(self.entries@);
    }

    /// The empty table.
    pub fn new() -> (table: SymbolTable)
        ensures
            table@ == Symbols::empty(),
            table@.dom().finite(),
    {
        let table = SymbolTable { entries: Vec::new() };
        proof {
            assert(table@ =~= Symbols::empty());
            lemma_finitely_many_names(table.entries@);
        }
        table
    }

    /// The entry under `name`, if the name has been registered.
    pub fn lookup(&self, name: &String) -> (found: Option<&Symbol>)
        ensures
            found is Some <==> self@.dom().contains(name@),
            found matches Some(symbol) ==> symbol.name@ == name@ && symbol.symbol_type
                == self@[name@],
    {
        proof {
            use_type_invariant(self);
        }
        let mut i: usize = 0;
        while i < self.entries.len()
            invariant
                i <= self.entries@.len(),
                distinct(self.entries@),
                forall|k: int| 0 <= k < i ==> (#[trigger] self.entries@[k]).name@ != name@,
            decreases self.entries@.len() - i,
        {
            if self.entries[i].name == *name {
                assert(names(self.entries@, name@));
                assert(position(self.entries@, name@) == i);
                return Some(&self.entries[i]);
            }
            i = i + 1;
        }
        assert(!names(self.entries@, name@));
        None
    }

    /// Records that `name` is a function that returns `return_type`,
    /// whatever the name stood for before.
    pub fn register(&mut self, name: String, return_type: TypeSpecifier)
        ensures
            final(self)@ == old(self)@.insert(name@, SymbolType::Function { return_type }),
            final(self)@.dom().finite(),
    {
        proof {
            use_type_invariant(&*self);
        }
        let symbol_type = SymbolType::Function { return_type };
        let ghost before = self.entries@;
        let mut entries: Vec<Symbol> = Vec::new();
        std::mem::swap(&mut self.entries, &mut entries);
        let mut i: usize = 0;
        let mut found: bool = false;
        while i < entries.len() && !found
            invariant
                i <= entries@.len(),
                entries@ == before,
                distinct(before),
                forall|k: int| 0 <= k < i ==> (#[trigger] before[k]).name@ != name@,
                found ==> i < entries@.len() && before[i as int].name@ == name@,
            decreases entries@.len() - i, (if found { 0int } else { 1int }),
        {
            if entries[i].name == name {
                found = true;
            } else {
                i = i + 1;
            }
        }
        if found {
            entries.set(i, Symbol { name, symbol_type });
            proof {
                lemma_replaced(before, entries@, i as int);
            }
        } else {
            entries.push(Symbol { name, symbol_type });
            proof {
                lemma_appended(before, entries@);
            }
        }
        self.entries = entries;
        proof {
            assert(final(self)@ =~= old(self)@.insert(name@, symbol_type));
            lemma_finitely_many_names(self.entries@);
        }
    }
}

} // verus!
