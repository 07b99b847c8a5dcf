use c_rule_check::ast::TypeSpecifier;
use c_rule_check::symbols::{SymbolTable, SymbolType};

fn name(text: &str) -> String {
    String::from(text)
}

#[test]
fn empty_table_knows_nothing() {
    let table = SymbolTable::new();
    assert!(table.lookup(&name("f")).is_none());
}

#[test]
fn registered_function_is_found() {
    let mut table = SymbolTable::new();
    table.register(name("f"), TypeSpecifier::Int);
    let symbol = table.lookup(&name("f")).unwrap();
    assert_eq!(symbol.name, "f");
    assert_eq!(symbol.symbol_type, SymbolType::Function { return_type: TypeSpecifier::Int });
    assert!(table.lookup(&name("g")).is_none());
}

#[test]
fn last_registration_wins() {
    let mut table = SymbolTable::new();
    table.register(name("f"), TypeSpecifier::Int);
    table.register(name("f"), TypeSpecifier::Void);
    let symbol = table.lookup(&name("f")).unwrap();
    assert_eq!(symbol.symbol_type, SymbolType::Function { return_type: TypeSpecifier::Void });
}

#[test]
fn registering_again_leaves_the_others_alone() {
    let mut table = SymbolTable::new();
    table.register(name("f"), TypeSpecifier::Int);
    table.register(name("g"), TypeSpecifier::Char);
    table.register(name("h"), TypeSpecifier::Void);
    table.register(name("g"), TypeSpecifier::Long);
    let kind = |text: &str| table.lookup(&name(text)).map(|symbol| symbol.symbol_type);
    assert_eq!(kind("f"), Some(SymbolType::Function { return_type: TypeSpecifier::Int }));
    assert_eq!(kind("g"), Some(SymbolType::Function { return_type: TypeSpecifier::Long }));
    assert_eq!(kind("h"), Some(SymbolType::Function { return_type: TypeSpecifier::Void }));
    assert_eq!(kind("i"), None);
}

#[test]
fn names_are_compared_in_full() {
    let mut table = SymbolTable::new();
    table.register(name("read"), TypeSpecifier::Int);
    assert!(table.lookup(&name("rea")).is_none());
    assert!(table.lookup(&name("reads")).is_none());
    assert!(table.lookup(&name("Read")).is_none());
    assert!(table.lookup(&name("")).is_none());
}

#[test]
fn only_void_yields_no_value() {
    assert!(!SymbolType::Function { return_type: TypeSpecifier::Void }.returns_value());
    assert!(SymbolType::Function { return_type: TypeSpecifier::Int }.returns_value());
    assert!(SymbolType::Function { return_type: TypeSpecifier::Other }.returns_value());
    assert!(!SymbolType::Variable.returns_value());
}
