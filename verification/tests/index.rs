use assembly_lsp::index::InstructionIndex;
use assembly_lsp::instruction::{Arch, Instruction, InstructionForm};

fn instruction(name: &str, summary: &str) -> Instruction {
    Instruction { name: name.to_string(), summary: summary.to_string(), arch: None, forms: Vec::new() }
}

#[test]
fn new_index_is_empty() {
    let index = InstructionIndex::new();
    assert_eq!(index.len(), 0);
    assert!(index.is_empty());
    assert!(index.get("add").is_none());
    assert!(index.get("").is_none());
}

#[test]
fn inserted_instruction_is_found_under_its_name() {
    let mut index = InstructionIndex::new();
    index.insert(instruction("add", "Add"));
    index.insert(instruction("sub", "Subtract"));
    assert_eq!(index.len(), 2);
    assert!(!index.is_empty());
    assert_eq!(index.get("add"), Some(&instruction("add", "Add")));
    assert_eq!(index.get("sub"), Some(&instruction("sub", "Subtract")));
    assert_eq!(index.get("mul"), None);
    assert_eq!(index.get("ad"), None);
    assert_eq!(index.get("ADD"), None);
}

#[test]
fn insert_under_a_name_that_is_there_replaces() {
    let mut index = InstructionIndex::new();
    let mut first = instruction("add", "first");
    first.forms.push(InstructionForm::default());
    first.arch = Some(Arch::x86);
    index.insert(first);
    index.insert(instruction("sub", "s"));
    index.insert(instruction("add", "second"));
    assert_eq!(index.len(), 2);
    let add = index.get("add").unwrap();
    assert_eq!(add.summary, "second");
    assert!(add.forms.is_empty());
    assert_eq!(add.arch, None);
    assert_eq!(index.get("sub").unwrap().summary, "s");
}

#[test]
fn the_empty_name_is_a_name() {
    let mut index = InstructionIndex::new();
    index.insert(instruction("", "nameless"));
    assert_eq!(index.len(), 1);
    assert_eq!(index.get("").unwrap().summary, "nameless");
}

#[test]
fn defaults_and_clones() {
    let empty = Instruction::default();
    assert_eq!(empty, instruction("", ""));
    let form = InstructionForm::default();
    assert_eq!(form.gas_name, None);
    assert_eq!(form.go_name, None);
    assert_eq!(form.encoding, "");
    assert!(form.operands.is_empty());
    let mut first = instruction("a", "b");
    first.arch = Some(Arch::x86_64);
    first.forms.push(InstructionForm {
        gas_name: Some("g".to_string()),
        go_name: None,
        encoding: "e".to_string(),
        operands: Vec::new(),
    });
    let copy = first.clone();
    assert_eq!(copy, first);
    assert_eq!(copy.forms[0].clone(), first.forms[0]);
}

#[test]
fn architecture_is_the_64_bit_one_where_none_is_named() {
    let mut i = instruction("a", "b");
    assert_eq!(i.architecture(), Arch::x86_64);
    i.arch = Some(Arch::x86);
    assert_eq!(i.architecture(), Arch::x86);
    i.arch = Some(Arch::x86_64);
    assert_eq!(i.architecture(), Arch::x86_64);
}
