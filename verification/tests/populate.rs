use assembly_lsp::error::ParseError;
use assembly_lsp::instruction::{Operand, OperandType};
use assembly_lsp::populate::populate_instructions;

const ADD: &str = "<?xml version=\"1.0\" encoding=\"utf-8\"?>\n<InstructionSet name=\"x86-64\">\n  <Instruction name=\"ADD\" summary=\"Add\">\n    <InstructionForm gas-name=\"add\">\n      <Operand type=\"r32\" output=\"true\"/>\n      <Operand type=\"r32\" input=\"true\"/>\n    </InstructionForm>\n  </Instruction>\n</InstructionSet>\n";

#[test]
fn add_with_two_operands() {
    let index = populate_instructions(ADD).unwrap();
    assert_eq!(index.len(), 1);
    let add = index.get("add").unwrap();
    assert_eq!(add.name, "add");
    assert_eq!(add.summary, "Add");
    assert_eq!(add.arch, None);
    assert_eq!(add.forms.len(), 1);
    assert_eq!(add.forms[0].gas_name, Some("add".to_string()));
    assert_eq!(add.forms[0].go_name, None);
    assert_eq!(add.forms[0].encoding, "");
    assert_eq!(
        add.forms[0].operands,
        vec![
            Operand { op_type: OperandType::r32, input: None, output: Some(true) },
            Operand { op_type: OperandType::r32, input: Some(true), output: None },
        ]
    );
}

#[test]
fn keys_are_lowercase() {
    let index = populate_instructions(ADD).unwrap();
    assert!(index.get("add").is_some());
    assert!(index.get("ADD").is_none());
    assert!(index.get("Add").is_none());
}

#[test]
fn names_of_forms_are_lowercased_and_summary_is_not() {
    let xml = "<Instruction name=\"VAddPD\" summary=\"Add Packed DOUBLE\"><InstructionForm gas-name=\"VADDPD\" go-name=\"VAddPD\"/><InstructionForm gas-name=\"x\"></InstructionForm></Instruction>";
    let index = populate_instructions(xml).unwrap();
    let found = index.get("vaddpd").unwrap();
    assert_eq!(found.name, "vaddpd");
    assert_eq!(found.summary, "Add Packed DOUBLE");
    // a form element that closes itself is no start tag: it begins no form
    assert_eq!(found.forms.len(), 1);
    assert_eq!(found.forms[0].gas_name, Some("x".to_string()));
    assert_eq!(found.forms[0].go_name, None);
}

#[test]
fn both_names_of_a_form() {
    let xml = "<Instruction name=\"a\"><InstructionForm go-name=\"ADDL\" gas-name=\"ADDL\" isa=\"x\"></InstructionForm></Instruction>";
    let index = populate_instructions(xml).unwrap();
    let form = &index.get("a").unwrap().forms[0];
    assert_eq!(form.gas_name, Some("addl".to_string()));
    assert_eq!(form.go_name, Some("addl".to_string()));
    assert!(form.operands.is_empty());
}

#[test]
fn forms_and_operands_keep_the_order_of_the_document() {
    let xml = "<Instruction name=\"mov\" summary=\"\">\
        <InstructionForm gas-name=\"movb\"><Operand type=\"r8\"/><Operand type=\"imm8\"/><Operand type=\"m8\"/></InstructionForm>\
        <InstructionForm gas-name=\"movw\"></InstructionForm>\
        <InstructionForm gas-name=\"movl\"><Operand type=\"m32{k}{z}\" input=\"false\" output=\"true\"/></InstructionForm>\
        </Instruction>";
    let index = populate_instructions(xml).unwrap();
    let mov = index.get("mov").unwrap();
    assert_eq!(mov.summary, "");
    let names: Vec<Option<String>> = mov.forms.iter().map(|f| f.gas_name.clone()).collect();
    assert_eq!(
        names,
        vec![Some("movb".to_string()), Some("movw".to_string()), Some("movl".to_string())]
    );
    let counts: Vec<usize> = mov.forms.iter().map(|f| f.operands.len()).collect();
    assert_eq!(counts, vec![3, 0, 1]);
    let types: Vec<OperandType> = mov.forms[0].operands.iter().map(|o| o.op_type).collect();
    assert_eq!(types, vec![OperandType::r8, OperandType::imm8, OperandType::m8]);
    assert_eq!(
        mov.forms[2].operands[0],
        Operand { op_type: OperandType::m32_k_z, input: Some(false), output: Some(true) }
    );
}

#[test]
fn one_instruction_gives_one_entry() {
    for operands in 0..4 {
        let mut xml = String::from("<Instruction name=\"NOP\" summary=\"s\"><InstructionForm>");
        for _ in 0..operands {
            xml.push_str("<Operand type=\"imm8\"/>");
        }
        xml.push_str("</InstructionForm></Instruction>");
        let index = populate_instructions(&xml).unwrap();
        assert_eq!(index.len(), 1);
        let nop = index.get("nop").unwrap();
        assert_eq!(nop.forms.len(), 1);
        assert_eq!(nop.forms[0].operands.len(), operands);
    }
}

#[test]
fn last_write_wins() {
    let xml = "<Set>\
        <Instruction name=\"ADD\" summary=\"first\"><InstructionForm gas-name=\"one\"><Operand type=\"r8\"/></InstructionForm><InstructionForm gas-name=\"two\"></InstructionForm></Instruction>\
        <Instruction name=\"Add\" summary=\"second\"><InstructionForm gas-name=\"three\"><Operand type=\"r16\"/></InstructionForm></Instruction>\
        </Set>";
    let index = populate_instructions(xml).unwrap();
    assert_eq!(index.len(), 1);
    let add = index.get("add").unwrap();
    assert_eq!(add.summary, "second");
    assert_eq!(add.forms.len(), 1);
    assert_eq!(add.forms[0].gas_name, Some("three".to_string()));
    assert_eq!(add.forms[0].operands.len(), 1);
    assert_eq!(add.forms[0].operands[0].op_type, OperandType::r16);
}

#[test]
fn several_instructions() {
    let xml = "<Set><Instruction name=\"A\"></Instruction><Instruction name=\"B\"></Instruction><Instruction name=\"a\"></Instruction><Instruction name=\"C\"></Instruction></Set>";
    let index = populate_instructions(xml).unwrap();
    assert_eq!(index.len(), 3);
    assert!(!index.is_empty());
    assert!(index.get("a").is_some());
    assert!(index.get("b").is_some());
    assert!(index.get("c").is_some());
    assert!(index.get("d").is_none());
}

#[test]
fn empty_documents_give_an_empty_index() {
    for xml in ["", "   \n", "<InstructionSet/>", "<InstructionSet></InstructionSet>", "<!-- nothing -->"] {
        let index = populate_instructions(xml).unwrap();
        assert_eq!(index.len(), 0);
        assert!(index.is_empty());
    }
}

#[test]
fn other_elements_and_attributes_are_passed_over() {
    let xml = "<InstructionSet name=\"x86-64\">text\
        <Instruction name=\"ADC\" summary=\"Add with Carry\" extra=\"1\">\
        <Comment>hello</Comment>\
        <InstructionForm gas-name=\"adcb\" xmm-mode=\"none\">\
        <Operand type=\"al\" input=\"true\" output=\"true\" note=\"n\"/>\
        <ImplicitOperand id=\"flags\" type=\"bogus\"/>\
        <Encoding><Opcode byte=\"14\"/><Immediate size=\"1\" value=\"#1\"/></Encoding>\
        </InstructionForm>\
        </Instruction>\
        <Operand type=\"r8\">not self-closing</Operand>\
        </InstructionSet>";
    let index = populate_instructions(xml).unwrap();
    assert_eq!(index.len(), 1);
    let adc = index.get("adc").unwrap();
    assert_eq!(adc.summary, "Add with Carry");
    assert_eq!(adc.forms.len(), 1);
    assert_eq!(
        adc.forms[0].operands,
        vec![Operand { op_type: OperandType::al, input: Some(true), output: Some(true) }]
    );
}

#[test]
fn unknown_operand_type_is_refused() {
    for token in ["r33", "R32", "", "xmm {k}", "unknown"] {
        let xml = format!(
            "<Instruction name=\"X\"><InstructionForm><Operand type=\"r8\"/><Operand type=\"{}\"/></InstructionForm></Instruction>",
            token
        );
        assert_eq!(
            populate_instructions(&xml).err(),
            Some(ParseError::UnknownOperandType(token.to_string()))
        );
    }
}

#[test]
fn unknown_operand_type_is_refused_outside_of_any_form() {
    let xml = "<Set><Operand type=\"nope\"/></Set>";
    assert_eq!(
        populate_instructions(xml).err(),
        Some(ParseError::UnknownOperandType("nope".to_string()))
    );
}

#[test]
fn flags_are_true_or_false_and_nothing_else() {
    for (value, attribute) in [("yes", "input"), ("TRUE", "output"), ("", "input"), ("1", "output"), ("false ", "input")] {
        let xml = format!(
            "<Instruction name=\"X\"><InstructionForm><Operand type=\"r8\" {}=\"{}\"/></InstructionForm></Instruction>",
            attribute, value
        );
        assert_eq!(
            populate_instructions(&xml).err(),
            Some(ParseError::InvalidFlag(value.to_string()))
        );
    }
}

#[test]
fn absent_flags_are_not_false() {
    let xml = "<Instruction name=\"X\"><InstructionForm><Operand type=\"r8\"/><Operand type=\"r8\" input=\"false\"/><Operand output=\"false\" type=\"r8\"/></InstructionForm></Instruction>";
    let index = populate_instructions(xml).unwrap();
    let operands = &index.get("x").unwrap().forms[0].operands;
    assert_eq!(operands[0], Operand { op_type: OperandType::r8, input: None, output: None });
    assert_eq!(operands[1], Operand { op_type: OperandType::r8, input: Some(false), output: None });
    assert_eq!(operands[2], Operand { op_type: OperandType::r8, input: None, output: Some(false) });
}

#[test]
fn operand_without_type_is_refused() {
    let xml = "<Instruction name=\"X\"><InstructionForm><Operand input=\"true\"/></InstructionForm></Instruction>";
    assert_eq!(populate_instructions(xml).err(), Some(ParseError::MissingType));
}

#[test]
fn instruction_without_name_is_refused() {
    let xml = "<Instruction summary=\"nameless\"></Instruction>";
    assert_eq!(populate_instructions(xml).err(), Some(ParseError::MissingName));
}

#[test]
fn first_fault_is_reported() {
    let xml = "<Instruction name=\"X\"><InstructionForm><Operand input=\"maybe\" type=\"bogus\"/></InstructionForm></Instruction>";
    assert_eq!(
        populate_instructions(xml).err(),
        Some(ParseError::InvalidFlag("maybe".to_string()))
    );
    let xml = "<Instruction name=\"X\"><InstructionForm><Operand type=\"bogus\" input=\"maybe\"/></InstructionForm></Instruction>";
    assert_eq!(
        populate_instructions(xml).err(),
        Some(ParseError::UnknownOperandType("bogus".to_string()))
    );
}

#[test]
fn a_fault_gives_no_index_even_after_good_instructions() {
    let xml = "<Set><Instruction name=\"A\"></Instruction><Instruction name=\"B\"><InstructionForm><Operand type=\"zzz\"/></InstructionForm></Instruction></Set>";
    assert!(populate_instructions(xml).is_err());
}

#[test]
fn broken_markup_is_refused() {
    for xml in [
        "<Set><Instruction name=\"A\"></Set>",
        "<Instruction name=\"A\"></Instruction><x",
        "</Instruction>",
    ] {
        assert_eq!(populate_instructions(xml).err(), Some(ParseError::MalformedMarkup));
    }
}

#[test]
fn broken_attributes_are_refused_where_they_are_read() {
    for xml in [
        "<Instruction name=\"A\" name=\"B\"></Instruction>",
        "<Instruction name=A></Instruction>",
        "<Instruction name=\"A\"><InstructionForm gas-name></InstructionForm></Instruction>",
        "<Operand type=\"r8\" input=true/>",
    ] {
        assert_eq!(populate_instructions(xml).err(), Some(ParseError::MalformedAttribute));
    }
    // an element that is passed over is not read
    let index = populate_instructions("<Other key=value other></Other>").unwrap();
    assert!(index.is_empty());
}

#[test]
fn values_are_taken_raw() {
    let xml = "<Instruction name=\"A&amp;B\" summary=\"x &lt; y\"></Instruction>";
    let index = populate_instructions(xml).unwrap();
    assert_eq!(index.get("a&amp;b").unwrap().summary, "x &lt; y");
}

#[test]
fn lowercase_is_that_of_unicode() {
    let xml = "<Instruction name=\"ÀÉÎ Σ\"></Instruction>";
    let index = populate_instructions(xml).unwrap();
    assert_eq!(index.len(), 1);
    assert!(index.get("ÀÉÎ Σ".to_lowercase().as_str()).is_some());
    assert!(index.get("àéî σ").is_some());
}

#[test]
fn messages_name_the_offending_string() {
    let xml = "<Operand type=\"r99\"/>";
    assert_eq!(
        populate_instructions(xml).err().unwrap().message(),
        "Unknown value for operand type -- Variant: r99"
    );
    let xml = "<Operand type=\"r8\" input=\"si\"/>";
    assert_eq!(
        populate_instructions(xml).err().unwrap().message(),
        "Unknown value for operand flag -- Value: si"
    );
    assert_eq!(ParseError::InvalidText.message(), "Attribute value is not valid UTF-8");
    assert_eq!(ParseError::MissingName.message(), "Instruction without a name");
    assert_eq!(ParseError::MissingType.message(), "Operand without a type");
    assert_eq!(ParseError::MalformedAttribute.message(), "Malformed attribute");
    assert_eq!(ParseError::MalformedMarkup.message(), "Malformed markup");
}
