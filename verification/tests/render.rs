use assembly_lsp::instruction::{Arch, Instruction, InstructionForm, Operand, OperandType};

fn operand(op_type: OperandType, input: Option<bool>, output: Option<bool>) -> Operand {
    Operand { op_type, input, output }
}

fn form(gas: Option<&str>, go: Option<&str>, operands: Vec<Operand>) -> InstructionForm {
    InstructionForm {
        gas_name: gas.map(|s| s.to_string()),
        go_name: go.map(|s| s.to_string()),
        encoding: String::new(),
        operands,
    }
}

#[test]
fn form_with_both_names_and_two_operands() {
    let f = form(
        Some("add"),
        Some("ADDL"),
        vec![
            operand(OperandType::r32, None, Some(true)),
            operand(OperandType::r32, Some(true), None),
        ],
    );
    assert_eq!(
        f.render(),
        "- *GAS*: add | *GO*: ADDL\n\n  + [r32]    output = true \n  + [r32]    input = true  \n"
    );
}

#[test]
fn form_with_one_name() {
    assert_eq!(form(Some("add"), None, vec![]).render(), "- *GAS*: add\n\n\n");
    assert_eq!(form(None, Some("ADDL"), vec![]).render(), "- *GO*: ADDL\n\n\n");
}

#[test]
fn form_without_names() {
    assert_eq!(form(None, None, vec![]).render(), "\n");
    assert_eq!(
        form(None, None, vec![operand(OperandType::k, None, None)]).render(),
        "  + [k]     \n"
    );
}

#[test]
fn type_tag_fills_eight_columns_and_may_be_longer() {
    let cases = [
        (OperandType::_1, "  + [1]     \n"),
        (OperandType::al, "  + [al]    \n"),
        (OperandType::imm16, "  + [imm16] \n"),
        (OperandType::xmm_k, "  + [xmm{k}]\n"),
        (OperandType::moffs32, "  + [moffs32]\n"),
        (OperandType::m512_m64bcst, "  + [m512/m64bcst]\n"),
        (OperandType::sae, "  + [{sae}] \n"),
    ];
    for (op_type, expected) in cases {
        assert_eq!(form(None, None, vec![operand(op_type, None, None)]).render(), expected);
    }
}

#[test]
fn flags_fill_five_columns() {
    let cases = [
        (Some(true), None, "  + [r8]     input = true  \n"),
        (Some(false), None, "  + [r8]     input = false \n"),
        (None, Some(true), "  + [r8]     output = true \n"),
        (None, Some(false), "  + [r8]     output = false\n"),
        (Some(true), Some(true), "  + [r8]     input = true   output = true \n"),
        (Some(false), Some(false), "  + [r8]     input = false  output = false\n"),
        (Some(true), Some(false), "  + [r8]     input = true   output = false\n"),
    ];
    for (input, output, expected) in cases {
        assert_eq!(form(None, None, vec![operand(OperandType::r8, input, output)]).render(), expected);
    }
}

#[test]
fn operand_lines_are_those_of_the_format_strings() {
    for op_type in [OperandType::r8, OperandType::m128_m32bcst, OperandType::tmm, OperandType::_3] {
        for input in [None, Some(true), Some(false)] {
            for output in [None, Some(true), Some(false)] {
                let mut line = format!("  + {:<8}", format!("[{}]", op_type.as_str()));
                if let Some(input) = input {
                    line += &format!(" input = {:<5} ", input);
                }
                if let Some(output) = output {
                    line += &format!(" output = {:<5}", output);
                }
                let rendered = form(None, None, vec![operand(op_type, input, output)]).render();
                assert_eq!(rendered, line + "\n");
            }
        }
    }
}

#[test]
fn instruction_without_forms() {
    let i = Instruction {
        name: "nop".to_string(),
        summary: "No Operation".to_string(),
        arch: None,
        forms: vec![],
    };
    assert_eq!(i.render(), "nop\nNo Operation\n\n\n## Forms\n\n");
}

#[test]
fn instruction_with_architecture() {
    let mut i = Instruction {
        name: "nop".to_string(),
        summary: String::new(),
        arch: Some(Arch::x86_64),
        forms: vec![],
    };
    assert_eq!(i.render(), "nop [x86_64]\n\n\n\n## Forms\n\n");
    i.arch = Some(Arch::x86);
    assert_eq!(i.render(), "nop [x86]\n\n\n\n## Forms\n\n");
}

#[test]
fn instruction_with_forms_in_their_order() {
    let i = Instruction {
        name: "add".to_string(),
        summary: "Add".to_string(),
        arch: None,
        forms: vec![
            form(
                Some("addb"),
                None,
                vec![
                    operand(OperandType::al, Some(true), Some(true)),
                    operand(OperandType::imm8, None, None),
                ],
            ),
            form(None, Some("ADDW"), vec![operand(OperandType::r16, None, Some(false))]),
            form(None, None, vec![]),
        ],
    };
    let expected = "add\nAdd\n\n\n## Forms\n\n\n\
        - *GAS*: addb\n\n  + [al]     input = true   output = true \n  + [imm8]  \n\n\
        - *GO*: ADDW\n\n  + [r16]    output = false\n\n\
        \n";
    assert_eq!(i.render(), expected);
}

#[test]
fn text_is_the_lines_joined() {
    let forms = vec![
        form(Some("a"), Some("b"), vec![operand(OperandType::r8, Some(true), None)]),
        form(Some("c"), None, vec![]),
    ];
    let i = Instruction {
        name: "x".to_string(),
        summary: "y".to_string(),
        arch: Some(Arch::x86),
        forms,
    };
    let mut parts: Vec<String> = vec![
        "x [x86]".to_string(),
        "y".to_string(),
        "\n".to_string(),
        "## Forms".to_string(),
        "\n".to_string(),
    ];
    for f in &i.forms {
        parts.push(f.render());
    }
    assert_eq!(i.render(), parts.join("\n"));
}

#[test]
fn text_mentions_name_names_and_tags() {
    let i = Instruction {
        name: "vaddpd".to_string(),
        summary: "Add Packed".to_string(),
        arch: None,
        forms: vec![
            form(Some("vaddpd"), Some("VADDPD"), vec![
                operand(OperandType::xmm_k_z, None, Some(true)),
                operand(OperandType::m128_m64bcst, Some(true), None),
            ]),
            form(Some("other"), None, vec![operand(OperandType::er, None, None)]),
        ],
    };
    let text = i.render();
    for part in ["vaddpd", "VADDPD", "other", "[xmm{k}{z}]", "[m128/m64bcst]", "[{er}]", "Add Packed"] {
        assert!(text.contains(part));
    }
}

#[test]
fn names_that_are_not_ascii_count_by_character() {
    let f = form(Some("añadir"), Some("ÅÄÖ"), vec![]);
    assert_eq!(f.render(), "- *GAS*: añadir | *GO*: ÅÄÖ\n\n\n");
}
