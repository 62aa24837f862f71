use assembly_lsp::error::ParseError;
use assembly_lsp::instruction::{Operand, OperandType};
use assembly_lsp::markup::{XmlAttribute, XmlElement, XmlEvent};
use assembly_lsp::populate::XmlInstructionParser;

fn attribute(key: &str, value: &str) -> Option<XmlAttribute> {
    Some(XmlAttribute { key: key.as_bytes().to_vec(), value: value.as_bytes().to_vec() })
}

fn element(name: &str, attributes: Vec<Option<XmlAttribute>>) -> XmlElement {
    XmlElement { name: name.as_bytes().to_vec(), attributes }
}

fn start(name: &str, attributes: Vec<Option<XmlAttribute>>) -> XmlEvent {
    XmlEvent::Start(element(name, attributes))
}

fn empty(name: &str, attributes: Vec<Option<XmlAttribute>>) -> XmlEvent {
    XmlEvent::Empty(element(name, attributes))
}

fn end(name: &str) -> XmlEvent {
    XmlEvent::End(name.as_bytes().to_vec())
}

fn feed_all(parser: &mut XmlInstructionParser, events: &[XmlEvent]) -> Result<(), ParseError> {
    for event in events {
        parser.feed(event)?;
    }
    Ok(())
}

#[test]
fn events_of_one_instruction() {
    let mut parser = XmlInstructionParser::new();
    let events = vec![
        XmlEvent::Other,
        start("InstructionSet", vec![attribute("name", "x86-64")]),
        start("Instruction", vec![attribute("name", "ADD"), attribute("summary", "Add")]),
        XmlEvent::Other,
        start("InstructionForm", vec![attribute("gas-name", "ADD")]),
        empty("Operand", vec![attribute("type", "r32"), attribute("output", "true")]),
        empty("Operand", vec![attribute("type", "r32"), attribute("input", "true")]),
        end("InstructionForm"),
        end("Instruction"),
        end("InstructionSet"),
        XmlEvent::Eof,
    ];
    assert_eq!(feed_all(&mut parser, &events), Ok(()));
    assert!(parser.is_finished());
    let index = parser.finish();
    assert_eq!(index.len(), 1);
    let add = index.get("add").unwrap();
    assert_eq!(add.summary, "Add");
    assert_eq!(add.forms.len(), 1);
    assert_eq!(add.forms[0].gas_name, Some("add".to_string()));
    assert_eq!(
        add.forms[0].operands,
        vec![
            Operand { op_type: OperandType::r32, input: None, output: Some(true) },
            Operand { op_type: OperandType::r32, input: Some(true), output: None },
        ]
    );
}

#[test]
fn nothing_is_in_the_index_before_the_end_tag() {
    let mut parser = XmlInstructionParser::new();
    parser.feed(&start("Instruction", vec![attribute("name", "a")])).unwrap();
    parser.feed(&start("InstructionForm", vec![])).unwrap();
    parser.feed(&end("InstructionForm")).unwrap();
    assert!(!parser.is_finished());
    assert!(parser.finish().is_empty());
}

#[test]
fn value_that_is_no_text_is_refused() {
    let broken = Some(XmlAttribute { key: b"name".to_vec(), value: vec![0x41, 0xff, 0x42] });
    let mut parser = XmlInstructionParser::new();
    assert_eq!(parser.feed(&start("Instruction", vec![broken])), Err(ParseError::InvalidText));

    for key in ["type", "input", "output"] {
        let broken = Some(XmlAttribute { key: key.as_bytes().to_vec(), value: vec![0xc3, 0x28] });
        let mut parser = XmlInstructionParser::new();
        assert_eq!(
            parser.feed(&empty("Operand", vec![attribute("type", "r8"), broken])),
            Err(ParseError::InvalidText)
        );
    }
    for key in ["gas-name", "go-name"] {
        let broken = Some(XmlAttribute { key: key.as_bytes().to_vec(), value: vec![0x80] });
        let mut parser = XmlInstructionParser::new();
        assert_eq!(parser.feed(&start("InstructionForm", vec![broken])), Err(ParseError::InvalidText));
    }
    let broken = Some(XmlAttribute { key: b"summary".to_vec(), value: vec![0xe2, 0x82] });
    let mut parser = XmlInstructionParser::new();
    assert_eq!(
        parser.feed(&start("Instruction", vec![attribute("name", "a"), broken])),
        Err(ParseError::InvalidText)
    );
}

#[test]
fn value_of_an_attribute_that_is_not_read_may_be_anything() {
    let odd = Some(XmlAttribute { key: b"other".to_vec(), value: vec![0xff, 0xfe] });
    let odd_key = Some(XmlAttribute { key: vec![0xff], value: b"x".to_vec() });
    let mut parser = XmlInstructionParser::new();
    parser.feed(&start("Instruction", vec![odd, attribute("name", "N"), odd_key])).unwrap();
    parser.feed(&end("Instruction")).unwrap();
    assert!(parser.finish().get("n").is_some());
}

#[test]
fn malformed_attribute_is_refused_in_its_turn() {
    let mut parser = XmlInstructionParser::new();
    assert_eq!(
        parser.feed(&empty("Operand", vec![attribute("type", "zzz"), None])),
        Err(ParseError::UnknownOperandType("zzz".to_string()))
    );
    assert_eq!(
        parser.feed(&empty("Operand", vec![None, attribute("type", "zzz")])),
        Err(ParseError::MalformedAttribute)
    );
    assert_eq!(
        parser.feed(&start("Instruction", vec![attribute("name", "a"), None])),
        Err(ParseError::MalformedAttribute)
    );
    assert_eq!(
        parser.feed(&start("InstructionForm", vec![None])),
        Err(ParseError::MalformedAttribute)
    );
    assert_eq!(parser.feed(&start("Other", vec![None])), Ok(()));
    assert_eq!(parser.feed(&empty("Other", vec![None])), Ok(()));
}

#[test]
fn a_fault_leaves_the_parser_as_it_was() {
    let mut parser = XmlInstructionParser::new();
    parser.feed(&start("Instruction", vec![attribute("name", "keep")])).unwrap();
    parser.feed(&start("InstructionForm", vec![attribute("gas-name", "k")])).unwrap();
    parser.feed(&empty("Operand", vec![attribute("type", "r8")])).unwrap();
    assert!(parser.feed(&empty("Operand", vec![attribute("type", "r9")])).is_err());
    assert!(parser.feed(&start("Instruction", vec![attribute("summary", "s")])).is_err());
    assert!(parser.feed(&start("InstructionForm", vec![None])).is_err());
    parser.feed(&end("InstructionForm")).unwrap();
    parser.feed(&end("Instruction")).unwrap();
    let index = parser.finish();
    let kept = index.get("keep").unwrap();
    assert_eq!(kept.forms.len(), 1);
    assert_eq!(kept.forms[0].gas_name, Some("k".to_string()));
    assert_eq!(kept.forms[0].operands.len(), 1);
}

#[test]
fn later_attribute_of_the_same_key_wins() {
    let mut parser = XmlInstructionParser::new();
    parser
        .feed(&start(
            "Instruction",
            vec![attribute("name", "ONE"), attribute("summary", "s1"), attribute("name", "TWO")],
        ))
        .unwrap();
    parser.feed(&end("Instruction")).unwrap();
    let index = parser.finish();
    assert!(index.get("one").is_none());
    assert_eq!(index.get("two").unwrap().summary, "s1");
}

#[test]
fn slots_are_two_and_flat() {
    // the end tag of a form appends the form slot as it stands, each time
    let mut parser = XmlInstructionParser::new();
    parser.feed(&start("Instruction", vec![attribute("name", "a")])).unwrap();
    parser.feed(&start("InstructionForm", vec![attribute("gas-name", "f")])).unwrap();
    parser.feed(&end("InstructionForm")).unwrap();
    parser.feed(&empty("Operand", vec![attribute("type", "r8")])).unwrap();
    parser.feed(&end("InstructionForm")).unwrap();
    parser.feed(&end("Instruction")).unwrap();
    // a new instruction does not clear the form slot
    parser.feed(&start("Instruction", vec![attribute("name", "b")])).unwrap();
    parser.feed(&end("InstructionForm")).unwrap();
    parser.feed(&end("Instruction")).unwrap();
    let index = parser.finish();
    let a = index.get("a").unwrap();
    assert_eq!(a.forms.len(), 2);
    assert_eq!(a.forms[0].operands.len(), 0);
    assert_eq!(a.forms[1].operands.len(), 1);
    let b = index.get("b").unwrap();
    assert_eq!(b.forms.len(), 1);
    assert_eq!(b.forms[0].gas_name, Some("f".to_string()));
    assert_eq!(b.forms[0].operands.len(), 1);
}

#[test]
fn names_of_elements_are_exact() {
    let mut parser = XmlInstructionParser::new();
    parser.feed(&start("instruction", vec![attribute("name", "a")])).unwrap();
    parser.feed(&end("instruction")).unwrap();
    parser.feed(&start("Instructions", vec![attribute("name", "b")])).unwrap();
    parser.feed(&end("Instructions")).unwrap();
    parser.feed(&empty("Instruction", vec![attribute("name", "c")])).unwrap();
    parser.feed(&empty("operand", vec![attribute("type", "zzz")])).unwrap();
    parser.feed(&start("Operand", vec![attribute("type", "zzz")])).unwrap();
    parser.feed(&end("Operand")).unwrap();
    assert!(parser.finish().is_empty());
}

#[test]
fn keys_of_attributes_are_exact() {
    let mut parser = XmlInstructionParser::new();
    parser
        .feed(&start("Instruction", vec![attribute("Name", "x"), attribute("name", "y"), attribute("SUMMARY", "z")]))
        .unwrap();
    parser.feed(&start("InstructionForm", vec![attribute("gas_name", "g"), attribute("goname", "o")])).unwrap();
    parser.feed(&empty("Operand", vec![attribute("Type", "zzz"), attribute("type", "k"), attribute("Input", "?")])).unwrap();
    parser.feed(&end("InstructionForm")).unwrap();
    parser.feed(&end("Instruction")).unwrap();
    let index = parser.finish();
    let y = index.get("y").unwrap();
    assert_eq!(y.summary, "");
    assert_eq!(y.forms[0].gas_name, None);
    assert_eq!(y.forms[0].go_name, None);
    assert_eq!(y.forms[0].operands, vec![Operand { op_type: OperandType::k, input: None, output: None }]);
}

#[test]
fn nothing_is_read_after_the_end_of_the_document() {
    let mut parser = XmlInstructionParser::new();
    parser.feed(&start("Instruction", vec![attribute("name", "a")])).unwrap();
    parser.feed(&end("Instruction")).unwrap();
    parser.feed(&XmlEvent::Eof).unwrap();
    assert!(parser.is_finished());
    assert_eq!(parser.feed(&start("Instruction", vec![attribute("name", "b")])), Ok(()));
    assert_eq!(parser.feed(&end("Instruction")), Ok(()));
    assert_eq!(parser.feed(&empty("Operand", vec![attribute("type", "zzz")])), Ok(()));
    let index = parser.finish();
    assert_eq!(index.len(), 1);
    assert!(index.get("b").is_none());
}
