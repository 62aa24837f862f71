//! Reading a machine description: from markup events to the index.
//!
//! The parser keeps two slots, the instruction and the form under
//! construction, and fills the index as the end tags arrive. Any fault in an
//! element that it reads ends the parse with an error.

use vstd::prelude::*;
use vstd::string::*;
use vstd::utf8::*;
use crate::error::{ParseError, ParseErrorView};
use crate::index::InstructionIndex;
use crate::instruction::{
    operand_type_of,
    Instruction,
    InstructionForm,
    InstructionFormView,
    InstructionView,
    Operand,
    OperandType,
};
use crate::markup::{
    attribute_views,
    events_of,
    next_event,
    open_reader,
    pending,
    XmlAttribute,
    XmlAttributeView,
    XmlEvent,
    XmlEventView,
};
use crate::text::{bytes_are, decode, lowercase, str_eq, text_of, to_lowercase};

verus! {

/// Whether a name of the markup, in bytes, is the given word.
pub open spec fn is_word(name: Seq<u8>, word: Seq<char>) -> bool {
    name == encode_utf8(word)
}

/// What the attributes of a start-of-instruction element have given so far.
pub struct InstructionHead {
    pub name: Option<Seq<char>>,
    pub summary: Seq<char>,
}

/// What the attributes of an operand element have given so far.
pub struct OperandDraft {
    pub op_type: Option<OperandType>,
    pub input: Option<bool>,
    pub output: Option<bool>,
}

/// The text of an attribute value.
pub open spec fn value_text(value: Seq<u8>) -> Result<Seq<char>, ParseErrorView> {
    match text_of(value) {
        Some(text) => Ok(text),
        None => Err(ParseErrorView::InvalidText),
    }
}

/// The flag that an `input` or `output` value states.
pub open spec fn flag_of(value: Seq<u8>) -> Result<bool, ParseErrorView> {
    match text_of(value) {
        None => Err(ParseErrorView::InvalidText),
        Some(text) => if text == "true"@ {
            Ok(true)
        } else if text == "false"@ {
            Ok(false)
        } else {
            Err(ParseErrorView::InvalidFlag(text))
        },
    }
}

/// The operand type that a `type` value states.
pub open spec fn type_of(value: Seq<u8>) -> Result<OperandType, ParseErrorView> {
    match text_of(value) {
        None => Err(ParseErrorView::InvalidText),
        Some(text) => match operand_type_of(text) {
            Some(op_type) => Ok(op_type),
            None => Err(ParseErrorView::UnknownOperandType(text)),
        },
    }
}

/// One attribute of a start-of-instruction element: `name` is lowercased,
/// `summary` is taken as it is, any other is passed over.
pub open spec fn instruction_attribute(
    head: InstructionHead,
    attribute: Option<XmlAttributeView>,
) -> Result<InstructionHead, ParseErrorView> {
    match attribute {
        None => Err(ParseErrorView::MalformedAttribute),
        Some(a) => if is_word(a.key, "name"@) {
            match value_text(a.value) {
                Ok(text) => Ok(InstructionHead { name: Some(lowercase(text)), ..head }),
                Err(e) => Err(e),
            }
        } else if is_word(a.key, "summary"@) {
            match value_text(a.value) {
                Ok(text) => Ok(InstructionHead { summary: text, ..head }),
                Err(e) => Err(e),
            }
        } else {
            Ok(head)
        },
    }
}

/// The attributes of a start-of-instruction element, in their order, up to
/// the first fault.
pub open spec fn instruction_attributes(
    head: InstructionHead,
    attributes: Seq<Option<XmlAttributeView>>,
) -> Result<InstructionHead, ParseErrorView>
    decreases attributes.len(),
{
    if attributes.len() == 0 {
        Ok(head)
    } else {
        match instruction_attribute(head, attributes[0]) {
            Ok(next) => instruction_attributes(next, attributes.drop_first()),
            Err(e) => Err(e),
        }
    }
}

/// The instruction that a start-of-instruction element begins: named, with
/// its summary or an empty one, without forms. An element without a `name`
/// is refused.
pub open spec fn instruction_start(attributes: Seq<Option<XmlAttributeView>>) -> Result<
    InstructionView,
    ParseErrorView,
> {
    match instruction_attributes(
        InstructionHead { name: None, summary: Seq::empty() },
        attributes,
    ) {
        Err(e) => Err(e),
        Ok(head) => match head.name {
            None => Err(ParseErrorView::MissingName),
            Some(name) => Ok(
                InstructionView { name, summary: head.summary, ..InstructionView::empty() },
            ),
        },
    }
}

/// One attribute of a start-of-form element: `gas-name` and `go-name` are
/// lowercased, any other is passed over.
pub open spec fn form_attribute(
    form: InstructionFormView,
    attribute: Option<XmlAttributeView>,
) -> Result<InstructionFormView, ParseErrorView> {
    match attribute {
        None => Err(ParseErrorView::MalformedAttribute),
        Some(a) => if is_word(a.key, "gas-name"@) {
            match value_text(a.value) {
                Ok(text) => Ok(InstructionFormView { gas_name: Some(lowercase(text)), ..form }),
                Err(e) => Err(e),
            }
        } else if is_word(a.key, "go-name"@) {
            match value_text(a.value) {
                Ok(text) => Ok(InstructionFormView { go_name: Some(lowercase(text)), ..form }),
                Err(e) => Err(e),
            }
        } else {
            Ok(form)
        },
    }
}

/// The attributes of a start-of-form element, in their order, up to the first
/// fault.
pub open spec fn form_attributes(
    form: InstructionFormView,
    attributes: Seq<Option<XmlAttributeView>>,
) -> Result<InstructionFormView, ParseErrorView>
    decreases attributes.len(),
{
    if attributes.len() == 0 {
        Ok(form)
    } else {
        match form_attribute(form, attributes[0]) {
            Ok(next) => form_attributes(next, attributes.drop_first()),
            Err(e) => Err(e),
        }
    }
}

/// The form that a start-of-form element begins: with the names that it
/// gives, without operands.
pub open spec fn form_start(attributes: Seq<Option<XmlAttributeView>>) -> Result<
    InstructionFormView,
    ParseErrorView,
> {
    form_attributes(InstructionFormView::empty(), attributes)
}

/// One attribute of an operand element: `type` must spell an operand type,
/// `input` and `output` must be `true` or `false`, any other is passed over.
pub open spec fn operand_attribute(
    draft: OperandDraft,
    attribute: Option<XmlAttributeView>,
) -> Result<OperandDraft, ParseErrorView> {
    match attribute {
        None => Err(ParseErrorView::MalformedAttribute),
        Some(a) => if is_word(a.key, "type"@) {
            match type_of(a.value) {
                Ok(op_type) => Ok(OperandDraft { op_type: Some(op_type), ..draft }),
                Err(e) => Err(e),
            }
        } else if is_word(a.key, "input"@) {
            match flag_of(a.value) {
                Ok(flag) => Ok(OperandDraft { input: Some(flag), ..draft }),
                Err(e) => Err(e),
            }
        } else if is_word(a.key, "output"@) {
            match flag_of(a.value) {
                Ok(flag) => Ok(OperandDraft { output: Some(flag), ..draft }),
                Err(e) => Err(e),
            }
        } else {
            Ok(draft)
        },
    }
}

/// The attributes of an operand element, in their order, up to the first
/// fault.
pub open spec fn operand_attributes(
    draft: OperandDraft,
    attributes: Seq<Option<XmlAttributeView>>,
) -> Result<OperandDraft, ParseErrorView>
    decreases attributes.len(),
{
    if attributes.len() == 0 {
        Ok(draft)
    } else {
        match operand_attribute(draft, attributes[0]) {
            Ok(next) => operand_attributes(next, attributes.drop_first()),
            Err(e) => Err(e),
        }
    }
}

/// The operand that an operand element states. An element without a `type`
/// is refused.
pub open spec fn operand_of(attributes: Seq<Option<XmlAttributeView>>) -> Result<
    Operand,
    ParseErrorView,
> {
    match operand_attributes(
        OperandDraft { op_type: None, input: None, output: None },
        attributes,
    ) {
        Err(e) => Err(e),
        Ok(draft) => match draft.op_type {
            None => Err(ParseErrorView::MissingType),
            Some(op_type) => Ok(Operand { op_type, input: draft.input, output: draft.output }),
        },
    }
}

/// The state of a parse: the index so far, the instruction and the form under
/// construction, and whether the end of the document was seen.
pub struct ParserView {
    pub index: Map<Seq<char>, InstructionView>,
    pub instruction: InstructionView,
    pub form: InstructionFormView,
    pub finished: bool,
}

impl ParserView {
    /// The state before the first event.
    pub open spec fn initial() -> ParserView {
        ParserView {
            index: Map::empty(),
            instruction: InstructionView::empty(),
            form: InstructionFormView::empty(),
            finished: false,
        }
    }
}

/// What one event does to the state of a parse that has not seen the end of
/// its document.
pub open spec fn handle(state: ParserView, event: XmlEventView) -> Result<
    ParserView,
    ParseErrorView,
> {
    match event {
        XmlEventView::Start(element) => if is_word(element.name, "Instruction"@) {
            match instruction_start(element.attributes) {
                Ok(instruction) => Ok(ParserView { instruction, ..state }),
                Err(e) => Err(e),
            }
        } else if is_word(element.name, "InstructionForm"@) {
            match form_start(element.attributes) {
                Ok(form) => Ok(ParserView { form, ..state }),
                Err(e) => Err(e),
            }
        } else {
            Ok(state)
        },
        XmlEventView::Empty(element) => if is_word(element.name, "Operand"@) {
            match operand_of(element.attributes) {
                Ok(operand) => Ok(
                    ParserView {
                        form: InstructionFormView {
                            operands: state.form.operands.push(operand),
                            ..state.form
                        },
                        ..state
                    },
                ),
                Err(e) => Err(e),
            }
        } else {
            Ok(state)
        },
        XmlEventView::End(name) => if is_word(name, "Instruction"@) {
            Ok(
                ParserView {
                    index: state.index.insert(state.instruction.name, state.instruction),
                    ..state
                },
            )
        } else if is_word(name, "InstructionForm"@) {
            Ok(
                ParserView {
                    instruction: InstructionView {
                        forms: state.instruction.forms.push(state.form),
                        ..state.instruction
                    },
                    ..state
                },
            )
        } else {
            Ok(state)
        },
        XmlEventView::Eof => Ok(ParserView { finished: true, ..state }),
        XmlEventView::Other => Ok(state),
    }
}

/// What one read of the document does to the state of a parse. After the end
/// of the document nothing changes the state; broken markup is a fault.
pub open spec fn step(state: ParserView, item: Option<XmlEventView>) -> Result<
    ParserView,
    ParseErrorView,
> {
    if state.finished {
        Ok(state)
    } else {
        match item {
            Some(event) => handle(state, event),
            None => Err(ParseErrorView::MalformedMarkup),
        }
    }
}

/// The state after a sequence of reads, or the first fault.
pub open spec fn run(state: ParserView, items: Seq<Option<XmlEventView>>) -> Result<
    ParserView,
    ParseErrorView,
>
    decreases items.len(),
{
    if items.len() == 0 {
        Ok(state)
    } else {
        match step(state, items[0]) {
            Ok(next) => run(next, items.drop_first()),
            Err(e) => Err(e),
        }
    }
}

/// The index that a sequence of reads gives, or the first fault.
pub open spec fn parse_events(items: Seq<Option<XmlEventView>>) -> Result<
    Map<Seq<char>, InstructionView>,
    ParseErrorView,
> {
    match run(ParserView::initial(), items) {
        Ok(state) => Ok(state.index),
        Err(e) => Err(e),
    }
}

/// After the end of the document, no read changes the state.
pub proof fn lemma_run_finished(state: ParserView, items: Seq<Option<XmlEventView>>)
    requires
        state.finished,
    ensures
        run(state, items) == Ok::<ParserView, ParseErrorView>(state),
    decreases items.len(),
{
    if items.len() > 0 {
        lemma_run_finished(state, items.drop_first());
    }
}

/// Running over two sequences in a row is running over the first and, if
/// that goes without fault, running over the second from where it ended.
pub proof fn lemma_run_concat(
    state: ParserView,
    first: Seq<Option<XmlEventView>>,
    second: Seq<Option<XmlEventView>>,
)
    ensures
        run(state, first + second) == match run(state, first) {
            Ok(middle) => run(middle, second),
            Err(e) => Err(e),
        },
    decreases first.len(),
{
    if first.len() == 0 {
        assert(first + second =~= second);
    } else {
        assert((first + second).drop_first() =~= first.drop_first() + second);
        match step(state, first[0]) {
            Ok(next) => lemma_run_concat(next, first.drop_first(), second),
            Err(_) => {},
        }
    }
}

/// Dropping the first `i` attributes and then one more drops `i + 1`.
proof fn lemma_skip_next(attributes: Seq<Option<XmlAttributeView>>, i: int)
    requires
        0 <= i < attributes.len(),
    ensures
        attributes.skip(i).len() > 0,
        attributes.skip(i)[0] == attributes[i],
        attributes.skip(i).drop_first() == attributes.skip(i + 1),
{
    assert(attributes.skip(i).drop_first() =~= attributes.skip(i + 1));
}

/// Reads the value of an attribute as text.
fn read_text(value: &Vec<u8>) -> (r: Result<&str, ParseError>)
    ensures
        match value_text(value@) {
            Ok(text) => r matches Ok(s) && s@ == text,
            Err(e) => r matches Err(err) && err@ == e,
        },
{
    match decode(value.as_slice()) {
        Some(text) => Ok(text),
        None => Err(ParseError::InvalidText),
    }
}

/// Reads the value of an `input` or `output` attribute.
fn read_flag(value: &Vec<u8>) -> (r: Result<bool, ParseError>)
    ensures
        match flag_of(value@) {
            Ok(flag) => r == Ok::<bool, ParseError>(flag),
            Err(e) => r matches Err(err) && err@ == e,
        },
{
    match decode(value.as_slice()) {
        None => Err(ParseError::InvalidText),
        Some(text) => {
            if str_eq(text, "true") {
                Ok(true)
            } else if str_eq(text, "false") {
                Ok(false)
            } else {
                Err(ParseError::InvalidFlag(String::from_str(text)))
            }
        },
    }
}

/// Reads the value of a `type` attribute.
fn read_type(value: &Vec<u8>) -> (r: Result<OperandType, ParseError>)
    ensures
        match type_of(value@) {
            Ok(op_type) => r == Ok::<OperandType, ParseError>(op_type),
            Err(e) => r matches Err(err) && err@ == e,
        },
{
    match decode(value.as_slice()) {
        None => Err(ParseError::InvalidText),
        Some(text) => OperandType::parse(text),
    }
}

/// Reads the attributes of a start-of-instruction element.
fn read_instruction(attributes: &Vec<Option<XmlAttribute>>) -> (r: Result<Instruction, ParseError>)
    ensures
        match instruction_start(attribute_views(attributes@)) {
            Ok(instruction) => r matches Ok(i) && i@ == instruction,
            Err(e) => r matches Err(err) && err@ == e,
        },
{
    let ghost all = attribute_views(attributes@);
    let ghost start = InstructionHead { name: None, summary: Seq::empty() };
    let mut name: Option<String> = None;
    let mut summary: String = String::new();
    let mut i: usize = 0;
    assert(all.skip(0) =~= all);
    while i < attributes.len()
        invariant
            i <= attributes@.len(),
            all == attribute_views(attributes@),
            start == (InstructionHead { name: None, summary: Seq::empty() }),
            instruction_attributes(start, all) == instruction_attributes(
                InstructionHead {
                    name: crate::instruction::optional_text(name),
                    summary: summary@,
                },
                all.skip(i as int),
            ),
        decreases attributes.len() - i,
    {
        proof {
            lemma_skip_next(all, i as int);
        }
        match &attributes[i] {
            None => {
                return Err(ParseError::MalformedAttribute);
            },
            Some(a) => {
                if bytes_are(a.key.as_slice(), "name") {
                    name = Some(to_lowercase(read_text(&a.value)?));
                } else if bytes_are(a.key.as_slice(), "summary") {
                    summary = String::from_str(read_text(&a.value)?);
                }
            },
        }
        i += 1;
    }
    match name {
        None => Err(ParseError::MissingName),
        Some(name) => {
            let instruction = Instruction { name, summary, arch: None, forms: Vec::new() };
            assert(crate::instruction::form_views(instruction.forms@) =~= Seq::empty());
            Ok(instruction)
        },
    }
}

/// Reads the attributes of a start-of-form element.
fn read_form(attributes: &Vec<Option<XmlAttribute>>) -> (r: Result<InstructionForm, ParseError>)
    ensures
        match form_start(attribute_views(attributes@)) {
            Ok(form) => r matches Ok(f) && f@ == form,
            Err(e) => r matches Err(err) && err@ == e,
        },
{
    let ghost all = attribute_views(attributes@);
    let mut form = InstructionForm::default();
    let mut i: usize = 0;
    assert(all.skip(0) =~= all);
    while i < attributes.len()
        invariant
            i <= attributes@.len(),
            all == attribute_views(attributes@),
            form_start(all) == form_attributes(form@, all.skip(i as int)),
        decreases attributes.len() - i,
    {
        proof {
            lemma_skip_next(all, i as int);
        }
        match &attributes[i] {
            None => {
                return Err(ParseError::MalformedAttribute);
            },
            Some(a) => {
                if bytes_are(a.key.as_slice(), "gas-name") {
                    form.gas_name = Some(to_lowercase(read_text(&a.value)?));
                } else if bytes_are(a.key.as_slice(), "go-name") {
                    form.go_name = Some(to_lowercase(read_text(&a.value)?));
                }
            },
        }
        i += 1;
    }
    Ok(form)
}

/// Reads the attributes of an operand element.
fn read_operand(attributes: &Vec<Option<XmlAttribute>>) -> (r: Result<Operand, ParseError>)
    ensures
        match operand_of(attribute_views(attributes@)) {
            Ok(operand) => r == Ok::<Operand, ParseError>(operand),
            Err(e) => r matches Err(err) && err@ == e,
        },
{
    let ghost all = attribute_views(attributes@);
    let ghost start = OperandDraft { op_type: None, input: None, output: None };
    let mut op_type: Option<OperandType> = None;
    let mut input: Option<bool> = None;
    let mut output: Option<bool> = None;
    let mut i: usize = 0;
    assert(all.skip(0) =~= all);
    while i < attributes.len()
        invariant
            i <= attributes@.len(),
            all == attribute_views(attributes@),
            start == (OperandDraft { op_type: None, input: None, output: None }),
            operand_attributes(start, all) == operand_attributes(
                OperandDraft { op_type, input, output },
                all.skip(i as int),
            ),
        decreases attributes.len() - i,
    {
        proof {
            lemma_skip_next(all, i as int);
        }
        match &attributes[i] {
            None => {
                return Err(ParseError::MalformedAttribute);
            },
            Some(a) => {
                if bytes_are(a.key.as_slice(), "type") {
                    op_type = Some(read_type(&a.value)?);
                } else if bytes_are(a.key.as_slice(), "input") {
                    input = Some(read_flag(&a.value)?);
                } else if bytes_are(a.key.as_slice(), "output") {
                    output = Some(read_flag(&a.value)?);
                }
            },
        }
        i += 1;
    }
    match op_type {
        None => Err(ParseError::MissingType),
        Some(op_type) => Ok(Operand { op_type, input, output }),
    }
}

/// A parser that is fed the events of a document one by one, and gives the
/// index when the document has ended.
pub struct XmlInstructionParser {
    index: InstructionIndex,
    instruction: Instruction,
    form: InstructionForm,
    finished: bool,
}

impl View for XmlInstructionParser {
    type V = ParserView;

    closed spec fn view(&self) -> ParserView {
        ParserView {
            index: self.index@,
            instruction: self.instruction@,
            form: self.form@,
            finished: self.finished,
        }
    }
}

impl XmlInstructionParser {
    /// A parser before the first event: the index is empty, and so are both
    /// slots.
    pub fn new() -> (parser: XmlInstructionParser)
        ensures
            parser@ == ParserView::initial(),
    {
        XmlInstructionParser {
            index: InstructionIndex::new(),
            instruction: Instruction::default(),
            form: InstructionForm::default(),
            finished: false,
        }
    }

    /// Takes one event. A start tag fills a slot afresh, an operand joins the
    /// form, an end tag hands the form to the instruction or the instruction
    /// to the index; elements of other names are passed over. On a fault the
    /// parser is left as it was.
    pub fn feed(&mut self, event: &XmlEvent) -> (r: Result<(), ParseError>)
        ensures
            match step(old(self)@, Some(event@)) {
                Ok(next) => r is Ok && final(self)@ == next,
                Err(e) => (r matches Err(err) && err@ == e) && final(self)@ == old(self)@,
            },
    {
        if self.finished {
            return Ok(());
        }
        match event {
            XmlEvent::Start(element) => {
                if bytes_are(element.name.as_slice(), "Instruction") {
                    self.instruction = read_instruction(&element.attributes)?;
                } else if bytes_are(element.name.as_slice(), "InstructionForm") {
                    self.form = read_form(&element.attributes)?;
                }
            },
            XmlEvent::Empty(element) => {
                if bytes_are(element.name.as_slice(), "Operand") {
                    let operand = read_operand(&element.attributes)?;
                    self.form.operands.push(operand);
                }
            },
            XmlEvent::End(name) => {
                if bytes_are(name.as_slice(), "Instruction") {
                    self.index.insert(self.instruction.clone());
                } else if bytes_are(name.as_slice(), "InstructionForm") {
                    let ghost before = self.instruction@.forms;
                    self.instruction.forms.push(self.form.clone());
                    assert(self.instruction@.forms =~= before.push(self.form@));
                }
            },
            XmlEvent::Eof => {
                self.finished = true;
            },
            XmlEvent::Other => {},
        }
        Ok(())
    }

    /// Whether the end of the document was seen.
    pub fn is_finished(&self) -> (finished: bool)
        ensures
            finished == self@.finished,
    {
        self.finished
    }

    /// The index as it stands.
    pub fn finish(self) -> (index: InstructionIndex)
        ensures
            index@ == self@.index,
    {
        self.index
    }
}

/// Reads a whole document and gives its index: each instruction under its
/// lowercase name, the last one where a name occurs twice. The document's
/// events are those that `quick_xml` reads from it; any fault among them
/// gives an error and no index.
pub fn populate_instructions(xml_contents: &str) -> (r: Result<InstructionIndex, ParseError>)
    ensures
        match parse_events(events_of(xml_contents@)) {
            Ok(index) => r matches Ok(found) && found@ == index,
            Err(e) => r matches Err(err) && err@ == e,
        },
{
    let mut reader = open_reader(xml_contents);
    let mut parser = XmlInstructionParser::new();
    loop
        invariant
            !parser@.finished,
            run(ParserView::initial(), events_of(xml_contents@)) == run(parser@, pending(reader)),
        decreases pending(reader).len(),
    {
        let ghost before = pending(reader);
        match next_event(&mut reader) {
            Err(_) => {
                return Err(ParseError::MalformedMarkup);
            },
            Ok(event) => {
                if let XmlEvent::Eof = event {
                    proof {
                        if before.len() > 0 {
                            lemma_run_finished(
                                ParserView { finished: true, ..parser@ },
                                before.drop_first(),
                            );
                        }
                    }
                    return Ok(parser.finish());
                }
                parser.feed(&event)?;
            },
        }
    }
}

} // verus!
