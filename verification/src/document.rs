//! Well-formed documents, and what the parser makes of them.
//!
//! A document is described here by its elements: instructions, each with its
//! forms, each with its operands. The theorems say which index the events of
//! such elements give, whatever stood in the parser's slots before.

use vstd::prelude::*;
use vstd::utf8::*;
use crate::error::ParseErrorView;
use crate::instruction::{
    operand_type_of,
    InstructionFormView,
    InstructionView,
    Operand,
    OperandType,
};
use crate::markup::{XmlAttributeView, XmlElementView, XmlEventView};
use crate::populate::{
    form_attribute,
    form_attributes,
    form_start,
    instruction_attribute,
    instruction_attributes,
    instruction_start,
    is_word,
    lemma_run_concat,
    operand_attribute,
    operand_attributes,
    operand_of,
    parse_events,
    run,
    step,
    type_of,
    InstructionHead,
    OperandDraft,
    ParserView,
};
use crate::text::{lemma_encoding_is_injective, lowercase, text_of};

verus! {

/// The attributes of an element, as the reader hands them out.
pub type Attributes = Seq<Option<XmlAttributeView>>;

/// A form element: its attributes and those of its operand elements.
pub struct FormElement {
    pub attributes: Attributes,
    pub operands: Seq<Attributes>,
}

/// An instruction element: its attributes and its form elements.
pub struct InstructionElement {
    pub attributes: Attributes,
    pub forms: Seq<FormElement>,
}

/// An element with the given word as its name.
pub open spec fn element(word: Seq<char>, attributes: Attributes) -> XmlElementView {
    XmlElementView { name: encode_utf8(word), attributes }
}

/// The event of one operand element.
pub open spec fn operand_event(attributes: Attributes) -> Option<XmlEventView> {
    Some(XmlEventView::Empty(element("Operand"@, attributes)))
}

/// The events of the operand elements of a form.
pub open spec fn operand_events(operands: Seq<Attributes>) -> Seq<Option<XmlEventView>> {
    Seq::new(operands.len(), |i: int| operand_event(operands[i]))
}

/// The events of a form element: its start tag, its operands, its end tag.
pub open spec fn form_events(form: FormElement) -> Seq<Option<XmlEventView>> {
    seq![Some(XmlEventView::Start(element("InstructionForm"@, form.attributes)))] + operand_events(
        form.operands,
    ) + seq![Some(XmlEventView::End(encode_utf8("InstructionForm"@)))]
}

/// The events of the form elements of an instruction, one form after the
/// other.
pub open spec fn forms_events(forms: Seq<FormElement>) -> Seq<Option<XmlEventView>>
    decreases forms.len(),
{
    if forms.len() == 0 {
        Seq::empty()
    } else {
        form_events(forms[0]) + forms_events(forms.drop_first())
    }
}

/// The events of an instruction element: its start tag, its forms, its end
/// tag.
pub open spec fn instruction_events(instruction: InstructionElement) -> Seq<Option<XmlEventView>> {
    seq![Some(XmlEventView::Start(element("Instruction"@, instruction.attributes)))] + forms_events(
        instruction.forms,
    ) + seq![Some(XmlEventView::End(encode_utf8("Instruction"@)))]
}

/// A form element that the parser accepts: its own attributes and those of
/// each operand are without fault.
pub open spec fn valid_form(form: FormElement) -> bool {
    &&& form_start(form.attributes) is Ok
    &&& forall|i: int| 0 <= i < form.operands.len() ==> operand_of(#[trigger] form.operands[i]) is Ok
}

/// An instruction element that the parser accepts.
pub open spec fn valid_instruction(instruction: InstructionElement) -> bool {
    &&& instruction_start(instruction.attributes) is Ok
    &&& forall|i: int| 0 <= i < instruction.forms.len() ==> valid_form(#[trigger] instruction.forms[i])
}

/// The operands that operand elements state, in their order.
pub open spec fn operands_of(operands: Seq<Attributes>) -> Seq<Operand> {
    Seq::new(operands.len(), |i: int| operand_of(operands[i])->Ok_0)
}

/// The form that a form element states.
pub open spec fn form_of(form: FormElement) -> InstructionFormView {
    InstructionFormView {
        operands: operands_of(form.operands),
        ..form_start(form.attributes)->Ok_0
    }
}

/// The forms that form elements state, in their order.
pub open spec fn forms_of(forms: Seq<FormElement>) -> Seq<InstructionFormView> {
    Seq::new(forms.len(), |i: int| form_of(forms[i]))
}

/// The instruction that an instruction element states.
pub open spec fn instruction_of(instruction: InstructionElement) -> InstructionView {
    InstructionView {
        forms: forms_of(instruction.forms),
        ..instruction_start(instruction.attributes)->Ok_0
    }
}

/// The three element names that the parser reads are three different names.
pub proof fn lemma_element_names_differ()
    ensures
        !is_word(encode_utf8("InstructionForm"@), "Instruction"@),
        !is_word(encode_utf8("Instruction"@), "InstructionForm"@),
        !is_word(encode_utf8("Operand"@), "Instruction"@),
        !is_word(encode_utf8("Operand"@), "InstructionForm"@),
{
    reveal_strlit("Instruction");
    reveal_strlit("InstructionForm");
    reveal_strlit("Operand");
    assert("Instruction"@.len() == 11 && "InstructionForm"@.len() == 15 && "Operand"@.len() == 7);
    if encode_utf8("InstructionForm"@) == encode_utf8("Instruction"@) {
        lemma_encoding_is_injective("InstructionForm"@, "Instruction"@);
    }
    if encode_utf8("Operand"@) == encode_utf8("Instruction"@) {
        lemma_encoding_is_injective("Operand"@, "Instruction"@);
    }
    if encode_utf8("Operand"@) == encode_utf8("InstructionForm"@) {
        lemma_encoding_is_injective("Operand"@, "InstructionForm"@);
    }
}

/// The attributes of a start-of-form element give names only: operands and
/// encoding stay as they were.
pub proof fn lemma_form_attributes_keep_operands(form: InstructionFormView, attributes: Attributes)
    requires
        form_attributes(form, attributes) is Ok,
    ensures
        form_attributes(form, attributes)->Ok_0.operands == form.operands,
        form_attributes(form, attributes)->Ok_0.encoding == form.encoding,
    decreases attributes.len(),
{
    if attributes.len() > 0 {
        lemma_form_attributes_keep_operands(
            form_attribute(form, attributes[0])->Ok_0,
            attributes.drop_first(),
        );
    }
}

/// Operand elements without fault join the form under construction, in
/// their order, and change nothing else.
pub proof fn lemma_run_operands(state: ParserView, operands: Seq<Attributes>)
    requires
        !state.finished,
        forall|i: int| 0 <= i < operands.len() ==> operand_of(#[trigger] operands[i]) is Ok,
    ensures
        run(state, operand_events(operands)) == Ok::<ParserView, ParseErrorView>(
            ParserView {
                form: InstructionFormView {
                    operands: state.form.operands + operands_of(operands),
                    ..state.form
                },
                ..state
            },
        ),
    decreases operands.len(),
{
    let events = operand_events(operands);
    if operands.len() == 0 {
        assert(state.form.operands + operands_of(operands) =~= state.form.operands);
    } else {
        let rest = operands.drop_first();
        let operand = operand_of(operands[0])->Ok_0;
        let next = ParserView {
            form: InstructionFormView {
                operands: state.form.operands.push(operand),
                ..state.form
            },
            ..state
        };
        assert(events[0] == operand_event(operands[0]));
        assert(step(state, events[0]) == Ok::<ParserView, ParseErrorView>(next));
        assert(events.drop_first() =~= operand_events(rest));
        assert forall|i: int| 0 <= i < rest.len() implies operand_of(#[trigger] rest[i]) is Ok by {
            assert(rest[i] == operands[i + 1]);
        }
        lemma_run_operands(next, rest);
        assert(operands_of(rest) =~= operands_of(operands).drop_first());
        assert(next.form.operands + operands_of(rest) =~= state.form.operands + operands_of(
            operands,
        ));
    }
}

/// A form element without fault leaves its form in the form slot, and
/// appends it to the forms of the instruction under construction.
pub proof fn lemma_run_form(state: ParserView, form: FormElement)
    requires
        !state.finished,
        valid_form(form),
    ensures
        run(state, form_events(form)) == Ok::<ParserView, ParseErrorView>(
            ParserView {
                form: form_of(form),
                instruction: InstructionView {
                    forms: state.instruction.forms.push(form_of(form)),
                    ..state.instruction
                },
                ..state
            },
        ),
{
    lemma_element_names_differ();
    let start = seq![Some(XmlEventView::Start(element("InstructionForm"@, form.attributes)))];
    let middle = operand_events(form.operands);
    let end = seq![Some(XmlEventView::End(encode_utf8("InstructionForm"@)))];
    let started = ParserView { form: form_start(form.attributes)->Ok_0, ..state };
    let filled = ParserView { form: form_of(form), ..state };
    assert(run(state, start) == Ok::<ParserView, ParseErrorView>(started)) by {
        assert(start.drop_first() =~= Seq::empty());
        assert(step(state, start[0]) == Ok::<ParserView, ParseErrorView>(started));
        assert(run(started, start.drop_first()) == Ok::<ParserView, ParseErrorView>(started));
    }
    assert(run(started, middle) == Ok::<ParserView, ParseErrorView>(filled)) by {
        lemma_run_operands(started, form.operands);
        lemma_form_attributes_keep_operands(InstructionFormView::empty(), form.attributes);
        assert(started.form.operands + operands_of(form.operands) =~= operands_of(form.operands));
    }
    let closed = ParserView {
        instruction: InstructionView {
            forms: state.instruction.forms.push(form_of(form)),
            ..state.instruction
        },
        ..filled
    };
    assert(run(filled, end) == Ok::<ParserView, ParseErrorView>(closed)) by {
        assert(end.drop_first() =~= Seq::empty());
        assert(step(filled, end[0]) == Ok::<ParserView, ParseErrorView>(closed));
        assert(run(closed, end.drop_first()) == Ok::<ParserView, ParseErrorView>(closed));
    }
    lemma_run_concat(state, start, middle);
    lemma_run_concat(state, start + middle, end);
}

/// The form slot after a run of form elements: the last form, or what stood
/// there where there is no form.
pub open spec fn last_form(before: InstructionFormView, forms: Seq<FormElement>)
    -> InstructionFormView {
    if forms.len() == 0 {
        before
    } else {
        form_of(forms.last())
    }
}

/// Form elements without fault append their forms, in their order, to the
/// instruction under construction.
pub proof fn lemma_run_forms(state: ParserView, forms: Seq<FormElement>)
    requires
        !state.finished,
        forall|i: int| 0 <= i < forms.len() ==> valid_form(#[trigger] forms[i]),
    ensures
        run(state, forms_events(forms)) == Ok::<ParserView, ParseErrorView>(
            ParserView {
                form: last_form(state.form, forms),
                instruction: InstructionView {
                    forms: state.instruction.forms + forms_of(forms),
                    ..state.instruction
                },
                ..state
            },
        ),
    decreases forms.len(),
{
    if forms.len() == 0 {
        assert(state.instruction.forms + forms_of(forms) =~= state.instruction.forms);
    } else {
        let rest = forms.drop_first();
        let next = ParserView {
            form: form_of(forms[0]),
            instruction: InstructionView {
                forms: state.instruction.forms.push(form_of(forms[0])),
                ..state.instruction
            },
            ..state
        };
        lemma_run_form(state, forms[0]);
        assert forall|i: int| 0 <= i < rest.len() implies valid_form(#[trigger] rest[i]) by {
            assert(rest[i] == forms[i + 1]);
        }
        lemma_run_forms(next, rest);
        lemma_run_concat(state, form_events(forms[0]), forms_events(rest));
        assert(forms_of(rest) =~= forms_of(forms).drop_first());
        assert(next.instruction.forms + forms_of(rest) =~= state.instruction.forms + forms_of(
            forms,
        ));
        if rest.len() > 0 {
            assert(rest.last() == forms.last());
        }
    }
}

/// An instruction element without fault puts its instruction into the index
/// under its name, whatever stood in the slots and in the index before; an
/// instruction that was there under that name is replaced.
pub proof fn lemma_run_instruction(state: ParserView, instruction: InstructionElement)
    requires
        !state.finished,
        valid_instruction(instruction),
    ensures
        run(state, instruction_events(instruction)) == Ok::<ParserView, ParseErrorView>(
            ParserView {
                index: state.index.insert(
                    instruction_of(instruction).name,
                    instruction_of(instruction),
                ),
                instruction: instruction_of(instruction),
                form: last_form(state.form, instruction.forms),
                finished: false,
            },
        ),
{
    lemma_element_names_differ();
    let start = seq![Some(XmlEventView::Start(element("Instruction"@, instruction.attributes)))];
    let middle = forms_events(instruction.forms);
    let end = seq![Some(XmlEventView::End(encode_utf8("Instruction"@)))];
    let started = ParserView {
        instruction: instruction_start(instruction.attributes)->Ok_0,
        ..state
    };
    let filled = ParserView {
        instruction: instruction_of(instruction),
        form: last_form(state.form, instruction.forms),
        ..state
    };
    assert(run(state, start) == Ok::<ParserView, ParseErrorView>(started)) by {
        assert(start.drop_first() =~= Seq::empty());
        assert(step(state, start[0]) == Ok::<ParserView, ParseErrorView>(started));
        assert(run(started, start.drop_first()) == Ok::<ParserView, ParseErrorView>(started));
    }
    assert(run(started, middle) == Ok::<ParserView, ParseErrorView>(filled)) by {
        lemma_run_forms(started, instruction.forms);
        lemma_start_has_no_forms(instruction.attributes);
        assert(started.instruction.forms + forms_of(instruction.forms) =~= forms_of(
            instruction.forms,
        ));
    }
    let closed = ParserView {
        index: state.index.insert(instruction_of(instruction).name, instruction_of(instruction)),
        ..filled
    };
    assert(run(filled, end) == Ok::<ParserView, ParseErrorView>(closed)) by {
        assert(end.drop_first() =~= Seq::empty());
        assert(step(filled, end[0]) == Ok::<ParserView, ParseErrorView>(closed));
        assert(run(closed, end.drop_first()) == Ok::<ParserView, ParseErrorView>(closed));
    }
    lemma_run_concat(state, start, middle);
    lemma_run_concat(state, start + middle, end);
}

/// The instruction that a start tag begins has no forms and no architecture.
pub proof fn lemma_start_has_no_forms(attributes: Attributes)
    requires
        instruction_start(attributes) is Ok,
    ensures
        instruction_start(attributes)->Ok_0.forms == Seq::<InstructionFormView>::empty(),
        instruction_start(attributes)->Ok_0.arch is None,
{
}

/// The events of a document: those of its instruction elements, one element
/// after the other.
pub open spec fn document_events(instructions: Seq<InstructionElement>) -> Seq<
    Option<XmlEventView>,
>
    decreases instructions.len(),
{
    if instructions.len() == 0 {
        Seq::empty()
    } else {
        document_events(instructions.drop_last()) + instruction_events(instructions.last())
    }
}

/// The instructions that instruction elements state, in their order.
pub open spec fn instructions_of(instructions: Seq<InstructionElement>) -> Seq<InstructionView> {
    Seq::new(instructions.len(), |i: int| instruction_of(instructions[i]))
}

/// Whether the parser passes over what it has read: text and the like, and
/// elements of other names than the three that it reads.
pub open spec fn passed_over(item: Option<XmlEventView>) -> bool {
    match item {
        Some(XmlEventView::Other) => true,
        Some(XmlEventView::Start(element)) => !is_word(element.name, "Instruction"@) && !is_word(
            element.name,
            "InstructionForm"@,
        ),
        Some(XmlEventView::Empty(element)) => !is_word(element.name, "Operand"@),
        Some(XmlEventView::End(name)) => !is_word(name, "Instruction"@) && !is_word(
            name,
            "InstructionForm"@,
        ),
        Some(XmlEventView::Eof) => false,
        None => false,
    }
}

/// A sequence of reads without those that the parser passes over.
pub open spec fn without_passed_over(items: Seq<Option<XmlEventView>>) -> Seq<
    Option<XmlEventView>,
>
    decreases items.len(),
{
    if items.len() == 0 {
        Seq::empty()
    } else if passed_over(items[0]) {
        without_passed_over(items.drop_first())
    } else {
        seq![items[0]] + without_passed_over(items.drop_first())
    }
}

/// What the parser passes over changes nothing: the run is that of the
/// other events alone.
pub proof fn lemma_passed_over_changes_nothing(state: ParserView, items: Seq<Option<XmlEventView>>)
    ensures
        run(state, items) == run(state, without_passed_over(items)),
    decreases items.len(),
{
    if items.len() > 0 {
        let rest = items.drop_first();
        if passed_over(items[0]) {
            assert(step(state, items[0]) == Ok::<ParserView, ParseErrorView>(state));
            lemma_passed_over_changes_nothing(state, rest);
        } else {
            let kept = seq![items[0]] + without_passed_over(rest);
            assert(kept[0] == items[0]);
            assert(kept.drop_first() =~= without_passed_over(rest));
            match step(state, items[0]) {
                Ok(next) => lemma_passed_over_changes_nothing(next, rest),
                Err(_) => {},
            }
        }
    }
}

/// The state after the instruction elements of a document, read from the
/// start: the index holds each instruction under its name, the last one
/// where a name occurs twice.
pub proof fn lemma_run_document(instructions: Seq<InstructionElement>)
    requires
        forall|i: int|
            0 <= i < instructions.len() ==> valid_instruction(#[trigger] instructions[i]),
    ensures
        run(ParserView::initial(), document_events(instructions)) matches Ok(state)
            && !state.finished && state.index == crate::index::index_of(
            instructions_of(instructions),
        ),
    decreases instructions.len(),
{
    if instructions.len() > 0 {
        let front = instructions.drop_last();
        assert forall|i: int| 0 <= i < front.len() implies valid_instruction(
            #[trigger] front[i],
        ) by {
            assert(front[i] == instructions[i]);
        }
        lemma_run_document(front);
        let middle = run(ParserView::initial(), document_events(front))->Ok_0;
        lemma_run_instruction(middle, instructions.last());
        lemma_run_concat(
            ParserView::initial(),
            document_events(front),
            instruction_events(instructions.last()),
        );
        assert(instructions_of(instructions).drop_last() =~= instructions_of(front));
        assert(instructions_of(instructions).last() == instruction_of(instructions.last()));
    }
}

/// A document whose instruction elements are all without fault gives an
/// index: each instruction stands under its name, and where several
/// elements share a name the last of them stands there. What the parser
/// passes over, between the elements or inside them, makes no difference.
pub proof fn theorem_document(
    items: Seq<Option<XmlEventView>>,
    instructions: Seq<InstructionElement>,
)
    requires
        without_passed_over(items) == document_events(instructions),
        forall|i: int|
            0 <= i < instructions.len() ==> valid_instruction(#[trigger] instructions[i]),
    ensures
        parse_events(items) == Ok::<Map<Seq<char>, InstructionView>, ParseErrorView>(
            crate::index::index_of(instructions_of(instructions)),
        ),
{
    lemma_passed_over_changes_nothing(ParserView::initial(), items);
    lemma_run_document(instructions);
}

/// A document with one instruction element gives an index with exactly one
/// entry. Its key is the name that the element states, which is the
/// lowercase form of its `name`; the entry has as many forms as the element
/// has form elements, and each form as many operands as its element has
/// operand elements.
pub proof fn theorem_one_instruction(
    items: Seq<Option<XmlEventView>>,
    instruction: InstructionElement,
)
    requires
        without_passed_over(items) == instruction_events(instruction),
        valid_instruction(instruction),
    ensures
        parse_events(items) matches Ok(index) && ({
            let name = instruction_of(instruction).name;
            &&& index.dom() == set![name]
            &&& index.len() == 1
            &&& index[name] == instruction_of(instruction)
            &&& index[name].forms.len() == instruction.forms.len()
            &&& forall|i: int|
                0 <= i < instruction.forms.len() ==> (#[trigger] index[name].forms[i]).operands.len()
                    == instruction.forms[i].operands.len()
        }),
{
    let instructions = seq![instruction];
    assert(instructions.drop_last() =~= Seq::empty());
    assert(instructions.last() == instruction);
    assert(document_events(instructions) =~= instruction_events(instruction)) by {
        assert(document_events(instructions.drop_last()) =~= Seq::empty());
    }
    theorem_document(items, instructions);
    let entries = instructions_of(instructions);
    assert(entries.drop_last() =~= Seq::empty());
    assert(entries.last() == instruction_of(instruction));
    let index = crate::index::index_of(entries);
    assert(crate::index::index_of(entries.drop_last()) =~= Map::empty());
    assert(index =~= Map::empty().insert(
        instruction_of(instruction).name,
        instruction_of(instruction),
    ));
    assert(index.dom() =~= set![instruction_of(instruction).name]);
}

/// Last write wins: a document with two instruction elements that state the
/// same name gives an index with exactly one entry, which is the second
/// element's instruction; nothing of the first is kept.
pub proof fn theorem_last_write_wins(
    items: Seq<Option<XmlEventView>>,
    first: InstructionElement,
    second: InstructionElement,
)
    requires
        without_passed_over(items) == instruction_events(first) + instruction_events(second),
        valid_instruction(first),
        valid_instruction(second),
        instruction_of(first).name == instruction_of(second).name,
    ensures
        parse_events(items) matches Ok(index) && ({
            let name = instruction_of(second).name;
            &&& index.dom() == set![name]
            &&& index.len() == 1
            &&& index[name] == instruction_of(second)
        }),
{
    let instructions = seq![first, second];
    let front = instructions.drop_last();
    assert(front =~= seq![first]);
    assert(front.drop_last() =~= Seq::empty());
    assert(document_events(instructions) =~= instruction_events(first) + instruction_events(
        second,
    )) by {
        assert(document_events(front.drop_last()) =~= Seq::empty());
        assert(document_events(front) =~= instruction_events(first));
    }
    theorem_document(items, instructions);
    let entries = instructions_of(instructions);
    let head = entries.drop_last();
    assert(head.drop_last() =~= Seq::empty());
    let index = crate::index::index_of(entries);
    assert(head.last() == instruction_of(first));
    assert(entries.last() == instruction_of(second));
    assert(crate::index::index_of(head.drop_last()) =~= Map::empty());
    assert(crate::index::index_of(head) =~= Map::empty().insert(
        instruction_of(first).name,
        instruction_of(first),
    ));
    assert(index =~= Map::empty().insert(
        instruction_of(second).name,
        instruction_of(second),
    ));
    assert(index.dom() =~= set![instruction_of(second).name]);
}

/// An attribute with the given word as its key and the given text as its
/// value.
pub open spec fn attribute(key: Seq<char>, value: Seq<char>) -> Option<XmlAttributeView> {
    Some(XmlAttributeView { key: encode_utf8(key), value: encode_utf8(value) })
}

/// The encoding of a text is read back as that text.
pub proof fn lemma_text_of_encoding(text: Seq<char>)
    ensures
        text_of(encode_utf8(text)) == Some(text),
{
    encode_utf8_valid_utf8(text);
    encode_utf8_decode_utf8(text);
}

/// A start-of-instruction element with a `name` and a `summary` begins the
/// instruction whose name is the lowercase form of that name, and whose
/// summary is that summary, as it stands.
pub proof fn lemma_named_instruction(name: Seq<char>, summary: Seq<char>)
    ensures
        instruction_start(seq![attribute("name"@, name), attribute("summary"@, summary)]) == Ok::<
            InstructionView,
            ParseErrorView,
        >(InstructionView { name: lowercase(name), summary, ..InstructionView::empty() }),
{
    let attributes = seq![attribute("name"@, name), attribute("summary"@, summary)];
    let start = InstructionHead { name: None, summary: Seq::empty() };
    let named = InstructionHead { name: Some(lowercase(name)), summary: Seq::empty() };
    let done = InstructionHead { name: Some(lowercase(name)), summary };
    lemma_text_of_encoding(name);
    lemma_text_of_encoding(summary);
    reveal_strlit("name");
    reveal_strlit("summary");
    assert("name"@.len() == 4 && "summary"@.len() == 7);
    if encode_utf8("summary"@) == encode_utf8("name"@) {
        lemma_encoding_is_injective("summary"@, "name"@);
    }
    let rest = attributes.drop_first();
    assert(rest =~= seq![attribute("summary"@, summary)]);
    assert(rest.drop_first() =~= Seq::empty());
    assert(instruction_attribute(start, attributes[0]) == Ok::<InstructionHead, ParseErrorView>(
        named,
    ));
    assert(instruction_attribute(named, rest[0]) == Ok::<InstructionHead, ParseErrorView>(done));
    assert(instruction_attributes(done, rest.drop_first()) == Ok::<
        InstructionHead,
        ParseErrorView,
    >(done));
    assert(instruction_attributes(named, rest) == Ok::<InstructionHead, ParseErrorView>(done));
    assert(instruction_attributes(start, attributes) == Ok::<InstructionHead, ParseErrorView>(
        done,
    ));
}

/// An operand element is refused where one of its attributes is a `type`
/// whose value is refused.
pub proof fn lemma_operand_with_bad_type(draft: OperandDraft, attributes: Attributes, k: int)
    requires
        0 <= k < attributes.len(),
        attributes[k] matches Some(a) && is_word(a.key, "type"@) && type_of(a.value) is Err,
    ensures
        operand_attributes(draft, attributes) is Err,
    decreases attributes.len(),
{
    if k > 0 {
        match operand_attribute(draft, attributes[0]) {
            Ok(next) => {
                assert(attributes.drop_first()[k - 1] == attributes[k]);
                lemma_operand_with_bad_type(next, attributes.drop_first(), k - 1);
            },
            Err(_) => {},
        }
    }
}

/// Before the end of the document is read, the parse is not finished.
pub proof fn lemma_run_unfinished(state: ParserView, items: Seq<Option<XmlEventView>>)
    requires
        !state.finished,
        forall|i: int| 0 <= i < items.len() ==> #[trigger] items[i] != Some(XmlEventView::Eof),
        run(state, items) is Ok,
    ensures
        !run(state, items)->Ok_0.finished,
    decreases items.len(),
{
    if items.len() > 0 {
        let rest = items.drop_first();
        assert(items[0] != Some(XmlEventView::Eof));
        assert forall|i: int| 0 <= i < rest.len() implies #[trigger] rest[i] != Some(
            XmlEventView::Eof,
        ) by {
            assert(rest[i] == items[i + 1]);
        }
        lemma_run_unfinished(step(state, items[0])->Ok_0, rest);
    }
}

/// An operand type outside the closed set ends the parse: where a document
/// holds, before its end, an operand element with a `type` attribute whose
/// value spells no operand type, the parse fails and gives no index,
/// whatever else the document holds.
pub proof fn theorem_unknown_operand_type(
    items: Seq<Option<XmlEventView>>,
    i: int,
    attributes: Attributes,
    k: int,
    token: Seq<char>,
)
    requires
        0 <= i < items.len(),
        forall|j: int| 0 <= j < i ==> #[trigger] items[j] != Some(XmlEventView::Eof),
        items[i] == operand_event(attributes),
        0 <= k < attributes.len(),
        attributes[k] == attribute("type"@, token),
        forall|t: OperandType| t.surface() != token,
    ensures
        parse_events(items) is Err,
{
    let before = items.take(i);
    let after = items.skip(i);
    assert(items =~= before + after);
    lemma_run_concat(ParserView::initial(), before, after);
    if run(ParserView::initial(), before) is Ok {
        lemma_run_unfinished(ParserView::initial(), before);
        let state = run(ParserView::initial(), before)->Ok_0;
        lemma_text_of_encoding(token);
        assert(operand_type_of(token) is None);
        lemma_operand_with_bad_type(
            OperandDraft { op_type: None, input: None, output: None },
            attributes,
            k,
        );
        assert(after[0] == items[i]);
        assert(step(state, after[0]) is Err);
    }
}

} // verus!
