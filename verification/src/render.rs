//! The text of an instruction as a reader of documentation sees it: a header,
//! the summary, and the forms with their operands, in Markdown.

use vstd::prelude::*;
use vstd::string::*;
use crate::instruction::{
    Instruction,
    InstructionForm,
    InstructionFormView,
    InstructionView,
    Operand,
};
use crate::text::{padded, push_padded};

verus! {

/// A flag as it is written.
pub open spec fn flag_text(flag: bool) -> Seq<char> {
    if flag {
        "true"@
    } else {
        "false"@
    }
}

/// The type of an operand between square brackets.
pub open spec fn type_tag(operand: Operand) -> Seq<char> {
    "["@ + operand.op_type.surface() + "]"@
}

/// The note on the input flag of an operand, where it has one.
pub open spec fn input_note(operand: Operand) -> Seq<char> {
    match operand.input {
        Some(flag) => " input = "@ + padded(flag_text(flag), 5) + " "@,
        None => Seq::empty(),
    }
}

/// The note on the output flag of an operand, where it has one.
pub open spec fn output_note(operand: Operand) -> Seq<char> {
    match operand.output {
        Some(flag) => " output = "@ + padded(flag_text(flag), 5),
        None => Seq::empty(),
    }
}

/// The line of one operand: its type tag in a field of eight columns, then
/// the flags that are present.
pub open spec fn operand_line(operand: Operand) -> Seq<char> {
    "  + "@ + padded(type_tag(operand), 8) + input_note(operand) + output_note(operand)
}

/// The lines of the operands, in their order, with a line break between two
/// of them.
pub open spec fn operand_lines(operands: Seq<Operand>) -> Seq<char>
    decreases operands.len(),
{
    if operands.len() == 0 {
        Seq::empty()
    } else if operands.len() == 1 {
        operand_line(operands[0])
    } else {
        operand_lines(operands.drop_last()) + "\n"@ + operand_line(operands.last())
    }
}

/// The line with the names of a form: those that are present, with a bar
/// between them. Without a name there is no such line.
pub open spec fn names_line(form: InstructionFormView) -> Seq<char> {
    match (form.gas_name, form.go_name) {
        (Some(gas), Some(go)) => "- "@ + "*GAS*: "@ + gas + " | "@ + "*GO*: "@ + go + "\n\n"@,
        (Some(gas), None) => "- "@ + "*GAS*: "@ + gas + "\n\n"@,
        (None, Some(go)) => "- "@ + "*GO*: "@ + go + "\n\n"@,
        (None, None) => Seq::empty(),
    }
}

/// The text of a form: the line with its names, then its operands.
pub open spec fn form_text(form: InstructionFormView) -> Seq<char> {
    names_line(form) + operand_lines(form.operands) + "\n"@
}

/// The texts of the forms, in their order, each after a line break.
pub open spec fn forms_text(forms: Seq<InstructionFormView>) -> Seq<char>
    decreases forms.len(),
{
    if forms.len() == 0 {
        Seq::empty()
    } else {
        forms_text(forms.drop_last()) + "\n"@ + form_text(forms.last())
    }
}

/// The header of an instruction: its name, and its architecture in square
/// brackets where it has one.
pub open spec fn header(instruction: InstructionView) -> Seq<char> {
    match instruction.arch {
        Some(arch) => instruction.name + " ["@ + arch.surface() + "]"@,
        None => instruction.name,
    }
}

/// The text of an instruction: header, summary, the heading of the forms,
/// and the forms.
pub open spec fn instruction_text(instruction: InstructionView) -> Seq<char> {
    header(instruction) + "\n"@ + instruction.summary + "\n\n\n## Forms\n\n"@ + forms_text(
        instruction.forms,
    )
}

/// Appends the line of one operand.
fn push_operand(out: &mut String, operand: &Operand)
    ensures
        final(out)@ == old(out)@ + operand_line(*operand),
{
    let ghost before = out@;
    out.append("  + ");
    let mut tag = String::from_str("[");
    tag.append(operand.op_type.as_str());
    tag.append("]");
    push_padded(out, tag.as_str(), 8);
    let ghost tagged = out@;
    assert(tagged == before + "  + "@ + padded(type_tag(*operand), 8));
    match operand.input {
        Some(flag) => {
            out.append(" input = ");
            push_padded(out, if flag { "true" } else { "false" }, 5);
            out.append(" ");
        },
        None => {},
    }
    let ghost noted = out@;
    assert(noted =~= tagged + input_note(*operand));
    match operand.output {
        Some(flag) => {
            out.append(" output = ");
            push_padded(out, if flag { "true" } else { "false" }, 5);
        },
        None => {},
    }
    assert(out@ =~= noted + output_note(*operand));
    assert(out@ =~= before + operand_line(*operand));
}

impl InstructionForm {
    /// The text of the form: a line with the names that are present, then one
    /// line for each operand, in their order.
    pub fn render(&self) -> (text: String)
        ensures
            text@ == form_text(self@),
    {
        let mut out = String::new();
        match &self.gas_name {
            Some(gas) => {
                out.append("- ");
                out.append("*GAS*: ");
                out.append(gas.as_str());
            },
            None => {},
        }
        match &self.go_name {
            Some(go) => {
                if self.gas_name.is_some() {
                    out.append(" | ");
                } else {
                    out.append("- ");
                }
                out.append("*GO*: ");
                out.append(go.as_str());
            },
            None => {},
        }
        if self.gas_name.is_some() || self.go_name.is_some() {
            out.append("\n\n");
        }
        assert(out@ =~= names_line(self@));
        let mut i: usize = 0;
        while i < self.operands.len()
            invariant
                i <= self.operands@.len(),
                out@ == names_line(self@) + operand_lines(self.operands@.take(i as int)),
            decreases self.operands.len() - i,
        {
            let ghost done = self.operands@.take(i as int);
            let ghost next = self.operands@.take(i + 1);
            assert(next.drop_last() =~= done);
            assert(next.last() == self.operands@[i as int]);
            if i > 0 {
                out.append("\n");
            }
            push_operand(&mut out, &self.operands[i]);
            assert(out@ =~= names_line(self@) + operand_lines(next));
            i += 1;
        }
        assert(self.operands@.take(i as int) =~= self.operands@);
        out.append("\n");
        assert(out@ =~= form_text(self@));
        out
    }
}

impl Instruction {
    /// The text of the instruction: its name, with the architecture where it
    /// has one, its summary, and its forms in their order.
    pub fn render(&self) -> (text: String)
        ensures
            text@ == instruction_text(self@),
    {
        let mut out = String::new();
        out.append(self.name.as_str());
        match &self.arch {
            Some(arch) => {
                out.append(" [");
                out.append(arch.as_str());
                out.append("]");
            },
            None => {},
        }
        assert(out@ =~= header(self@));
        out.append("\n");
        out.append(self.summary.as_str());
        out.append("\n\n\n## Forms\n\n");
        let ghost top = out@;
        assert(top =~= header(self@) + "\n"@ + self@.summary + "\n\n\n## Forms\n\n"@);
        let mut i: usize = 0;
        while i < self.forms.len()
            invariant
                i <= self.forms@.len(),
                out@ == top + forms_text(self@.forms.take(i as int)),
            decreases self.forms.len() - i,
        {
            let ghost done = self@.forms.take(i as int);
            let ghost next = self@.forms.take(i + 1);
            assert(next.drop_last() =~= done);
            assert(next.last() == self.forms@[i as int]@);
            out.append("\n");
            let form = self.forms[i].render();
            out.append(form.as_str());
            assert(out@ =~= top + forms_text(next));
            i += 1;
        }
        assert(self@.forms.take(i as int) =~= self@.forms);
        out
    }
}

/// A part between what stands before it and what stands after it.
pub open spec fn framed(before: Seq<char>, part: Seq<char>, after: Seq<char>) -> Seq<char> {
    before + part + after
}

/// Whether a text holds a part, whole and in one piece.
pub open spec fn mentions(text: Seq<char>, part: Seq<char>) -> bool {
    exists|before: Seq<char>, after: Seq<char>| #[trigger] framed(before, part, after) == text
}

/// A text holds what it was put together from.
pub proof fn lemma_mentions_part(before: Seq<char>, part: Seq<char>, after: Seq<char>)
    ensures
        mentions(before + part + after, part),
        mentions(before + part, part),
        mentions(part + after, part),
        mentions(part, part),
{
    assert(framed(before, part, after) == before + part + after);
    assert(framed(before, part, Seq::empty()) =~= before + part);
    assert(framed(Seq::empty(), part, after) =~= part + after);
    assert(framed(Seq::empty(), part, Seq::empty()) =~= part);
}

/// What a text holds, a longer text around it holds too.
pub proof fn lemma_mentions_within(
    before: Seq<char>,
    text: Seq<char>,
    after: Seq<char>,
    part: Seq<char>,
)
    requires
        mentions(text, part),
    ensures
        mentions(before + text + after, part),
        mentions(before + text, part),
        mentions(text + after, part),
{
    let (left, right) = choose|left: Seq<char>, right: Seq<char>| #[trigger]
        framed(left, part, right) == text;
    assert(framed(before + left, part, right + after) =~= before + text + after);
    assert(framed(before + left, part, right) =~= before + text);
    assert(framed(left, part, right + after) =~= text + after);
}

/// The line of an operand holds its type tag.
pub proof fn lemma_operand_line_mentions_tag(operand: Operand)
    ensures
        mentions(operand_line(operand), type_tag(operand)),
{
    let tag = type_tag(operand);
    let field = padded(tag, 8);
    assert(mentions(field, tag)) by {
        if tag.len() >= 8 {
            lemma_mentions_part(Seq::empty(), tag, Seq::empty());
        } else {
            lemma_mentions_part(Seq::empty(), tag, crate::text::spaces((8 - tag.len()) as nat));
        }
    }
    lemma_mentions_within("  + "@, field, input_note(operand) + output_note(operand), tag);
    assert(operand_line(operand) =~= "  + "@ + field + (input_note(operand) + output_note(
        operand,
    )));
}

/// The lines of the operands hold the type tag of each of them.
pub proof fn lemma_operand_lines_mention_tag(operands: Seq<Operand>, i: int)
    requires
        0 <= i < operands.len(),
    ensures
        mentions(operand_lines(operands), type_tag(operands[i])),
    decreases operands.len(),
{
    let tag = type_tag(operands[i]);
    if operands.len() == 1 {
        lemma_operand_line_mentions_tag(operands[0]);
    } else if i == operands.len() - 1 {
        lemma_operand_line_mentions_tag(operands.last());
        lemma_mentions_within(
            operand_lines(operands.drop_last()) + "\n"@,
            operand_line(operands.last()),
            Seq::empty(),
            tag,
        );
    } else {
        assert(operands.drop_last()[i] == operands[i]);
        lemma_operand_lines_mention_tag(operands.drop_last(), i);
        lemma_mentions_within(
            Seq::empty(),
            operand_lines(operands.drop_last()),
            "\n"@ + operand_line(operands.last()),
            tag,
        );
        assert(operand_lines(operands) =~= operand_lines(operands.drop_last()) + ("\n"@
            + operand_line(operands.last())));
    }
}

/// The text of a form holds its names, where it has them, and the type tag
/// of each of its operands.
pub proof fn lemma_form_text_mentions(form: InstructionFormView)
    ensures
        form.gas_name matches Some(gas) ==> mentions(form_text(form), gas),
        form.go_name matches Some(go) ==> mentions(form_text(form), go),
        forall|i: int|
            0 <= i < form.operands.len() ==> mentions(
                form_text(form),
                type_tag(#[trigger] form.operands[i]),
            ),
{
    let rest = operand_lines(form.operands) + "\n"@;
    assert(form_text(form) =~= names_line(form) + rest);
    match (form.gas_name, form.go_name) {
        (Some(gas), Some(go)) => {
            lemma_mentions_part("- "@ + "*GAS*: "@, gas, " | "@ + "*GO*: "@ + go + "\n\n"@);
            assert(names_line(form) =~= "- "@ + "*GAS*: "@ + gas + (" | "@ + "*GO*: "@ + go
                + "\n\n"@));
            lemma_mentions_part("- "@ + "*GAS*: "@ + gas + " | "@ + "*GO*: "@, go, "\n\n"@);
            lemma_mentions_within(Seq::empty(), names_line(form), rest, gas);
            lemma_mentions_within(Seq::empty(), names_line(form), rest, go);
        },
        (Some(gas), None) => {
            lemma_mentions_part("- "@ + "*GAS*: "@, gas, "\n\n"@);
            lemma_mentions_within(Seq::empty(), names_line(form), rest, gas);
        },
        (None, Some(go)) => {
            lemma_mentions_part("- "@ + "*GO*: "@, go, "\n\n"@);
            lemma_mentions_within(Seq::empty(), names_line(form), rest, go);
        },
        (None, None) => {},
    }
    assert forall|i: int| 0 <= i < form.operands.len() implies mentions(
        form_text(form),
        type_tag(#[trigger] form.operands[i]),
    ) by {
        lemma_operand_lines_mention_tag(form.operands, i);
        lemma_mentions_within(
            names_line(form),
            operand_lines(form.operands),
            "\n"@,
            type_tag(form.operands[i]),
        );
    }
}

/// The texts of the forms hold what the text of each form holds.
pub proof fn lemma_forms_text_mentions(forms: Seq<InstructionFormView>, i: int, part: Seq<char>)
    requires
        0 <= i < forms.len(),
        mentions(form_text(forms[i]), part),
    ensures
        mentions(forms_text(forms), part),
    decreases forms.len(),
{
    if i == forms.len() - 1 {
        lemma_mentions_within(
            forms_text(forms.drop_last()) + "\n"@,
            form_text(forms.last()),
            Seq::empty(),
            part,
        );
    } else {
        assert(forms.drop_last()[i] == forms[i]);
        lemma_forms_text_mentions(forms.drop_last(), i, part);
        lemma_mentions_within(
            Seq::empty(),
            forms_text(forms.drop_last()),
            "\n"@ + form_text(forms.last()),
            part,
        );
        assert(forms_text(forms) =~= forms_text(forms.drop_last()) + ("\n"@ + form_text(
            forms.last(),
        )));
    }
}

/// The text of an instruction holds what the text of each of its forms holds.
pub proof fn lemma_text_mentions_within_form(instruction: InstructionView, i: int, part: Seq<char>)
    requires
        0 <= i < instruction.forms.len(),
        mentions(form_text(instruction.forms[i]), part),
    ensures
        mentions(instruction_text(instruction), part),
{
    lemma_forms_text_mentions(instruction.forms, i, part);
    lemma_mentions_within(
        header(instruction) + "\n"@ + instruction.summary + "\n\n\n## Forms\n\n"@,
        forms_text(instruction.forms),
        Seq::empty(),
        part,
    );
}

/// The text of an instruction holds its name and, for each of its forms, the
/// names that the form has and the type tag of each of its operands.
pub proof fn theorem_text_mentions(instruction: InstructionView)
    ensures
        mentions(instruction_text(instruction), instruction.name),
        forall|i: int|
            0 <= i < instruction.forms.len() ==> ((#[trigger] instruction.forms[i]).gas_name matches Some(
                gas,
            ) ==> mentions(instruction_text(instruction), gas)),
        forall|i: int|
            0 <= i < instruction.forms.len() ==> ((#[trigger] instruction.forms[i]).go_name matches Some(
                go,
            ) ==> mentions(instruction_text(instruction), go)),
        forall|i: int, j: int|
            0 <= i < instruction.forms.len() && 0 <= j < instruction.forms[i].operands.len()
                ==> mentions(
                instruction_text(instruction),
                type_tag(#[trigger] instruction.forms[i].operands[j]),
            ),
{
    let text = instruction_text(instruction);
    let top = header(instruction) + "\n"@ + instruction.summary + "\n\n\n## Forms\n\n"@;
    let forms = forms_text(instruction.forms);
    assert(text == top + forms);
    assert(mentions(text, instruction.name)) by {
        match instruction.arch {
            Some(arch) => {
                lemma_mentions_part(
                    Seq::empty(),
                    instruction.name,
                    " ["@ + arch.surface() + "]"@ + "\n"@ + instruction.summary
                        + "\n\n\n## Forms\n\n"@ + forms,
                );
                assert(text =~= instruction.name + (" ["@ + arch.surface() + "]"@ + "\n"@
                    + instruction.summary + "\n\n\n## Forms\n\n"@ + forms));
            },
            None => {
                lemma_mentions_part(
                    Seq::empty(),
                    instruction.name,
                    "\n"@ + instruction.summary + "\n\n\n## Forms\n\n"@ + forms,
                );
                assert(text =~= instruction.name + ("\n"@ + instruction.summary
                    + "\n\n\n## Forms\n\n"@ + forms));
            },
        }
    }
    assert forall|i: int| 0 <= i < instruction.forms.len() implies ((
    #[trigger] instruction.forms[i]).gas_name matches Some(gas) ==> mentions(text, gas)) by {
        lemma_form_text_mentions(instruction.forms[i]);
        if let Some(gas) = instruction.forms[i].gas_name {
            lemma_text_mentions_within_form(instruction, i, gas);
        }
    }
    assert forall|i: int| 0 <= i < instruction.forms.len() implies ((
    #[trigger] instruction.forms[i]).go_name matches Some(go) ==> mentions(text, go)) by {
        lemma_form_text_mentions(instruction.forms[i]);
        if let Some(go) = instruction.forms[i].go_name {
            lemma_text_mentions_within_form(instruction, i, go);
        }
    }
    assert forall|i: int, j: int|
        0 <= i < instruction.forms.len() && 0 <= j
            < instruction.forms[i].operands.len() implies mentions(
        text,
        type_tag(#[trigger] instruction.forms[i].operands[j]),
    ) by {
        lemma_form_text_mentions(instruction.forms[i]);
        lemma_text_mentions_within_form(
            instruction,
            i,
            type_tag(instruction.forms[i].operands[j]),
        );
    }
}

} // verus!
