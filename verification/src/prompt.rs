//! The interactive selector: what is written to it and how its answer is
//! read.

use crate::command::{ToolCommand, ToolCommandView};
use crate::error::InstallError;
use crate::text::{is_whitespace, join, joined, trim_end, trimmed_end};
use vstd::prelude::*;
use vstd::string::*;

verus! {

/// The command that starts the selector.
pub open spec fn selector() -> ToolCommandView {
    ToolCommandView { program: "fzf"@, args: Seq::empty() }
}

/// What the selector reads: the labels, one per line.
pub open spec fn selector_lines(labels: Seq<Seq<char>>) -> Seq<char> {
    joined(labels, "\n"@)
}

/// The label that the selector's output names: the output without the white
/// space at its end. Only empty output names none; output that holds nothing
/// but white space names the empty label.
pub open spec fn chosen_label(output: Seq<char>) -> Option<Seq<char>> {
    if output.len() == 0 {
        None
    } else {
        Some(trimmed_end(output))
    }
}

/// The selector answers a pick with the label and a line feed. That output
/// names the label again, provided the label does not itself end in white
/// space; the empty label is no exception.
pub proof fn lemma_picked_label_is_chosen(label: Seq<char>)
    requires
        label.len() > 0 ==> !is_whitespace(label.last()),
    ensures
        chosen_label(label + "\n"@) == Some(label),
{
    reveal_strlit("\n");
    let output = label + "\n"@;
    assert(output.last() == '\n');
    assert(output.drop_last() == label);
    assert(trimmed_end(output) == trimmed_end(label));
}

/// The command that starts the selector.
pub fn selector_command() -> (command: ToolCommand)
    ensures
        command@ == selector(),
{
    let args: Vec<String> = Vec::new();
    assert(args.deep_view() =~= Seq::<Seq<char>>::empty());
    ToolCommand { program: "fzf".to_owned(), args }
}

/// What the selector reads: the labels, one per line.
pub fn selector_input(labels: &Vec<String>) -> (input: String)
    ensures
        input@ == selector_lines(labels.deep_view()),
{
    join(labels, "\n")
}

/// The label that the selector's output names.
///
/// Fails with [`InstallError::SelectionAborted`] exactly where the output is
/// empty: the user left without choosing.
pub fn selection(output: &str) -> (chosen: Result<String, InstallError>)
    ensures
        match chosen {
            Ok(label) => chosen_label(output@) == Some(label@),
            Err(error) => error == InstallError::SelectionAborted && chosen_label(output@)
                is None,
        },
{
    if output.is_empty() {
        Err(InstallError::SelectionAborted)
    } else {
        Ok(trim_end(output).to_owned())
    }
}

} // verus!
