//! What the command line defaults to, and the help for shell completion.

use vstd::prelude::*;
use crate::command::push_text;

verus! {

/// The session name where none is given.
pub const DEFAULT_SESSION: &'static str = "cast";

/// The terminal width where none is given.
pub const DEFAULT_COLS: u32 = 80;

/// The terminal height where none is given.
pub const DEFAULT_ROWS: u32 = 24;

/// The port at which discovery starts where none is given.
pub const DEFAULT_PORT: u16 = 7681;

/// The font size of the server's page where none is given.
pub const DEFAULT_FONT_SIZE: u32 = 24;

/// The instructions for enabling tab completion of the program
/// `binary_name`, as the paragraphs to print: a heading, and one paragraph
/// for each supported shell.
pub open spec fn spec_completion_instructions(binary_name: Seq<char>) -> Seq<Seq<char>> {
    seq![
        "### Instructions to enable tab completion for "@ + binary_name + "\n"@,
        "### Bash (~/.bashrc)\n  source <("@ + binary_name + " completions bash)\n"@,
        "### Fish (~/.config/fish/config.fish)\n  "@ + binary_name
            + " completions fish | source\n"@,
        "### Zsh (~/.zshrc)\n  autoload -U compinit; compinit; source <("@ + binary_name
            + " completions zsh)"@,
    ]
}

/// Appends `head`, `name` and `tail`, joined, to a list of paragraphs.
fn push_around(list: &mut Vec<String>, head: &str, name: &str, tail: &str)
    ensures
        final(list).deep_view() == old(list).deep_view().push(head@ + name@ + tail@),
{
    let mut p = String::from_str(head);
    p.append(name);
    p.append(tail);
    push_text(list, p.as_str());
}

/// Builds the instructions for enabling tab completion of the program
/// `binary_name`.
pub fn completion_instructions(binary_name: &str) -> (r: Vec<String>)
    ensures
        r.deep_view() == spec_completion_instructions(binary_name@),
{
    let mut r: Vec<String> = Vec::new();
    assert(r.deep_view() =~= Seq::<Seq<char>>::empty());
    push_around(&mut r, "### Instructions to enable tab completion for ", binary_name, "\n");
    push_around(&mut r, "### Bash (~/.bashrc)\n  source <(", binary_name, " completions bash)\n");
    push_around(
        &mut r,
        "### Fish (~/.config/fish/config.fish)\n  ",
        binary_name,
        " completions fish | source\n",
    );
    push_around(
        &mut r,
        "### Zsh (~/.zshrc)\n  autoload -U compinit; compinit; source <(",
        binary_name,
        " completions zsh)",
    );
    assert(r.deep_view() =~= spec_completion_instructions(binary_name@));
    r
}

} // verus!
