//! What the name of the terminal program tells about inline images.

use crate::text::same_text;
use vstd::prelude::*;
use vstd::string::*;

verus! {

/// Whether a terminal program's name is that of iTerm2.
pub open spec fn names_iterm2(program: Option<Seq<char>>) -> bool {
    program matches Some(name) && name == "iTerm.app"@
}

/// Whether a terminal program's name is that of a terminal with inline
/// images: iTerm2, WezTerm or mintty.
pub open spec fn names_image_terminal(program: Option<Seq<char>>) -> bool {
    program matches Some(name) && (name == "iTerm.app"@ || name == "WezTerm"@ || name
        == "mintty"@)
}

/// The text of a string slice that may be missing.
pub open spec fn name_of(program: Option<&str>) -> Option<Seq<char>> {
    match program {
        Some(name) => Some(name@),
        None => None,
    }
}

/// Whether the terminal program, by its name where it gave one, is
/// iTerm2.
pub fn is_iterm2(term_program: Option<&str>) -> (b: bool)
    ensures
        b == names_iterm2(name_of(term_program)),
{
    match term_program {
        Some(name) => same_text(name, "iTerm.app"),
        None => false,
    }
}

/// Whether the terminal program, by its name where it gave one, shows
/// inline images.
pub fn supports_inline_images(term_program: Option<&str>) -> (b: bool)
    ensures
        b == names_image_terminal(name_of(term_program)),
{
    match term_program {
        Some(name) => same_text(name, "iTerm.app") || same_text(name, "WezTerm") || same_text(
            name,
            "mintty",
        ),
        None => false,
    }
}

/// iTerm2 is one of the terminals with inline images.
pub proof fn lemma_iterm2_shows_images(program: Option<Seq<char>>)
    requires
        names_iterm2(program),
    ensures
        names_image_terminal(program),
{
}

} // verus!
