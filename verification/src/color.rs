//! When output is coloured.

use vstd::prelude::*;

use crate::error::Error;
use crate::text;

verus! {

/// When to colour the output: the values of `--color` and of `CARGO_TERM_COLOR`.
#[derive(Clone, Copy, Debug, PartialEq, Eq, Structural)]
pub enum Coloring {
    Auto,
    Always,
    Never,
}

/// The name of each choice, as cargo spells it.
pub open spec fn color_name(color: Coloring) -> Seq<char> {
    match color {
        Coloring::Auto => "auto"@,
        Coloring::Always => "always"@,
        Coloring::Never => "never"@,
    }
}

/// The choice of the given name, if it is the name of one.
pub open spec fn color_named(name: Seq<char>) -> Option<Coloring> {
    if name == "auto"@ {
        Some(Coloring::Auto)
    } else if name == "always"@ {
        Some(Coloring::Always)
    } else if name == "never"@ {
        Some(Coloring::Never)
    } else {
        None
    }
}

/// The three names differ.
pub(crate) proof fn lemma_color_names_differ()
    ensures
        "auto"@ != "always"@,
        "auto"@ != "never"@,
        "always"@ != "never"@,
{
    reveal_strlit("auto");
    reveal_strlit("always");
    reveal_strlit("never");
    assert("auto"@[0] == 'a' && "auto"@[1] == 'u');
    assert("always"@[0] == 'a' && "always"@[1] == 'l');
    assert("never"@[0] == 'n');
}

impl Coloring {
    /// The name of the choice, as cargo's `--color` takes it.
    pub fn cargo_color(self) -> (name: &'static str)
        ensures
            name@ == color_name(self),
    {
        match self {
            Coloring::Auto => "auto",
            Coloring::Always => "always",
            Coloring::Never => "never",
        }
    }

    /// The choice of the given name. Every other text is refused, and named in the error.
    pub fn from_str(color: &str) -> (r: Result<Coloring, Error>)
        ensures
            match r {
                Ok(choice) => color_named(color@) == Some(choice),
                Err(error) => {
                    &&& color_named(color@) is None
                    &&& error matches Error::InvalidColor(found) && found@ == color@
                },
            },
    {
        if text::same_text(color, "auto") {
            Ok(Coloring::Auto)
        } else if text::same_text(color, "always") {
            Ok(Coloring::Always)
        } else if text::same_text(color, "never") {
            Ok(Coloring::Never)
        } else {
            Err(Error::InvalidColor(color.to_owned()))
        }
    }
}

} // verus!
