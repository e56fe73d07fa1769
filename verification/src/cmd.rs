//! Parsing of the interactive loop's input.
//!
//! Free text is a chat message; a handful of reserved tokens quit the
//! session or ask for a refresh. The refresh commands are accepted but not
//! yet wired to actions: they report "not supported" rather than silently
//! doing nothing.

use vstd::prelude::*;
use vstd::string::StringExecFns;

verus! {

/// An input command from the user.
#[derive(Debug)]
pub enum Cmd {
    Quit,
    Chat(String),
    RefreshAll,
    RefreshConv,
    RefreshInst,
    RefreshFiles,
}

/// The view of a command.
pub enum CmdV {
    Quit,
    Chat(Seq<char>),
    RefreshAll,
    RefreshConv,
    RefreshInst,
    RefreshFiles,
}

impl View for Cmd {
    type V = CmdV;

    open spec fn view(&self) -> CmdV {
        match self {
            Cmd::Quit => CmdV::Quit,
            Cmd::Chat(text) => CmdV::Chat(text@),
            Cmd::RefreshAll => CmdV::RefreshAll,
            Cmd::RefreshConv => CmdV::RefreshConv,
            Cmd::RefreshInst => CmdV::RefreshInst,
            Cmd::RefreshFiles => CmdV::RefreshFiles,
        }
    }
}

/// The command a line of input stands for.
pub open spec fn cmd_spec(input: Seq<char>) -> CmdV {
    if input == "/q"@ {
        CmdV::Quit
    } else if input == "/r"@ || input == "/ra"@ {
        CmdV::RefreshAll
    } else if input == "/ri"@ {
        CmdV::RefreshInst
    } else if input == "/rf"@ {
        CmdV::RefreshFiles
    } else if input == "/rc"@ {
        CmdV::RefreshConv
    } else {
        CmdV::Chat(input)
    }
}

/// Whether the session acts on the command. The refresh commands are
/// recognized but report "not supported".
pub open spec fn cmd_supported(c: CmdV) -> bool {
    c is Quit || c is Chat
}

impl Cmd {
    /// Parse one line of input.
    pub fn from_input(input: String) -> (r: Cmd)
        ensures
            r@ == cmd_spec(input@),
    {
        if input.eq(&String::from_str("/q")) {
            Cmd::Quit
        } else if input.eq(&String::from_str("/r")) || input.eq(&String::from_str("/ra")) {
            Cmd::RefreshAll
        } else if input.eq(&String::from_str("/ri")) {
            Cmd::RefreshInst
        } else if input.eq(&String::from_str("/rf")) {
            Cmd::RefreshFiles
        } else if input.eq(&String::from_str("/rc")) {
            Cmd::RefreshConv
        } else {
            Cmd::Chat(input)
        }
    }

    /// Whether the session acts on this command.
    pub fn supported(&self) -> (r: bool)
        ensures
            r == cmd_supported(self@),
    {
        match self {
            Cmd::Quit => true,
            Cmd::Chat(_) => true,
            _ => false,
        }
    }
}

} // verus!
