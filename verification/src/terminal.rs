//! The terminals a download can run in, and the command lines that start it.

use vstd::prelude::*;
use crate::platform::Os;

verus! {

/// A terminal emulator that can run commands.
/// Must stay in step with the terminal drop-down of the front end.
#[derive(Debug, Clone, Copy, PartialEq, Eq, Structural)]
pub enum Terminal {
    GNOMETerminal,
    Alacritty,
    Konsole,
    GNOMEConsole,
    Xfce4Terminal,
    DeepinTerminal,
    Terminator,
    Kitty,
    LXTerminal,
    Tilix,
    XTerm,
    CMD,
    Terminal,
}

/// Every terminal, in the order of the drop-down (and of the enum).
pub open spec fn all_terminals() -> Seq<Terminal> {
    seq![
        Terminal::GNOMETerminal,
        Terminal::Alacritty,
        Terminal::Konsole,
        Terminal::GNOMEConsole,
        Terminal::Xfce4Terminal,
        Terminal::DeepinTerminal,
        Terminal::Terminator,
        Terminal::Kitty,
        Terminal::LXTerminal,
        Terminal::Tilix,
        Terminal::XTerm,
        Terminal::CMD,
        Terminal::Terminal,
    ]
}

/// The position of a terminal in [`all_terminals`].
pub open spec fn terminal_index(t: Terminal) -> nat {
    match t {
        Terminal::GNOMETerminal => 0,
        Terminal::Alacritty => 1,
        Terminal::Konsole => 2,
        Terminal::GNOMEConsole => 3,
        Terminal::Xfce4Terminal => 4,
        Terminal::DeepinTerminal => 5,
        Terminal::Terminator => 6,
        Terminal::Kitty => 7,
        Terminal::LXTerminal => 8,
        Terminal::Tilix => 9,
        Terminal::XTerm => 10,
        Terminal::CMD => 11,
        Terminal::Terminal => 12,
    }
}

/// The name shown to the user for a terminal.
pub open spec fn pretty_name_spec(t: Terminal) -> Seq<char> {
    match t {
        Terminal::GNOMETerminal => "GNOME Terminal"@,
        Terminal::GNOMEConsole => "GNOME Console"@,
        Terminal::Konsole => "Konsole"@,
        Terminal::Xfce4Terminal => "Xfce Terminal"@,
        Terminal::Terminator => "Terminator"@,
        Terminal::XTerm => "XTerm"@,
        Terminal::Kitty => "Kitty"@,
        Terminal::LXTerminal => "LXTerminal"@,
        Terminal::Tilix => "Tilix"@,
        Terminal::DeepinTerminal => "Deepin Terminal"@,
        Terminal::Alacritty => "Alacritty"@,
        Terminal::CMD => "cmd"@,
        Terminal::Terminal => "Terminal"@,
    }
}

/// How many terminals can be available on an operating system: one on
/// Windows and macOS, every terminal but `cmd` elsewhere.
pub open spec fn total_spec(os: Os) -> u8 {
    if os == Os::Windows || os == Os::MacOs {
        1
    } else {
        (all_terminals().len() - 1) as u8
    }
}

/// Each terminal stands in enum order at its own index, and nowhere else:
/// looking up a terminal's index gives the terminal back.
pub proof fn law_index_round_trip(t: Terminal)
    ensures
        terminal_index(t) < all_terminals().len(),
        all_terminals()[terminal_index(t) as int] == t,
        forall|i: int|
            0 <= i < all_terminals().len() && #[trigger] all_terminals()[i] == t ==> i
                == terminal_index(t),
{
    assert(all_terminals().len() == 13);
    assert forall|i: int|
        0 <= i < all_terminals().len() && #[trigger] all_terminals()[i] == t implies i
            == terminal_index(t) by {
        law_position_round_trip(i);
    }
}

/// The terminal at each position in enum order has that position as its index.
pub proof fn law_position_round_trip(i: int)
    requires
        0 <= i < all_terminals().len(),
    ensures
        terminal_index(all_terminals()[i]) == i,
{
    assert(all_terminals().len() == 13);
    if i == 0 {
    } else if i == 1 {
    } else if i == 2 {
    } else if i == 3 {
    } else if i == 4 {
    } else if i == 5 {
    } else if i == 6 {
    } else if i == 7 {
    } else if i == 8 {
    } else if i == 9 {
    } else if i == 10 {
    } else if i == 11 {
    } else {
        assert(i == 12);
    }
}

impl Terminal {
    /// Every terminal, in enum order.
    pub fn iter() -> (r: Vec<Terminal>)
        ensures
            r@ == all_terminals(),
    {
        let r = vec![
            Terminal::GNOMETerminal,
            Terminal::Alacritty,
            Terminal::Konsole,
            Terminal::GNOMEConsole,
            Terminal::Xfce4Terminal,
            Terminal::DeepinTerminal,
            Terminal::Terminator,
            Terminal::Kitty,
            Terminal::LXTerminal,
            Terminal::Tilix,
            Terminal::XTerm,
            Terminal::CMD,
            Terminal::Terminal,
        ];
        assert(r@ =~= all_terminals());
        r
    }

    /// The terminal at position `index` in enum order, if there is one.
    pub fn from_index(index: &u8) -> (r: Option<Terminal>)
        ensures
            r == (if (*index as int) < all_terminals().len() {
                Some(all_terminals()[*index as int])
            } else {
                None
            }),
    {
        let terminals = Terminal::iter();
        let i = *index as usize;
        if i < terminals.len() {
            Some(terminals[i])
        } else {
            None
        }
    }

    /// The position of this terminal in enum order.
    pub fn index(&self) -> (r: Option<u8>)
        ensures
            r == Some(terminal_index(*self) as u8),
    {
        let terminals = Terminal::iter();
        proof {
            law_index_round_trip(*self);
        }
        let mut i: usize = 0;
        while i < terminals.len()
            invariant
                terminals@ == all_terminals(),
                i <= terminals@.len(),
                i <= terminal_index(*self),
            decreases terminals@.len() - i,
        {
            if terminals[i] == *self {
                return Some(i as u8);
            }
            i = i + 1;
        }
        None
    }

    /// The number of terminals that can be available on `os`.
    pub fn total(os: Os) -> (r: u8)
        ensures
            r == total_spec(os),
    {
        if os == Os::Windows || os == Os::MacOs {
            return 1;
        }
        // `cmd` is not available outside Windows.
        Terminal::iter().len() as u8 - 1
    }

    /// The name shown to the user for this terminal.
    pub fn pretty_name(&self) -> (r: &'static str)
        ensures
            r@ == pretty_name_spec(*self),
    {
        match self {
            Terminal::GNOMETerminal => "GNOME Terminal",
            Terminal::GNOMEConsole => "GNOME Console",
            Terminal::Konsole => "Konsole",
            Terminal::Xfce4Terminal => "Xfce Terminal",
            Terminal::Terminator => "Terminator",
            Terminal::XTerm => "XTerm",
            Terminal::Kitty => "Kitty",
            Terminal::LXTerminal => "LXTerminal",
            Terminal::Tilix => "Tilix",
            Terminal::DeepinTerminal => "Deepin Terminal",
            Terminal::Alacritty => "Alacritty",
            Terminal::CMD => "cmd",
            Terminal::Terminal => "Terminal",
        }
    }
}

/// How to find out whether a terminal is installed.
#[derive(Debug, Clone, Copy, PartialEq, Eq)]
pub enum InstallProbe {
    /// The answer follows from the operating system alone.
    Known(bool),
    /// Run `program` with the single argument `arg`; the terminal is installed
    /// if that command can be started and waited for.
    Run { program: &'static str, arg: &'static str },
}

/// The program run to probe for a terminal (none for the macOS Terminal,
/// which is not probed).
pub open spec fn probe_program(t: Terminal) -> Seq<char> {
    match t {
        Terminal::GNOMETerminal => "gnome-terminal"@,
        Terminal::GNOMEConsole => "kgx"@,
        Terminal::Konsole => "konsole"@,
        Terminal::Xfce4Terminal => "xfce4-terminal"@,
        Terminal::Terminator => "terminator"@,
        Terminal::XTerm => "xterm"@,
        Terminal::Kitty => "kitty"@,
        Terminal::LXTerminal => "lxterminal"@,
        Terminal::Tilix => "tilix"@,
        Terminal::DeepinTerminal => "deepin-terminal"@,
        Terminal::Alacritty => "alacritty"@,
        Terminal::CMD => "cmd"@,
        Terminal::Terminal => Seq::empty(),
    }
}

/// The argument given to the probing program: `/?` for `cmd`, `-v` for
/// XTerm, `--version` otherwise.
pub open spec fn probe_arg(t: Terminal) -> Seq<char> {
    if t == Terminal::CMD {
        "/?"@
    } else if t == Terminal::XTerm {
        "-v"@
    } else {
        "--version"@
    }
}

/// What [`Terminal::installed_probe`] answers: the macOS Terminal is installed
/// exactly on macOS; every other terminal is probed by running its program
/// (`cmd /?`, `xterm -v`, or the program with `--version`).
pub open spec fn installed_probe_spec(t: Terminal, os: Os, p: InstallProbe) -> bool {
    match p {
        InstallProbe::Known(b) => t == Terminal::Terminal && b == (os == Os::MacOs),
        InstallProbe::Run { program, arg } => t != Terminal::Terminal && program@ == probe_program(t) && arg@ == probe_arg(t),
    }
}

impl Terminal {
    /// How to check whether this terminal is installed on `os`.
    pub fn installed_probe(&self, os: Os) -> (r: InstallProbe)
        ensures
            installed_probe_spec(*self, os, r),
    {
        match self {
            Terminal::CMD => InstallProbe::Run { program: "cmd", arg: "/?" },
            Terminal::GNOMETerminal => InstallProbe::Run { program: "gnome-terminal", arg: "--version" },
            Terminal::GNOMEConsole => InstallProbe::Run { program: "kgx", arg: "--version" },
            Terminal::Konsole => InstallProbe::Run { program: "konsole", arg: "--version" },
            Terminal::Xfce4Terminal => InstallProbe::Run { program: "xfce4-terminal", arg: "--version" },
            Terminal::Terminator => InstallProbe::Run { program: "terminator", arg: "--version" },
            Terminal::XTerm => InstallProbe::Run { program: "xterm", arg: "-v" },
            Terminal::Kitty => InstallProbe::Run { program: "kitty", arg: "--version" },
            Terminal::LXTerminal => InstallProbe::Run { program: "lxterminal", arg: "--version" },
            Terminal::Tilix => InstallProbe::Run { program: "tilix", arg: "--version" },
            Terminal::DeepinTerminal => InstallProbe::Run { program: "deepin-terminal", arg: "--version" },
            Terminal::Alacritty => InstallProbe::Run { program: "alacritty", arg: "--version" },
            Terminal::Terminal => InstallProbe::Known(os == Os::MacOs),
        }
    }
}

/// How each terminal is probed, in full: every terminal but the macOS
/// Terminal is probed by running its own executable (`cmd /?`, `xterm -v`,
/// otherwise `--version`); the macOS Terminal is installed exactly on macOS.
pub proof fn law_probe_table(os: Os, p: InstallProbe)
    ensures
        installed_probe_spec(Terminal::GNOMETerminal, os, p) ==> (p matches InstallProbe::Run { program, arg } && program@ == "gnome-terminal"@ && arg@ == "--version"@),
        installed_probe_spec(Terminal::GNOMEConsole, os, p) ==> (p matches InstallProbe::Run { program, arg } && program@ == "kgx"@ && arg@ == "--version"@),
        installed_probe_spec(Terminal::Konsole, os, p) ==> (p matches InstallProbe::Run { program, arg } && program@ == "konsole"@ && arg@ == "--version"@),
        installed_probe_spec(Terminal::Xfce4Terminal, os, p) ==> (p matches InstallProbe::Run { program, arg } && program@ == "xfce4-terminal"@ && arg@ == "--version"@),
        installed_probe_spec(Terminal::Terminator, os, p) ==> (p matches InstallProbe::Run { program, arg } && program@ == "terminator"@ && arg@ == "--version"@),
        installed_probe_spec(Terminal::XTerm, os, p) ==> (p matches InstallProbe::Run { program, arg } && program@ == "xterm"@ && arg@ == "-v"@),
        installed_probe_spec(Terminal::Kitty, os, p) ==> (p matches InstallProbe::Run { program, arg } && program@ == "kitty"@ && arg@ == "--version"@),
        installed_probe_spec(Terminal::LXTerminal, os, p) ==> (p matches InstallProbe::Run { program, arg } && program@ == "lxterminal"@ && arg@ == "--version"@),
        installed_probe_spec(Terminal::Tilix, os, p) ==> (p matches InstallProbe::Run { program, arg } && program@ == "tilix"@ && arg@ == "--version"@),
        installed_probe_spec(Terminal::DeepinTerminal, os, p) ==> (p matches InstallProbe::Run { program, arg } && program@ == "deepin-terminal"@ && arg@ == "--version"@),
        installed_probe_spec(Terminal::Alacritty, os, p) ==> (p matches InstallProbe::Run { program, arg } && program@ == "alacritty"@ && arg@ == "--version"@),
        installed_probe_spec(Terminal::CMD, os, p) ==> (p matches InstallProbe::Run { program, arg } && program@ == "cmd"@ && arg@ == "/?"@),
        installed_probe_spec(Terminal::Terminal, os, p) ==> p == InstallProbe::Known(os == Os::MacOs),
{
}

/// Distinct terminals are probed with distinct programs.
pub proof fn law_probe_program_one_to_one(t1: Terminal, t2: Terminal, os: Os, p1: InstallProbe, p2: InstallProbe)
    requires
        installed_probe_spec(t1, os, p1),
        installed_probe_spec(t2, os, p2),
        p1 is Run,
        p2 is Run,
        p1->program@ == p2->program@,
    ensures
        t1 == t2,
{
    reveal_strlit("cmd");
    reveal_strlit("gnome-terminal");
    reveal_strlit("kgx");
    reveal_strlit("konsole");
    reveal_strlit("xfce4-terminal");
    reveal_strlit("terminator");
    reveal_strlit("xterm");
    reveal_strlit("kitty");
    reveal_strlit("lxterminal");
    reveal_strlit("tilix");
    reveal_strlit("deepin-terminal");
    reveal_strlit("alacritty");
    assert(probe_program(t1)[0] == probe_program(t2)[0]);
    assert(probe_program(t1).len() == probe_program(t2).len());
}

/// The drop-down order of the front end: thirteen terminals, from GNOME
/// Terminal to the macOS Terminal, each at its position.
pub proof fn law_dropdown_order()
    ensures
        all_terminals().len() == 13,
        all_terminals()[0] == Terminal::GNOMETerminal,
        all_terminals()[1] == Terminal::Alacritty,
        all_terminals()[2] == Terminal::Konsole,
        all_terminals()[3] == Terminal::GNOMEConsole,
        all_terminals()[4] == Terminal::Xfce4Terminal,
        all_terminals()[5] == Terminal::DeepinTerminal,
        all_terminals()[6] == Terminal::Terminator,
        all_terminals()[7] == Terminal::Kitty,
        all_terminals()[8] == Terminal::LXTerminal,
        all_terminals()[9] == Terminal::Tilix,
        all_terminals()[10] == Terminal::XTerm,
        all_terminals()[11] == Terminal::CMD,
        all_terminals()[12] == Terminal::Terminal,
        terminal_index(Terminal::GNOMETerminal) == 0,
        terminal_index(Terminal::Alacritty) == 1,
        terminal_index(Terminal::Konsole) == 2,
        terminal_index(Terminal::GNOMEConsole) == 3,
        terminal_index(Terminal::Xfce4Terminal) == 4,
        terminal_index(Terminal::DeepinTerminal) == 5,
        terminal_index(Terminal::Terminator) == 6,
        terminal_index(Terminal::Kitty) == 7,
        terminal_index(Terminal::LXTerminal) == 8,
        terminal_index(Terminal::Tilix) == 9,
        terminal_index(Terminal::XTerm) == 10,
        terminal_index(Terminal::CMD) == 11,
        terminal_index(Terminal::Terminal) == 12,
{
}

/// The name shown for each terminal, and no two terminals share a name.
pub proof fn law_pretty_names(t1: Terminal, t2: Terminal)
    ensures
        pretty_name_spec(Terminal::GNOMETerminal) == "GNOME Terminal"@,
        pretty_name_spec(Terminal::GNOMEConsole) == "GNOME Console"@,
        pretty_name_spec(Terminal::Konsole) == "Konsole"@,
        pretty_name_spec(Terminal::Xfce4Terminal) == "Xfce Terminal"@,
        pretty_name_spec(Terminal::Terminator) == "Terminator"@,
        pretty_name_spec(Terminal::XTerm) == "XTerm"@,
        pretty_name_spec(Terminal::Kitty) == "Kitty"@,
        pretty_name_spec(Terminal::LXTerminal) == "LXTerminal"@,
        pretty_name_spec(Terminal::Tilix) == "Tilix"@,
        pretty_name_spec(Terminal::DeepinTerminal) == "Deepin Terminal"@,
        pretty_name_spec(Terminal::Alacritty) == "Alacritty"@,
        pretty_name_spec(Terminal::CMD) == "cmd"@,
        pretty_name_spec(Terminal::Terminal) == "Terminal"@,
        pretty_name_spec(t1) == pretty_name_spec(t2) ==> t1 == t2,
{
    reveal_strlit("Terminator");
    reveal_strlit("XTerm");
    reveal_strlit("Tilix");
    reveal_strlit("Konsole");
    reveal_strlit("Terminal");
    reveal_strlit("GNOME Console");
    reveal_strlit("Alacritty");
    reveal_strlit("Kitty");
    reveal_strlit("GNOME Terminal");
    reveal_strlit("cmd");
    reveal_strlit("Xfce Terminal");
    reveal_strlit("Deepin Terminal");
    reveal_strlit("LXTerminal");
    if pretty_name_spec(t1) == pretty_name_spec(t2) {
        assert(pretty_name_spec(t1)[0] == pretty_name_spec(t2)[0]);
        assert(pretty_name_spec(t1).len() == pretty_name_spec(t2).len());
    }
}

/// At most one terminal is available on Windows and on macOS; elsewhere
/// every terminal but `cmd`, that is twelve.
pub proof fn law_total(os: Os)
    ensures
        total_spec(os) == (if os == Os::Windows || os == Os::MacOs { 1u8 } else { 12u8 }),
{
}

} // verus!
