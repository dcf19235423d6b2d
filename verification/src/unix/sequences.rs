use vstd::prelude::*;

verus! {

/// The control sequences of one family of terminals.
#[derive(Debug, Copy, Clone)]
pub struct FunctionSequences {
    pub enter: &'static str,
    pub exit: &'static str,
    pub show_cursor: &'static str,
    pub hide_cursor: &'static str,
    pub clear_screen: &'static str,
    pub reset_all_attributes: &'static str,
    pub underline: &'static str,
    pub bold: &'static str,
    pub blink: &'static str,
    pub reverse: &'static str,
    pub enter_keypad: &'static str,
    pub exit_keypad: &'static str,
    pub enter_mouse: &'static str,
    pub exit_mouse: &'static str,
}

/// The families of terminals whose control sequences are known, in the order
/// in which a terminal's name is held against them.
#[derive(Clone, Copy, Debug, PartialEq, Eq, Structural)]
pub enum TerminalFamily {
    Rxvt256Color,
    Eterm,
    Screen,
    RxvtUnicode,
    Linux,
    Xterm,
}

/// The known families, in matching order.
pub open spec fn term_mapping_spec() -> Seq<TerminalFamily> {
    seq![
        TerminalFamily::Rxvt256Color,
        TerminalFamily::Eterm,
        TerminalFamily::Screen,
        TerminalFamily::RxvtUnicode,
        TerminalFamily::Linux,
        TerminalFamily::Xterm,
    ]
}

/// The known families, in matching order.
pub fn term_mapping() -> (families: Vec<TerminalFamily>)
    ensures
        families@ == term_mapping_spec(),
{
    let families = vec![
        TerminalFamily::Rxvt256Color,
        TerminalFamily::Eterm,
        TerminalFamily::Screen,
        TerminalFamily::RxvtUnicode,
        TerminalFamily::Linux,
        TerminalFamily::Xterm,
    ];
    assert(families@ =~= term_mapping_spec());
    families
}

impl TerminalFamily {
    /// The name by which a terminal of the family announces itself.
    pub open spec fn name_spec(self) -> Seq<char> {
        match self {
            TerminalFamily::Rxvt256Color => "rxvt-256color"@,
            TerminalFamily::Eterm => "Eterm"@,
            TerminalFamily::Screen => "screen"@,
            TerminalFamily::RxvtUnicode => "rxvt-unicode"@,
            TerminalFamily::Linux => "linux"@,
            TerminalFamily::Xterm => "xterm"@,
        }
    }

    /// The control sequences of the family.
    pub open spec fn sequences_spec(self) -> FunctionSequences {
        match self {
            TerminalFamily::Rxvt256Color => FunctionSequences {
                enter: "\x1b7\x1b[?47h",
                exit: "\x1b[2J\x1b[?47l\x1b8",
                show_cursor: "\x1b[?25h",
                hide_cursor: "\x1b[?25l",
                clear_screen: "\x1b[H\x1b[2J",
                reset_all_attributes: "\x1b[m",
                underline: "\x1b[4m",
                bold: "\x1b[1m",
                blink: "\x1b[5m",
                reverse: "\x1b[7m",
                enter_keypad: "\x1b=",
                exit_keypad: "\x1b>",
                enter_mouse: "\x1b[?1000h\x1b[?1002h\x1b[?1015h\x1b[?1006h",
                exit_mouse: "\x1b[?1006l\x1b[?1015l\x1b[?1002l\x1b[?1000l",
            },
            TerminalFamily::Eterm => FunctionSequences {
                enter: "\x1b7\x1b[?47h",
                exit: "\x1b[2J\x1b[?47l\x1b8",
                show_cursor: "\x1b[?25h",
                hide_cursor: "\x1b[?25l",
                clear_screen: "\x1b[H\x1b[2J",
                reset_all_attributes: "\x1b[m",
                underline: "\x1b[4m",
                bold: "\x1b[1m",
                blink: "\x1b[5m",
                reverse: "\x1b[7m",
                enter_keypad: "",
                exit_keypad: "",
                enter_mouse: "",
                exit_mouse: "",
            },
            TerminalFamily::Screen => FunctionSequences {
                enter: "\x1b[?1049h",
                exit: "\x1b[?1049l",
                show_cursor: "\x1b[34h\x1b[?25h",
                hide_cursor: "\x1b[?25l",
                clear_screen: "\x1b[H\x1b[2J",
                reset_all_attributes: "\x1b[m",
                underline: "\x1b[4m",
                bold: "\x1b[1m",
                blink: "\x1b[5m",
                reverse: "\x1b[7m",
                enter_keypad: "\x1b[?1h\x1b=",
                exit_keypad: "\x1b[?1l\x1b>",
                enter_mouse: "\x1b[?1000h\x1b[?1002h\x1b[?1015h\x1b[?1006h",
                exit_mouse: "\x1b[?1006l\x1b[?1015l\x1b[?1002l\x1b[?1000l",
            },
            TerminalFamily::RxvtUnicode => FunctionSequences {
                enter: "\x1b[?1049h",
                exit: "\x1b[r\x1b[?1049l",
                show_cursor: "\x1b[?25h",
                hide_cursor: "\x1b[?25l",
                clear_screen: "\x1b[H\x1b[2J",
                reset_all_attributes: "\x1b[m\x1b(B",
                underline: "\x1b[4m",
                bold: "\x1b[1m",
                blink: "\x1b[5m",
                reverse: "\x1b[7m",
                enter_keypad: "\x1b=",
                exit_keypad: "\x1b>",
                enter_mouse: "\x1b[?1000h\x1b[?1002h\x1b[?1015h\x1b[?1006h",
                exit_mouse: "\x1b[?1006l\x1b[?1015l\x1b[?1002l\x1b[?1000l",
            },
            TerminalFamily::Linux => FunctionSequences {
                enter: "",
                exit: "",
                show_cursor: "\x1b[?25h\x1b[?0c",
                hide_cursor: "\x1b[?25l\x1b[?1c",
                clear_screen: "\x1b[H\x1b[J",
                reset_all_attributes: "\x1b[0;10m",
                underline: "\x1b[4m",
                bold: "\x1b[1m",
                blink: "\x1b[5m",
                reverse: "\x1b[7m",
                enter_keypad: "",
                exit_keypad: "",
                enter_mouse: "",
                exit_mouse: "",
            },
            TerminalFamily::Xterm => FunctionSequences {
                enter: "\x1b[?1049h",
                exit: "\x1b[?1049l",
                show_cursor: "\x1b[?12l\x1b[?25h",
                hide_cursor: "\x1b[?25l",
                clear_screen: "\x1b[H\x1b[2J",
                reset_all_attributes: "\x1b(B\x1b[m",
                underline: "\x1b[4m",
                bold: "\x1b[1m",
                blink: "\x1b[5m",
                reverse: "\x1b[7m",
                enter_keypad: "\x1b[?1h\x1b=",
                exit_keypad: "\x1b[?1l\x1b>",
                enter_mouse: "\x1b[?1000h\x1b[?1002h\x1b[?1015h\x1b[?1006h",
                exit_mouse: "\x1b[?1006l\x1b[?1015l\x1b[?1002l\x1b[?1000l",
            },
        }
    }

    /// The name by which a terminal of the family announces itself.
    pub fn name(self) -> (name: &'static str)
        ensures
            name@ == self.name_spec(),
    {
        match self {
            TerminalFamily::Rxvt256Color => "rxvt-256color",
            TerminalFamily::Eterm => "Eterm",
            TerminalFamily::Screen => "screen",
            TerminalFamily::RxvtUnicode => "rxvt-unicode",
            TerminalFamily::Linux => "linux",
            TerminalFamily::Xterm => "xterm",
        }
    }

    /// The control sequences of the family.
    pub fn sequences(self) -> (sequences: FunctionSequences)
        ensures
            sequences == self.sequences_spec(),
    {
        match self {
            TerminalFamily::Rxvt256Color => FunctionSequences {
                enter: "\x1b7\x1b[?47h",
                exit: "\x1b[2J\x1b[?47l\x1b8",
                show_cursor: "\x1b[?25h",
                hide_cursor: "\x1b[?25l",
                clear_screen: "\x1b[H\x1b[2J",
                reset_all_attributes: "\x1b[m",
                underline: "\x1b[4m",
                bold: "\x1b[1m",
                blink: "\x1b[5m",
                reverse: "\x1b[7m",
                enter_keypad: "\x1b=",
                exit_keypad: "\x1b>",
                enter_mouse: "\x1b[?1000h\x1b[?1002h\x1b[?1015h\x1b[?1006h",
                exit_mouse: "\x1b[?1006l\x1b[?1015l\x1b[?1002l\x1b[?1000l",
            },
            TerminalFamily::Eterm => FunctionSequences {
                enter: "\x1b7\x1b[?47h",
                exit: "\x1b[2J\x1b[?47l\x1b8",
                show_cursor: "\x1b[?25h",
                hide_cursor: "\x1b[?25l",
                clear_screen: "\x1b[H\x1b[2J",
                reset_all_attributes: "\x1b[m",
                underline: "\x1b[4m",
                bold: "\x1b[1m",
                blink: "\x1b[5m",
                reverse: "\x1b[7m",
                enter_keypad: "",
                exit_keypad: "",
                enter_mouse: "",
                exit_mouse: "",
            },
            TerminalFamily::Screen => FunctionSequences {
                enter: "\x1b[?1049h",
                exit: "\x1b[?1049l",
                show_cursor: "\x1b[34h\x1b[?25h",
                hide_cursor: "\x1b[?25l",
                clear_screen: "\x1b[H\x1b[2J",
                reset_all_attributes: "\x1b[m",
                underline: "\x1b[4m",
                bold: "\x1b[1m",
                blink: "\x1b[5m",
                reverse: "\x1b[7m",
                enter_keypad: "\x1b[?1h\x1b=",
                exit_keypad: "\x1b[?1l\x1b>",
                enter_mouse: "\x1b[?1000h\x1b[?1002h\x1b[?1015h\x1b[?1006h",
                exit_mouse: "\x1b[?1006l\x1b[?1015l\x1b[?1002l\x1b[?1000l",
            },
            TerminalFamily::RxvtUnicode => FunctionSequences {
                enter: "\x1b[?1049h",
                exit: "\x1b[r\x1b[?1049l",
                show_cursor: "\x1b[?25h",
                hide_cursor: "\x1b[?25l",
                clear_screen: "\x1b[H\x1b[2J",
                reset_all_attributes: "\x1b[m\x1b(B",
                underline: "\x1b[4m",
                bold: "\x1b[1m",
                blink: "\x1b[5m",
                reverse: "\x1b[7m",
                enter_keypad: "\x1b=",
                exit_keypad: "\x1b>",
                enter_mouse: "\x1b[?1000h\x1b[?1002h\x1b[?1015h\x1b[?1006h",
                exit_mouse: "\x1b[?1006l\x1b[?1015l\x1b[?1002l\x1b[?1000l",
            },
            TerminalFamily::Linux => FunctionSequences {
                enter: "",
                exit: "",
                show_cursor: "\x1b[?25h\x1b[?0c",
                hide_cursor: "\x1b[?25l\x1b[?1c",
                clear_screen: "\x1b[H\x1b[J",
                reset_all_attributes: "\x1b[0;10m",
                underline: "\x1b[4m",
                bold: "\x1b[1m",
                blink: "\x1b[5m",
                reverse: "\x1b[7m",
                enter_keypad: "",
                exit_keypad: "",
                enter_mouse: "",
                exit_mouse: "",
            },
            TerminalFamily::Xterm => FunctionSequences {
                enter: "\x1b[?1049h",
                exit: "\x1b[?1049l",
                show_cursor: "\x1b[?12l\x1b[?25h",
                hide_cursor: "\x1b[?25l",
                clear_screen: "\x1b[H\x1b[2J",
                reset_all_attributes: "\x1b(B\x1b[m",
                underline: "\x1b[4m",
                bold: "\x1b[1m",
                blink: "\x1b[5m",
                reverse: "\x1b[7m",
                enter_keypad: "\x1b[?1h\x1b=",
                exit_keypad: "\x1b[?1l\x1b>",
                enter_mouse: "\x1b[?1000h\x1b[?1002h\x1b[?1015h\x1b[?1006h",
                exit_mouse: "\x1b[?1006l\x1b[?1015l\x1b[?1002l\x1b[?1000l",
            },
        }
    }
}

} // verus!
