//! The instruction set: which command a cell value stands for.

use vstd::prelude::*;

verus! {

/// The command that a cell selects when the pointer executes it.
#[derive(Clone, Copy, Debug, PartialEq, Eq, Structural)]
pub enum BefungeCommand {
    /// ` `: nothing.
    NoOp,
    /// `!`: pop `a`; push `1` if `a` is zero, else `0`.
    Negate,
    /// `"`: enter string mode.
    ToggleStringMode,
    /// `#`: skip the next cell.
    Bridge,
    /// `$`: pop and drop one value.
    Discard,
    /// `%`: pop `a`, pop `b`; push the remainder of `a` divided by `b`.
    Modulo,
    /// `&`: push an integer read from the input.
    ReadInt,
    /// `*`: pop `a`, pop `b`; push `a * b`.
    Multiply,
    /// `+`: pop `a`, pop `b`; push `a + b`.
    Add,
    /// `,`: pop `a`; write it as a character.
    WriteChar,
    /// `-`: pop `a`, pop `b`; push `a - b`.
    Subtract,
    /// `.`: pop `a`; write it as a number.
    WriteInt,
    /// `/`: pop `a`, pop `b`; push the quotient of `a` by `b`.
    Divide,
    /// `:`: duplicate the top value.
    Duplicate,
    /// `<`: travel left.
    Left,
    /// `>`: travel right.
    Right,
    /// `?`: travel in a direction chosen at random.
    Random,
    /// `@`: halt.
    Stop,
    /// `\`: swap the two top values.
    Swap,
    /// `^`: travel up.
    Up,
    /// `_`: pop `a`; travel left if `a > 0`, else right.
    IfLeftRight,
    /// `` ` ``: pop `a`, pop `b`; push `1` if `a > b`, else `0`.
    Compare,
    /// `g`: pop a row, pop a column; push the cell there, if it is on the field.
    ReadCell,
    /// `p`: pop a row, pop a column, pop a value; write the value to that cell.
    WriteCell,
    /// `v`: travel down.
    Down,
    /// `|`: pop `a`; travel up if `a > 0`, else down.
    IfUpDown,
    /// `~`: push the code of a character read from the input.
    ReadChar,
    /// `0` to `9`: push the digit's value.
    Digit(i32),
    /// Any other cell: push its value.
    Push(i32),
}

/// The command that cell value `c` selects.
pub open spec fn command_of(c: i32) -> BefungeCommand {
    if c == ' ' as i32 {
        BefungeCommand::NoOp
    } else if c == '!' as i32 {
        BefungeCommand::Negate
    } else if c == '"' as i32 {
        BefungeCommand::ToggleStringMode
    } else if c == '#' as i32 {
        BefungeCommand::Bridge
    } else if c == '$' as i32 {
        BefungeCommand::Discard
    } else if c == '%' as i32 {
        BefungeCommand::Modulo
    } else if c == '&' as i32 {
        BefungeCommand::ReadInt
    } else if c == '*' as i32 {
        BefungeCommand::Multiply
    } else if c == '+' as i32 {
        BefungeCommand::Add
    } else if c == ',' as i32 {
        BefungeCommand::WriteChar
    } else if c == '-' as i32 {
        BefungeCommand::Subtract
    } else if c == '.' as i32 {
        BefungeCommand::WriteInt
    } else if c == '/' as i32 {
        BefungeCommand::Divide
    } else if '0' as i32 <= c <= '9' as i32 {
        BefungeCommand::Digit((c - '0' as i32) as i32)
    } else if c == ':' as i32 {
        BefungeCommand::Duplicate
    } else if c == '<' as i32 {
        BefungeCommand::Left
    } else if c == '>' as i32 {
        BefungeCommand::Right
    } else if c == '?' as i32 {
        BefungeCommand::Random
    } else if c == '@' as i32 {
        BefungeCommand::Stop
    } else if c == '\\' as i32 {
        BefungeCommand::Swap
    } else if c == '^' as i32 {
        BefungeCommand::Up
    } else if c == '_' as i32 {
        BefungeCommand::IfLeftRight
    } else if c == '`' as i32 {
        BefungeCommand::Compare
    } else if c == 'g' as i32 {
        BefungeCommand::ReadCell
    } else if c == 'p' as i32 {
        BefungeCommand::WriteCell
    } else if c == 'v' as i32 {
        BefungeCommand::Down
    } else if c == '|' as i32 {
        BefungeCommand::IfUpDown
    } else if c == '~' as i32 {
        BefungeCommand::ReadChar
    } else {
        BefungeCommand::Push(c)
    }
}

/// The cell value of `"`, which toggles string mode.
pub const QUOTE: i32 = 34;

impl BefungeCommand {
    /// The command that cell value `c` selects.
    pub fn decode(c: i32) -> (r: BefungeCommand)
        ensures
            r == command_of(c),
    {
        if c == ' ' as i32 {
            BefungeCommand::NoOp
        } else if c == '!' as i32 {
            BefungeCommand::Negate
        } else if c == '"' as i32 {
            BefungeCommand::ToggleStringMode
        } else if c == '#' as i32 {
            BefungeCommand::Bridge
        } else if c == '$' as i32 {
            BefungeCommand::Discard
        } else if c == '%' as i32 {
            BefungeCommand::Modulo
        } else if c == '&' as i32 {
            BefungeCommand::ReadInt
        } else if c == '*' as i32 {
            BefungeCommand::Multiply
        } else if c == '+' as i32 {
            BefungeCommand::Add
        } else if c == ',' as i32 {
            BefungeCommand::WriteChar
        } else if c == '-' as i32 {
            BefungeCommand::Subtract
        } else if c == '.' as i32 {
            BefungeCommand::WriteInt
        } else if c == '/' as i32 {
            BefungeCommand::Divide
        } else if '0' as i32 <= c && c <= '9' as i32 {
            BefungeCommand::Digit(c - '0' as i32)
        } else if c == ':' as i32 {
            BefungeCommand::Duplicate
        } else if c == '<' as i32 {
            BefungeCommand::Left
        } else if c == '>' as i32 {
            BefungeCommand::Right
        } else if c == '?' as i32 {
            BefungeCommand::Random
        } else if c == '@' as i32 {
            BefungeCommand::Stop
        } else if c == '\\' as i32 {
            BefungeCommand::Swap
        } else if c == '^' as i32 {
            BefungeCommand::Up
        } else if c == '_' as i32 {
            BefungeCommand::IfLeftRight
        } else if c == '`' as i32 {
            BefungeCommand::Compare
        } else if c == 'g' as i32 {
            BefungeCommand::ReadCell
        } else if c == 'p' as i32 {
            BefungeCommand::WriteCell
        } else if c == 'v' as i32 {
            BefungeCommand::Down
        } else if c == '|' as i32 {
            BefungeCommand::IfUpDown
        } else if c == '~' as i32 {
            BefungeCommand::ReadChar
        } else {
            BefungeCommand::Push(c)
        }
    }
}

} // verus!
