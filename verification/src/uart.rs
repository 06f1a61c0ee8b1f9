//! Classification of received UART bytes into editor commands.

use vstd::prelude::*;

verus! {

/// A receiver fault reported by the serial peripheral, as the firmware
/// models it: one flag per hardware error condition.
#[derive(Clone, Copy, Debug, PartialEq, Eq, Structural)]
pub enum RxError {
    Parity,
    Frame,
    Overflow,
    InconsistentSyncField,
    CollisionDetected,
}

/// A command for the line editor, decoded from one received byte or from a
/// receiver fault.
#[derive(Clone, Copy, Debug, PartialEq, Eq, Structural)]
pub enum UartCommand {
    CtrlC,
    Backspace,
    DataChar(char),
    Return,
    BufferFull,
    ReadError(RxError),
}

/// The command that one received byte stands for: delete (0x7f) is a
/// backspace, ETX (0x03) is control-C, carriage return submits the line,
/// and every other byte is literal data.
pub open spec fn spec_classify(b: u8) -> UartCommand {
    if b == 0x7f {
        UartCommand::Backspace
    } else if b == 0x03 {
        UartCommand::CtrlC
    } else if b == 0x0d {
        UartCommand::Return
    } else {
        UartCommand::DataChar(b as char)
    }
}

/// Decodes one received byte into the command it stands for.
pub fn classify_byte(b: u8) -> (c: UartCommand)
    ensures
        c == spec_classify(b),
{
    match b as char {
        '\u{7f}' => UartCommand::Backspace,
        '\u{3}' => UartCommand::CtrlC,
        '\r' => UartCommand::Return,
        ch => UartCommand::DataChar(ch),
    }
}

} // verus!
