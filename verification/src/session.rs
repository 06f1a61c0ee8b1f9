//! The console session: a bounded line buffer driven by decoded UART
//! commands. Each step says what the terminal and the EEPROM task must do
//! next; performing those effects is the caller's business.

use crate::buffer::{
    byte_len, line_chars, line_clear, line_new, line_pop, line_push, line_to_chars, utf8_len,
};
use crate::parse::{parse_line, spec_parse_line, Action};
use crate::uart::UartCommand;
use vstd::prelude::*;

verus! {

/// What the caller must do after one step of the session.
#[derive(Clone, Copy, Debug, PartialEq, Eq, Structural)]
pub enum Effect {
    /// Run the parsed EEPROM command.
    Execute(Action, usize, usize),
    /// Report that the submitted line did not parse.
    ParseFailure,
    /// Reprint the edited line.
    RedrawLine,
    /// The buffer is full: queue a buffer-full notice.
    Requeue,
    /// Clear the terminal screen.
    ClearScreen,
    /// Report a failure or unsupported command.
    ReportError,
    /// Nothing to do.
    Nothing,
}

/// One console session: the line typed so far.
pub struct Session {
    line: heapless::String<256>,
}

impl Session {
    /// The characters typed so far.
    pub closed spec fn contents(self) -> Seq<char> {
        line_chars(self.line)
    }

    /// The line fits in the 256 bytes of the buffer.
    pub open spec fn fits(self) -> bool {
        byte_len(self.contents()) <= 256
    }

    /// Opens a session with an empty line.
    pub fn new() -> (s: Session)
        ensures
            s.contents() == Seq::<char>::empty(),
            s.fits(),
    {
        Session { line: line_new() }
    }

    /// Hands out the characters typed so far, for reprinting the line.
    pub fn current_line(&self) -> (v: Vec<char>)
        ensures
            v@ == self.contents(),
    {
        line_to_chars(&self.line)
    }

    /// Advances the session by one decoded command.
    ///
    /// A carriage return submits the line: the buffer is cleared and the
    /// parsed command, or a parse failure, is handed back. A data character
    /// is appended when its encoding fits in the 256 bytes of the buffer
    /// and rejected otherwise; backspace drops the last character;
    /// control-C wipes line and screen; a buffer-full notice or receiver
    /// fault is only reported.
    pub fn handle(&mut self, cmd: UartCommand) -> (e: Effect)
        ensures
            cmd is Return ==> final(self).contents() == Seq::<char>::empty() && (match spec_parse_line(
                old(self).contents(),
            ) {
                Some((a, x, y)) => e == Effect::Execute(a, x, y),
                None => e == Effect::ParseFailure,
            }),
            cmd matches UartCommand::DataChar(c) ==> (if byte_len(old(self).contents())
                + utf8_len(c) <= 256 {
                final(self).contents() == old(self).contents().push(c) && e == Effect::RedrawLine
            } else {
                final(self).contents() == old(self).contents() && e == Effect::Requeue
            }),
            cmd is Backspace ==> (if old(self).contents().len() > 0 {
                final(self).contents() == old(self).contents().drop_last() && e
                    == Effect::RedrawLine
            } else {
                final(self).contents() == old(self).contents() && e == Effect::Nothing
            }),
            cmd is CtrlC ==> final(self).contents() == Seq::<char>::empty() && e
                == Effect::ClearScreen,
            cmd is BufferFull || cmd is ReadError ==> final(self).contents() == old(
                self,
            ).contents() && e == Effect::ReportError,
            old(self).fits() ==> final(self).fits(),
    {
        proof {
            if old(self).contents().len() > 0 {
                assert(byte_len(old(self).contents()) == byte_len(
                    old(self).contents().drop_last(),
                ) + utf8_len(old(self).contents().last()));
            }
        }
        match cmd {
            UartCommand::Return => {
                let chars = line_to_chars(&self.line);
                let parsed = parse_line(&chars);
                line_clear(&mut self.line);
                match parsed {
                    Some((a, x, y)) => Effect::Execute(a, x, y),
                    None => Effect::ParseFailure,
                }
            },
            UartCommand::DataChar(c) => {
                match line_push(&mut self.line, c) {
                    Ok(_) => {
                        proof {
                            assert(self.contents().drop_last() =~= old(self).contents());
                            assert(self.contents().last() == c);
                        }
                        Effect::RedrawLine
                    },
                    Err(_) => Effect::Requeue,
                }
            },
            UartCommand::Backspace => {
                match line_pop(&mut self.line) {
                    Some(_) => Effect::RedrawLine,
                    None => Effect::Nothing,
                }
            },
            UartCommand::CtrlC => {
                line_clear(&mut self.line);
                Effect::ClearScreen
            },
            UartCommand::BufferFull => Effect::ReportError,
            UartCommand::ReadError(_) => Effect::ReportError,
        }
    }
}

} // verus!
