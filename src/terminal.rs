//! The console state machine: raw input mode, escape-sequence processing on
//! output, and the alternate screen buffer. Each transition takes what the
//! console reported and returns what must be applied to it.
use vstd::prelude::*;
use vstd::utf8::valid_utf8;

use crate::error::Error;
use crate::escape::{enter_alternate, enter_alternate_bytes, exit_alternate, exit_alternate_bytes};

verus! {

/// Input mode bit: Ctrl+C and similar keys are handled by the console.
pub const ENABLE_PROCESSED_INPUT: u32 = 0x0001;

/// Input mode bit: input is delivered a line at a time.
pub const ENABLE_LINE_INPUT: u32 = 0x0002;

/// Input mode bit: typed characters are echoed.
pub const ENABLE_ECHO_INPUT: u32 = 0x0004;

/// Output mode bit: escape sequences are interpreted.
pub const ENABLE_VIRTUAL_TERMINAL_PROCESSING: u32 = 0x0004;

/// The key byte (Ctrl+Q) that ends an input loop.
pub const QUIT_KEY: u8 = 17;

/// Raw input: `mode` without echo, line input and processed input.
pub open spec fn raw_input_mode(mode: u32) -> u32 {
    mode & !(ENABLE_ECHO_INPUT | ENABLE_LINE_INPUT | ENABLE_PROCESSED_INPUT)
}

/// `mode` with escape-sequence processing switched on.
pub open spec fn virtual_terminal_mode(mode: u32) -> u32 {
    mode | ENABLE_VIRTUAL_TERMINAL_PROCESSING
}

/// The state of a terminal: the modes in force, the modes saved for
/// restoration, and which of the three features is on.
pub ghost struct TerminalView {
    pub input_mode: u32,
    pub output_mode: u32,
    pub saved_input_mode: u32,
    pub saved_output_mode: u32,
    pub raw: bool,
    pub virtual_terminal: bool,
    pub alternate: bool,
}

impl TerminalView {
    pub open spec fn initial() -> TerminalView {
        TerminalView {
            input_mode: 0,
            output_mode: 0,
            saved_input_mode: 0,
            saved_output_mode: 0,
            raw: false,
            virtual_terminal: false,
            alternate: false,
        }
    }

    /// Raw mode switched on from the input mode `mode`; once on, a second
    /// request changes nothing, so the saved mode stays the original one.
    pub open spec fn enable_raw(self, mode: u32) -> TerminalView {
        if self.raw {
            self
        } else {
            TerminalView {
                input_mode: raw_input_mode(mode),
                saved_input_mode: mode,
                raw: true,
                ..self
            }
        }
    }

    /// The input mode to restore when raw mode is switched off, if it is on.
    pub open spec fn input_to_restore(self) -> Option<u32> {
        if self.raw {
            Some(self.saved_input_mode)
        } else {
            None
        }
    }

    pub open spec fn disable_raw(self) -> TerminalView {
        if self.raw {
            TerminalView { input_mode: self.saved_input_mode, raw: false, ..self }
        } else {
            self
        }
    }

    /// Escape-sequence processing switched on from the output mode `mode`.
    pub open spec fn enable_virtual_terminal(self, mode: u32) -> TerminalView {
        if self.virtual_terminal {
            self
        } else {
            TerminalView {
                output_mode: virtual_terminal_mode(mode),
                saved_output_mode: mode,
                virtual_terminal: true,
                ..self
            }
        }
    }

    /// The output mode to restore when processing is switched off, if it is on.
    pub open spec fn output_to_restore(self) -> Option<u32> {
        if self.virtual_terminal {
            Some(self.saved_output_mode)
        } else {
            None
        }
    }

    pub open spec fn disable_virtual_terminal(self) -> TerminalView {
        if self.virtual_terminal {
            TerminalView {
                output_mode: self.saved_output_mode,
                virtual_terminal: false,
                ..self
            }
        } else {
            self
        }
    }

    /// The bytes written on entering the alternate buffer: none when it is
    /// already active.
    pub open spec fn enter_bytes(self) -> Seq<u8> {
        if self.alternate {
            Seq::empty()
        } else {
            enter_alternate_bytes()
        }
    }

    /// The bytes written on leaving the alternate buffer: none when it is
    /// not active.
    pub open spec fn exit_bytes(self) -> Seq<u8> {
        if self.alternate {
            exit_alternate_bytes()
        } else {
            Seq::empty()
        }
    }

    pub open spec fn enter_alternate(self) -> TerminalView {
        TerminalView { alternate: true, ..self }
    }

    pub open spec fn exit_alternate(self) -> TerminalView {
        TerminalView { alternate: false, ..self }
    }

    /// The state after teardown: alternate buffer left, output mode restored,
    /// input mode restored.
    pub open spec fn closed(self) -> TerminalView {
        self.exit_alternate().disable_virtual_terminal().disable_raw()
    }
}

/// What teardown must do, in this order: write `exit_sequence` (and flush),
/// then set the output mode, then set the input mode. A step that fails
/// does not stop the later ones.
pub struct Teardown {
    pub exit_sequence: Vec<u8>,
    pub output_mode: Option<u32>,
    pub input_mode: Option<u32>,
}

/// Console state of a terminal session.
pub struct Terminal {
    input_mode: u32,
    output_mode: u32,
    saved_input_mode: u32,
    saved_output_mode: u32,
    raw: bool,
    virtual_terminal: bool,
    alternate: bool,
}

impl View for Terminal {
    type V = TerminalView;

    closed spec fn view(&self) -> TerminalView {
        TerminalView {
            input_mode: self.input_mode,
            output_mode: self.output_mode,
            saved_input_mode: self.saved_input_mode,
            saved_output_mode: self.saved_output_mode,
            raw: self.raw,
            virtual_terminal: self.virtual_terminal,
            alternate: self.alternate,
        }
    }
}

impl Terminal {
    /// A terminal with nothing switched on yet.
    pub fn new() -> (r: Terminal)
        ensures
            r@ == TerminalView::initial(),
    {
        Terminal {
            input_mode: 0,
            output_mode: 0,
            saved_input_mode: 0,
            saved_output_mode: 0,
            raw: false,
            virtual_terminal: false,
            alternate: false,
        }
    }

    /// Switches to raw input. `current` is the input mode that the console
    /// reported, or `None` when the query failed. Returns the mode to apply,
    /// or `None` when raw mode is already on and nothing is to be done.
    pub fn enable_raw_mode(&mut self, current: Option<u32>) -> (r: Result<Option<u32>, Error>)
        ensures
            old(self)@.raw ==> r == Ok::<Option<u32>, Error>(None) && final(self)@ == old(self)@,
            !old(self)@.raw ==> match current {
                Some(m) => r == Ok::<Option<u32>, Error>(Some(raw_input_mode(m)))
                    && final(self)@ == old(self)@.enable_raw(m),
                None => r == Err::<Option<u32>, Error>(Error::ModeQueryFailure)
                    && final(self)@ == old(self)@,
            },
    {
        if self.raw {
            return Ok(None);
        }
        match current {
            Some(m) => {
                let mode = m & !(ENABLE_ECHO_INPUT | ENABLE_LINE_INPUT | ENABLE_PROCESSED_INPUT);
                self.saved_input_mode = m;
                self.input_mode = mode;
                self.raw = true;
                Ok(Some(mode))
            },
            None => Err(Error::ModeQueryFailure),
        }
    }

    /// Leaves raw input. Returns the saved input mode to apply, or `None`
    /// when raw mode is not on.
    pub fn disable_raw_mode(&mut self) -> (r: Option<u32>)
        ensures
            r == old(self)@.input_to_restore(),
            final(self)@ == old(self)@.disable_raw(),
    {
        if self.raw {
            self.input_mode = self.saved_input_mode;
            self.raw = false;
            Some(self.saved_input_mode)
        } else {
            None
        }
    }

    /// Switches on escape-sequence processing. `current` is the output mode
    /// that the console reported, or `None` when the query failed. Returns the
    /// mode to apply, or `None` when processing is already on.
    pub fn enable_virtual_terminal_processing(&mut self, current: Option<u32>)
        -> (r: Result<Option<u32>, Error>)
        ensures
            old(self)@.virtual_terminal ==> r == Ok::<Option<u32>, Error>(None)
                && final(self)@ == old(self)@,
            !old(self)@.virtual_terminal ==> match current {
                Some(m) => r == Ok::<Option<u32>, Error>(Some(virtual_terminal_mode(m)))
                    && final(self)@ == old(self)@.enable_virtual_terminal(m),
                None => r == Err::<Option<u32>, Error>(Error::ModeQueryFailure)
                    && final(self)@ == old(self)@,
            },
    {
        if self.virtual_terminal {
            return Ok(None);
        }
        match current {
            Some(m) => {
                let mode = m | ENABLE_VIRTUAL_TERMINAL_PROCESSING;
                self.saved_output_mode = m;
                self.output_mode = mode;
                self.virtual_terminal = true;
                Ok(Some(mode))
            },
            None => Err(Error::ModeQueryFailure),
        }
    }

    /// Switches off escape-sequence processing. Returns the saved output mode
    /// to apply, or `None` when processing is not on.
    pub fn disable_virtual_terminal_processing(&mut self) -> (r: Option<u32>)
        ensures
            r == old(self)@.output_to_restore(),
            final(self)@ == old(self)@.disable_virtual_terminal(),
    {
        if self.virtual_terminal {
            self.output_mode = self.saved_output_mode;
            self.virtual_terminal = false;
            Some(self.saved_output_mode)
        } else {
            None
        }
    }

    /// The bytes to write (and flush) to enter the alternate buffer; empty
    /// when it is already active.
    pub fn enter_alternate_buffer(&mut self) -> (r: Vec<u8>)
        ensures
            r@ == old(self)@.enter_bytes(),
            final(self)@ == old(self)@.enter_alternate(),
    {
        if self.alternate {
            Vec::new()
        } else {
            self.alternate = true;
            enter_alternate()
        }
    }

    /// The bytes to write (and flush) to leave the alternate buffer; empty
    /// when it is not active.
    pub fn exit_alternate_buffer(&mut self) -> (r: Vec<u8>)
        ensures
            r@ == old(self)@.exit_bytes(),
            final(self)@ == old(self)@.exit_alternate(),
    {
        if self.alternate {
            self.alternate = false;
            exit_alternate()
        } else {
            Vec::new()
        }
    }

    /// Undoes the whole setup, in reverse order of setup.
    pub fn close(&mut self) -> (r: Teardown)
        ensures
            r.exit_sequence@ == old(self)@.exit_bytes(),
            r.output_mode == old(self)@.output_to_restore(),
            r.input_mode == old(self)@.input_to_restore(),
            final(self)@ == old(self)@.closed(),
    {
        let exit_sequence = self.exit_alternate_buffer();
        let output_mode = self.disable_virtual_terminal_processing();
        let input_mode = self.disable_raw_mode();
        Teardown { exit_sequence, output_mode, input_mode }
    }

    pub fn is_raw(&self) -> (r: bool)
        ensures
            r == self@.raw,
    {
        self.raw
    }

    pub fn is_virtual_terminal(&self) -> (r: bool)
        ensures
            r == self@.virtual_terminal,
    {
        self.virtual_terminal
    }

    pub fn in_alternate_buffer(&self) -> (r: bool)
        ensures
            r == self@.alternate,
    {
        self.alternate
    }
}

/// Switching raw mode on from input mode `m` and straight off again hands
/// back exactly `m` to restore, leaves `m` as the input mode in force and
/// touches nothing else but the saved copy; a repeated request in between
/// does not disturb the saved mode.
pub proof fn lemma_raw_mode_round_trip(t: TerminalView, m: u32, again: u32)
    requires
        !t.raw,
    ensures
        t.enable_raw(m).input_to_restore() == Some(m),
        t.enable_raw(m).disable_raw() == (TerminalView { input_mode: m, saved_input_mode: m, ..t }),
        t.enable_raw(m).enable_raw(again).input_to_restore() == Some(m),
{
}

/// The same round trip for escape-sequence processing on the output mode.
pub proof fn lemma_virtual_terminal_round_trip(t: TerminalView, m: u32, again: u32)
    requires
        !t.virtual_terminal,
    ensures
        t.enable_virtual_terminal(m).output_to_restore() == Some(m),
        t.enable_virtual_terminal(m).disable_virtual_terminal() == (TerminalView {
            output_mode: m,
            saved_output_mode: m,
            ..t
        }),
        t.enable_virtual_terminal(m).enable_virtual_terminal(again).output_to_restore() == Some(m),
{
}

/// Entering and then leaving the alternate buffer writes the enter sequence
/// and then the exit sequence; while it is active another enter writes
/// nothing, and once left another exit writes nothing, so no other
/// alternate-buffer sequence comes between the pair or after it.
pub proof fn lemma_alternate_buffer_pairing(t: TerminalView)
    requires
        !t.alternate,
    ensures
        t.enter_bytes() == enter_alternate_bytes(),
        t.enter_alternate().enter_bytes() == Seq::<u8>::empty(),
        t.enter_alternate().exit_bytes() == exit_alternate_bytes(),
        t.enter_alternate().exit_alternate() == t,
        t.enter_alternate().exit_alternate().exit_bytes() == Seq::<u8>::empty(),
{
}

/// What an input loop does with the bytes of one read.
#[derive(Clone, Copy, Debug, PartialEq, Eq, Structural)]
pub enum InputAction {
    /// Stop reading: the input ended, or the quit key came.
    Stop,
    /// Write the bytes back to the screen as text.
    Echo,
    /// Read on without writing anything.
    Ignore,
}

/// The decision for the bytes of one read, `text` telling whether they are
/// valid UTF-8.
pub open spec fn input_action_of(bytes: Seq<u8>, text: bool) -> InputAction {
    if bytes.len() == 0 || bytes[0] == QUIT_KEY {
        InputAction::Stop
    } else if text {
        InputAction::Echo
    } else {
        InputAction::Ignore
    }
}

/// Decides what to do with the bytes of one read, given whether they are
/// valid UTF-8: a read of no bytes (end of input) or one that starts with
/// the quit key stops the loop.
pub fn input_action(bytes: &[u8], text: bool) -> (r: InputAction)
    ensures
        r == input_action_of(bytes@, text),
{
    if bytes.len() == 0 || bytes[0] == QUIT_KEY {
        InputAction::Stop
    } else if text {
        InputAction::Echo
    } else {
        InputAction::Ignore
    }
}

/// Relies on std::str::from_utf8: it succeeds exactly when the bytes are
/// well-formed UTF-8.
#[verifier::external_body]
fn is_utf8(bytes: &[u8]) -> (r: bool)
    ensures
        r == valid_utf8(bytes@),
{
    std::str::from_utf8(bytes).is_ok()
}

/// Decides what to do with the bytes of one read.
pub fn on_input(bytes: &[u8]) -> (r: InputAction)
    ensures
        r == input_action_of(bytes@, valid_utf8(bytes@)),
{
    let text = is_utf8(bytes);
    input_action(bytes, text)
}

} // verus!
