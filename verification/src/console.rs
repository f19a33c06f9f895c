//! The console raw-mode controller.
//!
//! The console is modeled by the codepages and mode-flag words it was captured
//! with and the ones currently applied. Entering raw mode is an explicit
//! transformation on those words: clear the line-buffering, local-echo,
//! insertion and preprocessing capabilities of the input mode and add the
//! window-event and raw-escape capabilities; add the post-process,
//! escape-interpretation and suppress-auto-newline capabilities to the output
//! mode. The operating-system calls that read and apply these words live
//! outside the library and report back whether each one succeeded.

use vstd::prelude::*;

use crate::error::ErrorKind;

verus! {

/// Input-mode capability: input is gathered into lines before delivery
/// (the Win32 `ENABLE_LINE_INPUT` flag).
pub const INPUT_LINE_BUFFERING: u32 = 0x0002;

/// Input-mode capability: typed characters are echoed locally
/// (the Win32 `ENABLE_ECHO_INPUT` flag).
pub const INPUT_LOCAL_ECHO: u32 = 0x0004;

/// Input-mode capability: insertion mode for line editing
/// (the Win32 `ENABLE_INSERT_MODE` flag).
pub const INPUT_INSERTION: u32 = 0x0020;

/// Input-mode capability: control characters are preprocessed by the system
/// (the Win32 `ENABLE_PROCESSED_INPUT` flag).
pub const INPUT_PREPROCESSING: u32 = 0x0001;

/// Input-mode capability: window-size events are delivered in the input stream
/// (the Win32 `ENABLE_WINDOW_INPUT` flag).
pub const INPUT_WINDOW_EVENTS: u32 = 0x0008;

/// Input-mode capability: raw escape sequences are accepted as input
/// (the Win32 `ENABLE_VIRTUAL_TERMINAL_INPUT` flag).
pub const INPUT_RAW_ESCAPES: u32 = 0x0200;

/// Output-mode capability: output is post-processed by the system
/// (the Win32 `ENABLE_PROCESSED_OUTPUT` flag).
pub const OUTPUT_POSTPROCESS: u32 = 0x0001;

/// Output-mode capability: escape sequences in output are interpreted
/// (the Win32 `ENABLE_VIRTUAL_TERMINAL_PROCESSING` flag).
pub const OUTPUT_ESCAPE_INTERPRETATION: u32 = 0x0004;

/// Output-mode capability: automatic carriage-return on line feed is
/// suppressed (the Win32 `DISABLE_NEWLINE_AUTO_RETURN` flag).
pub const OUTPUT_SUPPRESS_AUTO_NEWLINE: u32 = 0x0008;

/// The universal text encoding both codepages are set to for the relay
/// (the UTF-8 codepage identifier).
pub const UTF8_CODEPAGE: u32 = 65001;

/// The input-mode capabilities cleared or added on entering raw mode.
pub const INPUT_RAW_TOUCHED: u32 = INPUT_LINE_BUFFERING | INPUT_LOCAL_ECHO | INPUT_INSERTION
    | INPUT_PREPROCESSING | INPUT_WINDOW_EVENTS | INPUT_RAW_ESCAPES;

/// The output-mode capabilities added on entering raw mode.
pub const OUTPUT_RAW_TOUCHED: u32 = OUTPUT_POSTPROCESS | OUTPUT_ESCAPE_INTERPRETATION
    | OUTPUT_SUPPRESS_AUTO_NEWLINE;

/// The raw input mode: the original mode minus line buffering, local echo,
/// insertion and preprocessing, plus window events and raw escapes.
pub open spec fn spec_raw_input_mode(orig: u32) -> u32 {
    (orig & !(INPUT_LINE_BUFFERING | INPUT_LOCAL_ECHO | INPUT_INSERTION | INPUT_PREPROCESSING))
        | INPUT_WINDOW_EVENTS | INPUT_RAW_ESCAPES
}

/// The raw output mode: the original mode plus post-processing, escape
/// interpretation and auto-newline suppression.
pub open spec fn spec_raw_output_mode(orig: u32) -> u32 {
    orig | OUTPUT_POSTPROCESS | OUTPUT_ESCAPE_INTERPRETATION | OUTPUT_SUPPRESS_AUTO_NEWLINE
}

/// Compute the input-mode word for raw byte relay from the captured one.
pub fn raw_input_mode(orig: u32) -> (mode: u32)
    ensures
        mode == spec_raw_input_mode(orig),
{
    (orig & !(INPUT_LINE_BUFFERING | INPUT_LOCAL_ECHO | INPUT_INSERTION | INPUT_PREPROCESSING))
        | INPUT_WINDOW_EVENTS | INPUT_RAW_ESCAPES
}

/// Compute the output-mode word for raw byte relay from the captured one.
pub fn raw_output_mode(orig: u32) -> (mode: u32)
    ensures
        mode == spec_raw_output_mode(orig),
{
    orig | OUTPUT_POSTPROCESS | OUTPUT_ESCAPE_INTERPRETATION | OUTPUT_SUPPRESS_AUTO_NEWLINE
}

/// The raw input mode clears exactly the four line-discipline capabilities and
/// adds the two event-delivery ones.
pub proof fn lemma_raw_input_mode_capabilities(orig: u32)
    ensures
        spec_raw_input_mode(orig) & INPUT_LINE_BUFFERING == 0,
        spec_raw_input_mode(orig) & INPUT_LOCAL_ECHO == 0,
        spec_raw_input_mode(orig) & INPUT_INSERTION == 0,
        spec_raw_input_mode(orig) & INPUT_PREPROCESSING == 0,
        spec_raw_input_mode(orig) & INPUT_WINDOW_EVENTS != 0,
        spec_raw_input_mode(orig) & INPUT_RAW_ESCAPES != 0,
{
    assert(spec_raw_input_mode(orig) & INPUT_LINE_BUFFERING == 0
        && spec_raw_input_mode(orig) & INPUT_LOCAL_ECHO == 0
        && spec_raw_input_mode(orig) & INPUT_INSERTION == 0
        && spec_raw_input_mode(orig) & INPUT_PREPROCESSING == 0
        && spec_raw_input_mode(orig) & INPUT_WINDOW_EVENTS != 0
        && spec_raw_input_mode(orig) & INPUT_RAW_ESCAPES != 0) by (bit_vector);
}

/// Every input-mode capability outside the six touched ones keeps its
/// original value.
pub proof fn lemma_raw_input_mode_preserves_rest(orig: u32, mask: u32)
    requires
        mask & INPUT_RAW_TOUCHED == 0,
    ensures
        spec_raw_input_mode(orig) & mask == orig & mask,
{
    assert(spec_raw_input_mode(orig) & mask == orig & mask) by (bit_vector)
        requires
            mask & INPUT_RAW_TOUCHED == 0,
    ;
}

/// The raw output mode adds the three relay capabilities and clears nothing.
pub proof fn lemma_raw_output_mode_capabilities(orig: u32)
    ensures
        spec_raw_output_mode(orig) & OUTPUT_POSTPROCESS != 0,
        spec_raw_output_mode(orig) & OUTPUT_ESCAPE_INTERPRETATION != 0,
        spec_raw_output_mode(orig) & OUTPUT_SUPPRESS_AUTO_NEWLINE != 0,
        spec_raw_output_mode(orig) & orig == orig,
{
    assert(spec_raw_output_mode(orig) & OUTPUT_POSTPROCESS != 0
        && spec_raw_output_mode(orig) & OUTPUT_ESCAPE_INTERPRETATION != 0
        && spec_raw_output_mode(orig) & OUTPUT_SUPPRESS_AUTO_NEWLINE != 0
        && spec_raw_output_mode(orig) & orig == orig) by (bit_vector);
}

/// Every output-mode capability outside the three touched ones keeps its
/// original value.
pub proof fn lemma_raw_output_mode_preserves_rest(orig: u32, mask: u32)
    requires
        mask & OUTPUT_RAW_TOUCHED == 0,
    ensures
        spec_raw_output_mode(orig) & mask == orig & mask,
{
    assert(spec_raw_output_mode(orig) & mask == orig & mask) by (bit_vector)
        requires
            mask & OUTPUT_RAW_TOUCHED == 0,
    ;
}

/// The console state captured once at startup: input/output codepage
/// identifiers and the two mode-flag words. Restoration must reproduce these
/// values exactly, on every exit path.
#[derive(Clone, Copy, Debug, PartialEq, Eq, Structural)]
pub struct TerminalSnapshot {
    pub input_codepage: u32,
    pub output_codepage: u32,
    pub input_mode: u32,
    pub output_mode: u32,
}

/// The console controller: the snapshot captured at startup and the state the
/// console is currently believed to be in. The operating-system calls that
/// apply codepages and modes are made outside the library; each method here
/// records their reported outcomes and decides whether setup may go on.
#[derive(Clone, Copy, Debug)]
pub struct Console {
    /// The state captured before any mutation.
    pub captured: TerminalSnapshot,
    /// The state currently applied to the console.
    pub live: TerminalSnapshot,
}

/// The console state after entering raw mode, given which of the four
/// operating-system calls succeeded. The calls run in order — input codepage,
/// output codepage, input mode, output mode — and a codepage failure aborts
/// the sequence at once, while an input-mode failure is tolerated and the
/// sequence goes on.
pub open spec fn spec_setup(
    c: Console,
    input_cp_ok: bool,
    output_cp_ok: bool,
    input_mode_ok: bool,
    output_mode_ok: bool,
) -> Console {
    if !input_cp_ok {
        c
    } else {
        let live1 = TerminalSnapshot { input_codepage: UTF8_CODEPAGE, ..c.live };
        if !output_cp_ok {
            Console { captured: c.captured, live: live1 }
        } else {
            let live2 = TerminalSnapshot { output_codepage: UTF8_CODEPAGE, ..live1 };
            let live3 = if input_mode_ok {
                TerminalSnapshot {
                    input_mode: spec_raw_input_mode(c.captured.input_mode),
                    ..live2
                }
            } else {
                live2
            };
            let live4 = if output_mode_ok {
                TerminalSnapshot {
                    output_mode: spec_raw_output_mode(c.captured.output_mode),
                    ..live3
                }
            } else {
                live3
            };
            Console { captured: c.captured, live: live4 }
        }
    }
}

impl Console {
    /// Record the state the console was captured in. Called once at startup,
    /// before any mutation.
    pub fn new(
        input_codepage: u32,
        output_codepage: u32,
        input_mode: u32,
        output_mode: u32,
    ) -> (c: Console)
        ensures
            c.captured == (TerminalSnapshot {
                input_codepage,
                output_codepage,
                input_mode,
                output_mode,
            }),
            c.live == c.captured,
    {
        let snap = TerminalSnapshot { input_codepage, output_codepage, input_mode, output_mode };
        Console { captured: snap, live: snap }
    }

    /// Record the outcome of entering raw mode and decide whether setup
    /// succeeded. A codepage failure or an output-mode failure is fatal; an
    /// input-mode failure leaves the console in a degraded but usable state.
    /// The snapshot is never touched.
    pub fn setup(
        &mut self,
        input_cp_ok: bool,
        output_cp_ok: bool,
        input_mode_ok: bool,
        output_mode_ok: bool,
    ) -> (r: Result<(), ErrorKind>)
        ensures
            *final(self) == spec_setup(
                *old(self),
                input_cp_ok,
                output_cp_ok,
                input_mode_ok,
                output_mode_ok,
            ),
            final(self).captured == old(self).captured,
            r is Ok <==> (input_cp_ok && output_cp_ok && output_mode_ok),
            r matches Err(k) ==> k == ErrorKind::Io,
    {
        if !input_cp_ok {
            return Err(ErrorKind::Io);
        }
        self.live.input_codepage = UTF8_CODEPAGE;
        if !output_cp_ok {
            return Err(ErrorKind::Io);
        }
        self.live.output_codepage = UTF8_CODEPAGE;
        if input_mode_ok {
            self.live.input_mode = raw_input_mode(self.captured.input_mode);
        }
        if output_mode_ok {
            self.live.output_mode = raw_output_mode(self.captured.output_mode);
            Ok(())
        } else {
            Err(ErrorKind::Io)
        }
    }

    /// The values to reapply at shutdown: exactly the captured snapshot,
    /// whatever happened in between.
    pub fn restore(&mut self) -> (r: TerminalSnapshot)
        ensures
            r == old(self).captured,
            final(self).captured == old(self).captured,
            final(self).live == old(self).captured,
    {
        self.live = self.captured;
        self.captured
    }
}

/// The console guarantees atomic delivery or failure: a write that reports
/// fewer (or more) bytes than the whole buffer is a failure, never a silent
/// truncation.
pub fn check_write_complete(expected: usize, written: usize) -> (r: Result<(), ErrorKind>)
    ensures
        (r is Ok <==> written == expected),
        r matches Err(k) ==> k == ErrorKind::Io,
{
    if written == expected {
        Ok(())
    } else {
        Err(ErrorKind::Io)
    }
}

/// Law: entering raw mode never touches the captured snapshot, so the values
/// `restore` reapplies are exactly the ones captured at startup, whichever
/// combination of outcomes setup met — success, degraded input mode, or any
/// fatal failure.
pub proof fn lemma_restore_reproduces_capture(
    c: Console,
    input_cp_ok: bool,
    output_cp_ok: bool,
    input_mode_ok: bool,
    output_mode_ok: bool,
)
    ensures
        spec_setup(c, input_cp_ok, output_cp_ok, input_mode_ok, output_mode_ok).captured
            == c.captured,
{
}

} // verus!
