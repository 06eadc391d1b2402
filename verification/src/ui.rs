//! The interactive session state: the message log and the viewport, the
//! command dispatcher that maps input lines to actions, and the layout
//! entry point used on every redraw.

use vstd::prelude::*;

use crate::engine::run_diagnostic;
use crate::layout::{layout, TextBox, Viewport};
use crate::message_log::{log_append, log_append_all, MessageLog};
use crate::text::{eq_str, trim_of, trimmed};

verus! {

/// What a trimmed input line asks for.
#[derive(Clone, Copy, Debug, PartialEq, Eq, Structural)]
pub enum Command {
    /// The exact token `run`: perform one diagnostic run.
    Run,
    /// The exact token `clear`: empty the log.
    Clear,
    /// Anything else: answer with the help line.
    Other,
}

/// The dispatch rule: surrounding white space is ignored and the match on
/// the remainder is exact and case-sensitive.
pub open spec fn command_of(input: Seq<char>) -> Command {
    if trim_of(input) == "run"@ {
        Command::Run
    } else if trim_of(input) == "clear"@ {
        Command::Clear
    } else {
        Command::Other
    }
}

/// Maps an input line to the command it asks for.
pub fn parse_command(input: &str) -> (c: Command)
    ensures
        c == command_of(input@),
{
    let t = trimmed(input);
    if eq_str(t, "run") {
        Command::Run
    } else if eq_str(t, "clear") {
        Command::Clear
    } else {
        Command::Other
    }
}

/// The log after one input line is dispatched: the echo entry always comes
/// first, and then the recognized command acts. `clear` runs after the
/// echo, so it wipes the echo too and leaves only its confirmation entry.
pub open spec fn dispatch_spec(
    log: Seq<Seq<char>>,
    input: Seq<char>,
    our_seed: Seq<u8>,
    peer_seed: Seq<u8>,
) -> Seq<Seq<char>> {
    let echoed = log_append(log, seq!['>'] + input);
    match command_of(input) {
        Command::Run => log_append_all(echoed, crate::engine::run_lines(our_seed, peer_seed)),
        Command::Clear => log_append(Seq::empty(), "Screen cleared"@),
        Command::Other => log_append(echoed, "Type 'run' to test ECDH"@),
    }
}

/// The state the event loop owns: the transcript and the screen size the
/// host assigned to this session.
pub struct EcdhTestUi {
    pub screensize: Viewport,
    pub history: MessageLog,
}

impl EcdhTestUi {
    pub open spec fn wf(&self) -> bool {
        self.screensize.wf() && self.history.wf()
    }

    /// A fresh session with an empty transcript.
    pub fn new(screensize: Viewport) -> (ui: Self)
        requires
            screensize.wf(),
        ensures
            ui.screensize == screensize,
            ui.history@ == Seq::<Seq<char>>::empty(),
            ui.wf(),
    {
        EcdhTestUi { screensize, history: MessageLog::new() }
    }

    /// Appends one entry to the transcript.
    pub fn add_message(&mut self, msg: &str)
        requires
            old(self).wf(),
        ensures
            final(self).history@ == log_append(old(self).history@, msg@),
            final(self).screensize == old(self).screensize,
            final(self).wf(),
    {
        self.history.append(msg);
    }

    /// Dispatches one input line: echoes it, then acts on the command it
    /// asks for. A `run` consumes the two entropy draws; the caller must
    /// hand in fresh, independent draws on every call.
    pub fn handle_input(&mut self, input: &str, our_seed: &[u8; 32], peer_seed: &[u8; 32])
        requires
            old(self).wf(),
        ensures
            final(self).history@ == dispatch_spec(
                old(self).history@,
                input@,
                our_seed@,
                peer_seed@,
            ),
            final(self).screensize == old(self).screensize,
            final(self).wf(),
    {
        let mut echo = String::from_str(">");
        echo.append(input);
        proof {
            reveal_strlit(">");
            assert(echo@ =~= seq!['>'] + input@);
        }
        self.history.append(echo.as_str());
        match parse_command(input) {
            Command::Run => {
                let _ = run_diagnostic(&mut self.history, our_seed, peer_seed);
            },
            Command::Clear => {
                self.history.clear();
                self.history.append("Screen cleared");
            },
            Command::Other => {
                self.history.append("Type 'run' to test ECDH");
            },
        }
    }

    /// The draw commands for the current transcript and screen size, the
    /// pure half of a redraw; issuing them is the host's business.
    pub fn redraw_layout(&self) -> (r: Vec<TextBox>)
        requires
            self.wf(),
        ensures
            r@.len() <= self.history@.len(),
            forall|i: int|
                0 <= i < r@.len() ==> {
                    &&& (#[trigger] r@[i]).left == crate::layout::MARGIN
                    &&& r@[i].right == self.screensize.width - crate::layout::MARGIN
                    &&& r@[i].bottom == crate::layout::box_bottom(self.screensize, i)
                    &&& r@[i].top == crate::layout::box_bottom(self.screensize, i)
                        - crate::layout::LINE_HEIGHT
                    &&& r@[i].top >= 0
                    &&& r@[i].text@ == self.history@[self.history@.len() - 1 - i]
                },
            r@.len() > 0 ==> crate::layout::LINE_HEIGHT * r@.len() <= self.screensize.height
                - crate::layout::MARGIN,
            r@.len() < self.history@.len() ==> crate::layout::box_bottom(
                self.screensize,
                r@.len() as int,
            ) - crate::layout::LINE_HEIGHT < 0,
    {
        layout(&self.history, &self.screensize)
    }
}

} // verus!
