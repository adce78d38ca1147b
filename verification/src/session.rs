//! The session lifecycle around the browsing loop.
//!
//! The session owns the browsing state and keeps the book on the one
//! scoped resource the program holds: the terminal display, which the
//! caller puts into raw/alternate mode at most once and must hand back on
//! every exit path. The caller performs the terminal work itself and
//! reports it here; the invariant of this module is that a session never
//! counts as ended while it still holds the terminal.

use vstd::prelude::*;
use crate::browse::{
    fetch_resolution, handle_event, nav_step, resolve_fetch, BrowserState, InputEvent,
    SessionCommand,
};
use crate::extract::SelectionPatterns;
use crate::query::FetchOutcome;

verus! {

/// One browsing session: the state it mutates, and where its terminal
/// stands.
#[derive(Clone, Debug)]
pub struct TerminalSession {
    /// The browsing state; only this session's transitions mutate it.
    pub browser: BrowserState,
    /// Whether the caller holds the terminal in raw/alternate mode on the
    /// session's behalf.
    pub terminal_entered: bool,
    /// Whether the session is over. Once it is, no transition applies.
    pub ended: bool,
}

impl TerminalSession {
    /// Well-formedness: the browsing state is sound, and a session that
    /// has ended no longer holds the terminal.
    pub open spec fn wf(&self) -> bool {
        &&& self.browser.wf()
        &&& self.ended ==> !self.terminal_entered
    }

    /// Opens a session: the query is about to be dispatched, nothing has
    /// touched the terminal yet.
    pub fn begin() -> (s: TerminalSession)
        ensures
            s.wf(),
            !s.terminal_entered,
            !s.ended,
            s.browser.status is Loading,
            s.browser.records@.len() == 0,
            s.browser.selected_index == 0,
            s.browser.page == 0,
    {
        TerminalSession { browser: BrowserState::new(), terminal_entered: false, ended: false }
    }

    /// Records that the caller has put the terminal into raw/alternate
    /// mode for this session.
    pub fn note_terminal_entered(&mut self)
        requires
            old(self).wf(),
            !old(self).ended,
        ensures
            final(self).wf(),
            final(self).terminal_entered,
            final(self).ended == old(self).ended,
            final(self).browser == old(self).browser,
    {
        self.terminal_entered = true;
    }

    /// Settles the pending fetch before the input loop starts, per
    /// [`fetch_resolution`].
    pub fn settle_fetch(&mut self, outcome: FetchOutcome, patterns: &SelectionPatterns)
        requires
            old(self).wf(),
            !old(self).ended,
            old(self).browser.status is Loading,
        ensures
            final(self).wf(),
            final(self).terminal_entered == old(self).terminal_entered,
            final(self).ended == old(self).ended,
            fetch_resolution(old(self).browser, final(self).browser, outcome, patterns@),
    {
        resolve_fetch(&mut self.browser, outcome, patterns);
    }

    /// Applies one key event, per [`nav_step`]. A `Quit` event yields
    /// [`SessionCommand::Exit`]; on that command the caller restores the
    /// terminal and calls [`TerminalSession::end`] — and on no other path
    /// does the loop stop.
    pub fn on_key(&mut self, ev: InputEvent) -> (cmd: SessionCommand)
        requires
            old(self).wf(),
            !old(self).ended,
        ensures
            final(self).wf(),
            final(self).terminal_entered == old(self).terminal_entered,
            final(self).ended == old(self).ended,
            nav_step(old(self).browser, final(self).browser, ev, cmd),
    {
        handle_event(&mut self.browser, ev)
    }

    /// Ends the session. Called exactly when the caller has restored the
    /// terminal to the mode it had before the session — on a normal quit
    /// as on every error path — so an ended session never holds it.
    pub fn end(&mut self)
        requires
            old(self).wf(),
        ensures
            final(self).wf(),
            final(self).ended,
            !final(self).terminal_entered,
            final(self).browser == old(self).browser,
    {
        self.terminal_entered = false;
        self.ended = true;
    }
}

/// Terminal restoration, at the decision level: whatever path a session
/// took — normal quit, transport, HTTP or parse error — once it has
/// ended, it does not hold the terminal, so the mode the caller reported
/// restored is the mode the process leaves behind.
pub proof fn lemma_ended_releases_terminal(s: TerminalSession)
    requires
        s.wf(),
        s.ended,
    ensures
        !s.terminal_entered,
{
}

} // verus!
