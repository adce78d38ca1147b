//! The browsing state machine: the record set, the selected row, and the
//! transitions that key events trigger.

use vstd::prelude::*;
use crate::extract::{
    extract_results, patterns_ok, spec_raw_hits, extract_spec, PatternsView, ResultRecord,
    SelectionPatterns,
};
use crate::query::FetchOutcome;

verus! {

/// Why a fetch or an extraction failed.
#[derive(Clone, Copy, Debug, PartialEq, Eq, Structural)]
pub enum ErrorKind {
    /// The request never completed: connection failure, timeout, or a
    /// broken channel.
    Transport,
    /// The engine answered with a non-success status code.
    Http(u16),
    /// The response could not be processed at all.
    Parse,
}

/// Where the browsing session stands.
#[derive(Clone, Copy, Debug, PartialEq, Eq, Structural)]
pub enum Status {
    /// The query is still in flight.
    Loading,
    /// Records are populated (possibly zero of them); navigation is live.
    Ready,
    /// The fetch or the extraction failed.
    Error(ErrorKind),
}

/// A key event, already mapped from the terminal's own encoding to the
/// transitions the state machine knows.
#[derive(Clone, Copy, Debug, PartialEq, Eq, Structural)]
pub enum InputEvent {
    /// Move the selection one row down.
    MoveDown,
    /// Move the selection one row up.
    MoveUp,
    /// Confirm the selected record.
    Confirm,
    /// End the session.
    Quit,
    /// Any other key: ignored.
    Other,
}

/// What the session loop should do after a transition.
#[derive(Clone, Debug, PartialEq, Eq)]
pub enum SessionCommand {
    /// Draw the current state and wait for the next key.
    Redraw,
    /// Hand the selected record's link target to an external opener,
    /// then draw again.
    Open(String),
    /// Leave the loop.
    Exit,
}

/// The in-memory browsing state. Only the session mutates it, one
/// transition at a time; the record set is replaced wholesale on each
/// successful extraction, never edited in place.
#[derive(Clone, Debug)]
pub struct BrowserState {
    /// The current record set, in document order.
    pub records: Vec<ResultRecord>,
    /// The highlighted row. Invariant: within the record set when that is
    /// non-empty, clamped to 0 when it is empty.
    pub selected_index: usize,
    /// The logical page number, for pagination.
    pub page: usize,
    /// Where the session stands.
    pub status: Status,
}

impl BrowserState {
    /// Well-formedness: the selected index stays inside the record set,
    /// and sits at 0 while the set is empty.
    pub open spec fn wf(&self) -> bool {
        &&& self.records@.len() == 0 ==> self.selected_index == 0
        &&& self.records@.len() > 0 ==> (self.selected_index as int) < self.records@.len()
    }

    /// A fresh state: no records, nothing selected, first page, query in
    /// flight.
    pub fn new() -> (s: BrowserState)
        ensures
            s.wf(),
            s.records@.len() == 0,
            s.selected_index == 0,
            s.page == 0,
            s.status is Loading,
    {
        BrowserState { records: Vec::new(), selected_index: 0, page: 0, status: Status::Loading }
    }
}

/// The selected index after one `MoveDown` on a record set of length `n`:
/// one step down, clamped to the last row; a no-op on an empty set.
pub open spec fn move_down_spec(sel: nat, n: nat) -> nat {
    if n == 0 {
        sel
    } else if sel + 1 < n {
        sel + 1
    } else {
        (n - 1) as nat
    }
}

/// The selected index after one `MoveUp`: one step up, clamped to the
/// first row.
pub open spec fn move_up_spec(sel: nat) -> nat {
    if sel > 0 {
        (sel - 1) as nat
    } else {
        0
    }
}

/// The selected index after `k` repetitions of `MoveDown`.
pub open spec fn iter_down(sel: nat, n: nat, k: nat) -> nat
    decreases k,
{
    if k == 0 {
        sel
    } else {
        iter_down(move_down_spec(sel, n), n, (k - 1) as nat)
    }
}

/// The selected index after `k` repetitions of `MoveUp`.
pub open spec fn iter_up(sel: nat, k: nat) -> nat
    decreases k,
{
    if k == 0 {
        sel
    } else {
        iter_up(move_up_spec(sel), (k - 1) as nat)
    }
}

/// Navigation bound, downward: on a non-empty record set of length `n`,
/// repeated `MoveDown` converges to the last row and stays there — after
/// any `k` steps that suffice to reach it, the selection is exactly
/// `n - 1`.
pub proof fn lemma_move_down_converges(sel: nat, n: nat, k: nat)
    requires
        n > 0,
        sel < n,
        sel + k >= n - 1,
    ensures
        iter_down(sel, n, k) == n - 1,
    decreases k,
{
    if k > 0 {
        lemma_move_down_converges(move_down_spec(sel, n), n, (k - 1) as nat);
    }
}

/// Navigation bound, upward: from any selected index, repeated `MoveUp`
/// converges to the first row and stays there — after any `k >= sel`
/// steps, the selection is exactly 0.
pub proof fn lemma_move_up_converges(sel: nat, k: nat)
    requires
        k >= sel,
    ensures
        iter_up(sel, k) == 0,
    decreases k,
{
    if k > 0 {
        lemma_move_up_converges(move_up_spec(sel), (k - 1) as nat);
    }
}

/// What one key event does to the state and to the session loop: the
/// relation between the state before (`pre`) and after (`post`) the
/// transition on `ev`, and the command `cmd` handed back. Navigation acts
/// only while the state is `Ready`; `Quit` asks to leave the loop from
/// any state; everything else leaves the state as it is and asks for a
/// redraw.
pub open spec fn nav_step(
    pre: BrowserState,
    post: BrowserState,
    ev: InputEvent,
    cmd: SessionCommand,
) -> bool {
    &&& post.records == pre.records
    &&& post.page == pre.page
    &&& post.status == pre.status
    &&& (cmd is Exit <==> ev is Quit)
    &&& ev is Quit ==> post == pre
    &&& pre.status is Ready && ev is MoveDown ==> post.selected_index == move_down_spec(
        pre.selected_index as nat,
        pre.records@.len(),
    )
    &&& pre.status is Ready && ev is MoveUp ==> post.selected_index == move_up_spec(
        pre.selected_index as nat,
    )
    &&& !(pre.status is Ready && (ev is MoveDown || ev is MoveUp)) ==> post.selected_index
        == pre.selected_index
    &&& pre.status is Ready && ev is Confirm && pre.records@.len() > 0 ==> cmd
        == SessionCommand::Open(pre.records@[pre.selected_index as int].href)
    &&& ev is Confirm && !(pre.status is Ready && pre.records@.len() > 0) ==> cmd is Redraw
    &&& ev is MoveDown || ev is MoveUp || ev is Other ==> cmd is Redraw
}

/// Applies one key event to the state and says what the session loop
/// should do next, per [`nav_step`].
pub fn handle_event(st: &mut BrowserState, ev: InputEvent) -> (cmd: SessionCommand)
    requires
        old(st).wf(),
    ensures
        final(st).wf(),
        nav_step(*old(st), *final(st), ev, cmd),
{
    match ev {
        InputEvent::Quit => SessionCommand::Exit,
        InputEvent::MoveDown => {
            if matches!(st.status, Status::Ready) {
                if st.records.len() > 0 && st.selected_index + 1 < st.records.len() {
                    st.selected_index = st.selected_index + 1;
                }
            }
            SessionCommand::Redraw
        },
        InputEvent::MoveUp => {
            if matches!(st.status, Status::Ready) {
                if st.selected_index > 0 {
                    st.selected_index = st.selected_index - 1;
                }
            }
            SessionCommand::Redraw
        },
        InputEvent::Confirm => {
            if matches!(st.status, Status::Ready) && st.records.len() > 0 {
                let href = st.records[st.selected_index].href.clone();
                SessionCommand::Open(href)
            } else {
                SessionCommand::Redraw
            }
        },
        InputEvent::Other => SessionCommand::Redraw,
    }
}

/// Empty record set: navigation is a no-op. Whatever key event a
/// transition consumes, a well-formed state with no records keeps the
/// selection clamped at 0 and gains no record.
pub proof fn lemma_empty_set_navigation_noop(
    pre: BrowserState,
    post: BrowserState,
    ev: InputEvent,
    cmd: SessionCommand,
)
    requires
        pre.wf(),
        pre.records@.len() == 0,
        nav_step(pre, post, ev, cmd),
    ensures
        post.selected_index == 0,
        post.records@.len() == 0,
{
}

/// What settling the fetch does to the state: the relation between the
/// state before (`pre`) and after (`post`) the outcome `outcome` is
/// consumed under the patterns `p`. A successful body goes through
/// extraction and populates a fresh record set with the selection reset —
/// zero extracted records are still `Ready`; any failure lands in the
/// matching `Error` state with the old record set kept.
pub open spec fn fetch_resolution(
    pre: BrowserState,
    post: BrowserState,
    outcome: FetchOutcome,
    p: PatternsView,
) -> bool {
    &&& post.page == pre.page
    &&& outcome is Success && patterns_ok(p) ==> post.status is Ready
    &&& outcome is Success && patterns_ok(p) ==> post.records.deep_view() == extract_spec(
        spec_raw_hits(outcome->Success_0@, p),
    )
    &&& outcome is Success && patterns_ok(p) ==> post.selected_index == 0
    &&& outcome is Success && !patterns_ok(p) ==> post.status == Status::Error(ErrorKind::Parse)
    &&& outcome matches FetchOutcome::HttpError(code, _) ==> post.status == Status::Error(
        ErrorKind::Http(code),
    )
    &&& outcome is TransportError ==> post.status == Status::Error(ErrorKind::Transport)
    &&& !(outcome is Success && patterns_ok(p)) ==> post.records == pre.records
        && post.selected_index == pre.selected_index
}

/// Settles the pending fetch, per [`fetch_resolution`].
pub fn resolve_fetch(st: &mut BrowserState, outcome: FetchOutcome, patterns: &SelectionPatterns)
    requires
        old(st).wf(),
        old(st).status is Loading,
    ensures
        final(st).wf(),
        fetch_resolution(*old(st), *final(st), outcome, patterns@),
{
    match outcome {
        FetchOutcome::Success(body) => {
            match extract_results(body.as_str(), patterns) {
                Ok(records) => {
                    st.records = records;
                    st.selected_index = 0;
                    st.status = Status::Ready;
                },
                Err(_) => {
                    st.status = Status::Error(ErrorKind::Parse);
                },
            }
        },
        FetchOutcome::HttpError(code, _body) => {
            st.status = Status::Error(ErrorKind::Http(code));
        },
        FetchOutcome::TransportError(_cause) => {
            st.status = Status::Error(ErrorKind::Transport);
        },
    }
}

} // verus!
