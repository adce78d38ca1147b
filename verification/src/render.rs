//! The render plan: what the list view shows for a given browsing state.
//!
//! Rendering is split in two: this module computes, as plain values, the
//! title, the list body, the highlighted row and any message; drawing
//! those onto a screen is the terminal driver's business and stays
//! outside the library.

use vstd::prelude::*;
use crate::browse::{BrowserState, ErrorKind, Status};
use crate::extract::RecordView;

verus! {

/// The decimal digit character for `d` (0 through 9).
pub open spec fn spec_digit(d: nat) -> char {
    if d == 0 {
        '0'
    } else if d == 1 {
        '1'
    } else if d == 2 {
        '2'
    } else if d == 3 {
        '3'
    } else if d == 4 {
        '4'
    } else if d == 5 {
        '5'
    } else if d == 6 {
        '6'
    } else if d == 7 {
        '7'
    } else if d == 8 {
        '8'
    } else {
        '9'
    }
}

/// The decimal digits of `n`, most significant first, with no sign and no
/// leading zero (a single `'0'` for zero itself).
pub open spec fn dec_digits(n: nat) -> Seq<char>
    decreases n,
{
    if n < 10 {
        seq![spec_digit(n)]
    } else {
        dec_digits(n / 10).push(spec_digit(n % 10))
    }
}

/// The one-character string for the digit `d`.
fn digit_str(d: usize) -> (s: &'static str)
    requires
        d < 10,
    ensures
        s@ == seq![spec_digit(d as nat)],
{
    proof {
        reveal_strlit("0");
        reveal_strlit("1");
        reveal_strlit("2");
        reveal_strlit("3");
        reveal_strlit("4");
        reveal_strlit("5");
        reveal_strlit("6");
        reveal_strlit("7");
        reveal_strlit("8");
        reveal_strlit("9");
        assert(("0")@ =~= seq!['0']);
        assert(("1")@ =~= seq!['1']);
        assert(("2")@ =~= seq!['2']);
        assert(("3")@ =~= seq!['3']);
        assert(("4")@ =~= seq!['4']);
        assert(("5")@ =~= seq!['5']);
        assert(("6")@ =~= seq!['6']);
        assert(("7")@ =~= seq!['7']);
        assert(("8")@ =~= seq!['8']);
        assert(("9")@ =~= seq!['9']);
    }
    if d == 0 {
        "0"
    } else if d == 1 {
        "1"
    } else if d == 2 {
        "2"
    } else if d == 3 {
        "3"
    } else if d == 4 {
        "4"
    } else if d == 5 {
        "5"
    } else if d == 6 {
        "6"
    } else if d == 7 {
        "7"
    } else if d == 8 {
        "8"
    } else {
        "9"
    }
}

/// Writes `n` in decimal, per [`dec_digits`].
pub fn dec_string(n: usize) -> (s: String)
    ensures
        s@ == dec_digits(n as nat),
    decreases n,
{
    if n < 10 {
        String::from_str(digit_str(n))
    } else {
        proof {
            assert(n / 10 < n) by (nonlinear_arith)
                requires
                    n >= 10,
            ;
        }
        let mut s = dec_string(n / 10);
        s.append(digit_str(n % 10));
        s
    }
}

/// What the list view shows: a title, the rows of the body, the row to
/// highlight, and — in place of a populated body — a message.
#[derive(Clone, Debug)]
pub struct RenderPlan {
    /// The view's title.
    pub title: String,
    /// One row per record: the record's link target.
    pub lines: Vec<String>,
    /// The row carrying the highlight glyph; meaningful when the body is
    /// non-empty.
    pub highlighted: usize,
    /// A message shown in place of the list while no record set is live:
    /// while loading and on every error. `None` in `Ready`, where an
    /// empty record set renders as an empty body, not as an error.
    pub message: Option<String>,
}

/// The title text over the list: the page number is shown starting from
/// one.
pub open spec fn spec_title(page: nat) -> Seq<char> {
    "Search Results: page "@ + dec_digits(page + 1)
}

/// Computes the render plan of `st`: the title names the page, a `Ready`
/// state lists every record's link target with the selected row
/// highlighted and no message, and every other state shows a message and
/// an empty body. An error is a message, never a crash; an empty record
/// set is an empty body, never an error.
pub fn render_view(st: &BrowserState) -> (p: RenderPlan)
    requires
        st.wf(),
        st.page < usize::MAX,
    ensures
        p.title@ == spec_title(st.page as nat),
        p.highlighted == st.selected_index,
        st.status is Ready ==> p.lines.deep_view() == st.records.deep_view().map_values(
            |r: RecordView| r.href,
        ),
        st.status is Ready ==> p.message is None,
        !(st.status is Ready) ==> p.lines@.len() == 0,
        st.status is Loading ==> (p.message matches Some(m) && m@ == "loading"@),
        st.status == Status::Error(ErrorKind::Transport) ==> (p.message matches Some(m) && m@
            == "the request could not be completed"@),
        st.status matches Status::Error(ErrorKind::Http(code)) ==> (p.message matches Some(m)
            && m@ == "search engine returned status "@ + dec_digits(code as nat)),
        st.status == Status::Error(ErrorKind::Parse) ==> (p.message matches Some(m) && m@
            == "the response could not be parsed"@),
{
    let title = String::from_str("Search Results: page ").concat(dec_string(st.page + 1).as_str());
    match &st.status {
        Status::Loading => RenderPlan {
            title,
            lines: Vec::new(),
            highlighted: st.selected_index,
            message: Some(String::from_str("loading")),
        },
        Status::Ready => {
            let ghost all = st.records.deep_view();
            let mut lines: Vec<String> = Vec::new();
            for i in 0..st.records.len()
                invariant
                    all == st.records.deep_view(),
                    lines.deep_view() == all.map_values(|r: RecordView| r.href).take(i as int),
            {
                let ghost prev = lines.deep_view();
                lines.push(st.records[i].href.clone());
                proof {
                    let hrefs = all.map_values(|r: RecordView| r.href);
                    assert(lines.deep_view() =~= prev.push(all[i as int].href));
                    assert(hrefs.take(i + 1) =~= hrefs.take(i as int).push(hrefs[i as int]));
                    assert(lines.deep_view() =~= hrefs.take(i + 1));
                }
            }
            proof {
                let hrefs = all.map_values(|r: RecordView| r.href);
                assert(hrefs.take(hrefs.len() as int) =~= hrefs);
            }
            RenderPlan { title, lines, highlighted: st.selected_index, message: None }
        },
        Status::Error(kind) => {
            let msg = match kind {
                ErrorKind::Transport => String::from_str("the request could not be completed"),
                ErrorKind::Http(code) => String::from_str("search engine returned status ").concat(
                    dec_string(*code as usize).as_str(),
                ),
                ErrorKind::Parse => String::from_str("the response could not be parsed"),
            };
            RenderPlan { title, lines: Vec::new(), highlighted: st.selected_index, message: Some(msg) }
        },
    }
}

} // verus!
