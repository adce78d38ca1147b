//! Mining result records out of the engine's markup.
//!
//! A markup document is scanned with three structural selection patterns:
//! one picks the result containers, one the title link inside a container,
//! one the snippet region. Each container that carries a title link with a
//! non-empty link target and a snippet region yields one record; a container
//! that lacks either yields none and is skipped, so a single malformed hit
//! never destroys the rest of the result set. The whole extraction fails
//! only when a selection pattern itself cannot be compiled.

use vstd::prelude::*;
use scraper::{Html, Selector};

verus! {

/// The mathematical value of a [`ResultRecord`]: the link target and the
/// snippet text as character sequences.
pub ghost struct RecordView {
    pub href: Seq<char>,
    pub summary: Seq<char>,
}

/// One search hit: the target URL of the hit and the concatenated text of
/// its snippet region. `href` is never empty in a record that extraction
/// hands out; `summary` may be the empty string.
#[derive(Clone, Debug)]
pub struct ResultRecord {
    pub href: String,
    pub summary: String,
}

impl View for ResultRecord {
    type V = RecordView;

    open spec fn view(&self) -> RecordView {
        RecordView { href: self.href@, summary: self.summary@ }
    }
}

impl DeepView for ResultRecord {
    type V = RecordView;

    open spec fn deep_view(&self) -> RecordView {
        self.view()
    }
}

/// The mathematical value of a [`RawHit`].
pub ghost struct RawHitView {
    pub href: Option<Seq<char>>,
    pub fragments: Option<Seq<Seq<char>>>,
}

/// The raw projection of one result container, before the skip policy is
/// applied: the first title link's target, if the container has a title
/// link with that attribute, and the text fragments below the first
/// snippet region, if the container has one.
#[derive(Clone, Debug)]
pub struct RawHit {
    pub href: Option<String>,
    pub fragments: Option<Vec<String>>,
}

impl DeepView for RawHit {
    type V = RawHitView;

    open spec fn deep_view(&self) -> RawHitView {
        RawHitView { href: self.href.deep_view(), fragments: self.fragments.deep_view() }
    }
}

/// The three structural selection patterns that describe an engine's result
/// markup. They are configuration: exchanging them adapts the extraction to
/// another engine without touching its logic.
#[derive(Clone, Debug)]
pub struct SelectionPatterns {
    /// Pattern matching one result container per hit.
    pub container: String,
    /// Pattern matching the title link inside a container.
    pub title_link: String,
    /// Pattern matching the snippet region inside a container.
    pub snippet: String,
}

/// The mathematical value of a [`SelectionPatterns`].
pub ghost struct PatternsView {
    pub container: Seq<char>,
    pub title_link: Seq<char>,
    pub snippet: Seq<char>,
}

impl View for SelectionPatterns {
    type V = PatternsView;

    open spec fn view(&self) -> PatternsView {
        PatternsView {
            container: self.container@,
            title_link: self.title_link@,
            snippet: self.snippet@,
        }
    }
}

/// Extraction failure: the document could not be processed at all. A
/// partially malformed document is no error — bad containers are skipped.
#[derive(Clone, Copy, Debug, PartialEq, Eq, Structural)]
pub enum ExtractError {
    /// A selection pattern could not be compiled, so no node could be
    /// selected from the document.
    Parse,
}

/// Whether the selector engine accepts `pattern` as a structural selection
/// pattern. Compiling a pattern is a pure function of its text.
pub uninterp spec fn selector_ok(pattern: Seq<char>) -> bool;

/// The projection of every result container of the document matched by
/// `container`, in document order: for each, the first title link's target
/// under `title_link` and the text fragments under the first `snippet`
/// node. Parsing and selecting are pure functions of the document text and
/// the patterns.
pub uninterp spec fn raw_hits_of(
    doc: Seq<char>,
    container: Seq<char>,
    title_link: Seq<char>,
    snippet: Seq<char>,
) -> Seq<RawHitView>;

/// All three of `container`, `title_link` and `snippet` compile as
/// selection patterns.
pub open spec fn selectors_ok(container: Seq<char>, title_link: Seq<char>, snippet: Seq<char>) -> bool {
    selector_ok(container) && selector_ok(title_link) && selector_ok(snippet)
}

/// All three patterns of `p` compile.
pub open spec fn patterns_ok(p: PatternsView) -> bool {
    selectors_ok(p.container, p.title_link, p.snippet)
}

/// The raw hits that `doc` holds under the patterns `p`.
pub open spec fn spec_raw_hits(doc: Seq<char>, p: PatternsView) -> Seq<RawHitView> {
    raw_hits_of(doc, p.container, p.title_link, p.snippet)
}

/// Relies on scraper::Selector::parse: it returns `Ok` exactly when the
/// pattern text is a valid selector, and is a pure function of that text.
#[verifier::external_body]
fn selector_compiles(pattern: &str) -> (r: bool)
    ensures
        r == selector_ok(pattern@),
{
    scraper::Selector::parse(pattern).is_ok()
}

/// Relies on scraper. `Selector::parse` returns `Err` exactly when the
/// pattern is not a valid selector, and is a pure function of the pattern
/// text. `Html::parse_document` never fails (a tree is always produced, as
/// best as possible) and is a pure function of the document text.
/// `Html::select` yields the matching elements in document order, as does
/// `ElementRef::select` for descendants; `ElementRef::attr` returns the
/// attribute's value; `ElementRef::text` yields the descendant text
/// fragments in document order.
#[verifier::external_body]
fn scan_document(doc: &str, container: &str, title_link: &str, snippet: &str) -> (r: Option<Vec<RawHit>>)
    ensures
        r is Some <==> selectors_ok(container@, title_link@, snippet@),
        r is Some ==> r->0.deep_view() == raw_hits_of(doc@, container@, title_link@, snippet@),
{
    let (Ok(c), Ok(t), Ok(s)) =
        (Selector::parse(container), Selector::parse(title_link), Selector::parse(snippet))
    else { return None };
    let tree = Html::parse_document(doc);
    Some(tree.select(&c).map(|node| RawHit {
        href: node.select(&t).next().and_then(|a| a.attr("href")).map(String::from),
        fragments: node.select(&s).next().map(|sn| sn.text().map(String::from).collect()),
    }).collect())
}

/// A raw hit that yields a record: it has a title link with a non-empty
/// link target, and a snippet region (whose text may still be empty).
pub open spec fn complete_hit(h: RawHitView) -> bool {
    &&& h.href matches Some(href) && href.len() > 0
    &&& h.fragments is Some
}

/// The concatenation of all fragments of `fs`, in order, with no separator.
pub open spec fn concat_fragments(fs: Seq<Seq<char>>) -> Seq<char>
    decreases fs.len(),
{
    if fs.len() == 0 {
        Seq::empty()
    } else {
        concat_fragments(fs.drop_last()) + fs.last()
    }
}

/// The record that a complete raw hit yields.
pub open spec fn record_of_hit(h: RawHitView) -> RecordView
    recommends
        complete_hit(h),
{
    RecordView { href: h.href->0, summary: concat_fragments(h.fragments->0) }
}

/// The record sequence that a raw hit sequence yields: one record per
/// complete hit, in order; incomplete hits are skipped.
pub open spec fn extract_spec(hits: Seq<RawHitView>) -> Seq<RecordView>
    decreases hits.len(),
{
    if hits.len() == 0 {
        Seq::empty()
    } else {
        let rest = extract_spec(hits.drop_last());
        if complete_hit(hits.last()) {
            rest.push(record_of_hit(hits.last()))
        } else {
            rest
        }
    }
}

/// Extraction tolerance: the extracted records are exactly the complete
/// hits' records, as a subsequence in the original order. Deleting a
/// title link or a snippet from some containers removes their records and
/// nothing else.
pub proof fn lemma_extraction_tolerance(hits: Seq<RawHitView>)
    ensures
        extract_spec(hits) == hits.filter(|h: RawHitView| complete_hit(h)).map_values(
            |h: RawHitView| record_of_hit(h),
        ),
    decreases hits.len(),
{
    reveal(Seq::filter);
    let pred = |h: RawHitView| complete_hit(h);
    let f = |h: RawHitView| record_of_hit(h);
    if hits.len() == 0 {
        assert(hits.filter(pred) == hits);
        assert(extract_spec(hits) =~= hits.filter(pred).map_values(f));
    } else {
        lemma_extraction_tolerance(hits.drop_last());
        assert(extract_spec(hits.drop_last()) == hits.drop_last().filter(pred).map_values(f));
        if pred(hits.last()) {
            assert(hits.filter(pred) == hits.drop_last().filter(pred).push(hits.last()));
            assert(hits.filter(pred).map_values(f) =~= hits.drop_last().filter(pred).map_values(
                f,
            ).push(f(hits.last())));
        } else {
            assert(hits.filter(pred) == hits.drop_last().filter(pred));
        }
    }
}

/// Determinism: extraction is a pure function of the document text and the
/// three selection patterns; identical inputs yield identical record
/// sequences, however the nodes are traversed.
pub proof fn lemma_extraction_deterministic(
    doc_a: Seq<char>,
    pats_a: PatternsView,
    doc_b: Seq<char>,
    pats_b: PatternsView,
)
    requires
        doc_a == doc_b,
        pats_a == pats_b,
    ensures
        extract_spec(spec_raw_hits(doc_a, pats_a)) == extract_spec(spec_raw_hits(doc_b, pats_b)),
{
}

/// The concatenation of the fragments of `fragments`, built fragment by
/// fragment.
fn join_fragments(fragments: &Vec<String>) -> (s: String)
    ensures
        s@ == concat_fragments(fragments.deep_view()),
{
    let ghost all = fragments.deep_view();
    let mut s = String::new();
    for i in 0..fragments.len()
        invariant
            all == fragments.deep_view(),
            s@ == concat_fragments(all.take(i as int)),
    {
        s.append(fragments[i].as_str());
        proof {
            assert(all.take(i + 1).drop_last() =~= all.take(i as int));
            assert(all.take(i + 1).last() == all[i as int]);
        }
    }
    proof {
        assert(all.take(all.len() as int) =~= all);
    }
    s
}

/// The records of `hits`, per the skip policy: one record per complete
/// hit, in order. This is the whole of extraction once the raw hits are
/// in hand, so the policy can be exercised on hits built directly.
pub fn extract_hits(hits: &Vec<RawHit>) -> (out: Vec<ResultRecord>)
    ensures
        out.deep_view() == extract_spec(hits.deep_view()),
{
    let ghost all = hits.deep_view();
    let mut out: Vec<ResultRecord> = Vec::new();
    for i in 0..hits.len()
        invariant
            all == hits.deep_view(),
            out.deep_view() == extract_spec(all.take(i as int)),
    {
        let hit = &hits[i];
        if let Some(href) = &hit.href {
            if !href.as_str().is_empty() {
                if let Some(fragments) = &hit.fragments {
                    let record = ResultRecord { href: href.clone(), summary: join_fragments(
                        fragments,
                    ) };
                    out.push(record);
                }
            }
        }
        proof {
            assert(all.take(i + 1).drop_last() =~= all.take(i as int));
            assert(all.take(i + 1).last() == all[i as int]);
            assert(out.deep_view() =~= extract_spec(all.take(i + 1)));
        }
    }
    proof {
        assert(all.take(all.len() as int) =~= all);
    }
    out
}

/// Extracts the result records of `doc` under `patterns`: one record per
/// container that has a title link with a non-empty target and a snippet
/// region, in document order. Fails exactly when one of the patterns
/// cannot be compiled; a malformed container is skipped, never an error.
pub fn extract_results(doc: &str, patterns: &SelectionPatterns) -> (r: Result<
    Vec<ResultRecord>,
    ExtractError,
>)
    ensures
        r is Ok <==> patterns_ok(patterns@),
        r matches Ok(records) ==> records.deep_view() == extract_spec(
            spec_raw_hits(doc@, patterns@),
        ),
        r is Err ==> r == Result::<Vec<ResultRecord>, ExtractError>::Err(ExtractError::Parse),
{
    let container = patterns.container.as_str();
    let title_link = patterns.title_link.as_str();
    let snippet = patterns.snippet.as_str();
    if !(selector_compiles(container) && selector_compiles(title_link) && selector_compiles(
        snippet,
    )) {
        return Err(ExtractError::Parse);
    }
    match scan_document(doc, container, title_link, snippet) {
        Some(hits) => Ok(extract_hits(&hits)),
        None => Err(ExtractError::Parse),
    }
}

} // verus!
