//! From page text to the aggregate result: the HTML queries, the cell
//! tokenizer, and the collection of station records in row order.

use vstd::prelude::*;
use crate::record::{cells_view, record_matches, row_accepted, Record, RowError};
use crate::text::{trim, trimmed};
use crate::timestamp::{extract_observed_at, has_stamp, observed_at_of};

verus! {

/// The observations of one page.
#[derive(Clone, Debug, PartialEq)]
pub struct CrawlResult {
    /// Observation time, `YYYY-MM-DDTHH:MM:00+0900`.
    pub observed_at: String,
    /// The station records, in the order of their rows.
    pub records: Vec<Record>,
}

/// Why a page gave no result.
#[derive(Clone, Copy, Debug, PartialEq, Eq, Structural)]
pub enum PageError {
    /// The caption does not end with an observation time.
    MissingTimestamp,
    /// A CSS selector could not be parsed.
    BadSelector,
}

/// The cell texts of each row.
pub open spec fn rows_view(v: Seq<Vec<String>>) -> Seq<Seq<Seq<char>>> {
    v.map_values(|r: Vec<String>| cells_view(r@))
}

/// An optional list of texts as character sequences.
pub open spec fn texts_opt_view(o: Option<Vec<String>>) -> Option<Seq<Seq<char>>> {
    match o {
        Some(v) => Some(cells_view(v@)),
        None => None,
    }
}

/// An optional list of rows as character sequences.
pub open spec fn rows_opt_view(o: Option<Vec<Vec<String>>>) -> Option<Seq<Seq<Seq<char>>>> {
    match o {
        Some(v) => Some(rows_view(v@)),
        None => None,
    }
}

/// The text of each element that `selector` picks in the page `html`, in
/// document order, or `None` where the selector does not parse.
pub uninterp spec fn selected_texts(html: Seq<char>, selector: Seq<char>) -> Option<
    Seq<Seq<char>>,
>;

/// For each element that `selector` picks in the page `html`, in document
/// order, the texts of its child elements; `None` where the selector does
/// not parse.
pub uninterp spec fn selected_child_texts(html: Seq<char>, selector: Seq<char>) -> Option<
    Seq<Seq<Seq<char>>>,
>;

/// Relies on scraper's `Html::parse_document`, `Selector::parse`,
/// `Html::select` and `ElementRef::text`: parsing and selecting depend on the
/// page and selector texts alone.
#[verifier::external_body]
fn select_texts(html: &str, selector: &str) -> (r: Option<Vec<String>>)
    ensures
        texts_opt_view(r) == selected_texts(html@, selector@),
{
    let sel = scraper::Selector::parse(selector).ok()?;
    let doc = scraper::Html::parse_document(html);
    let mut out = Vec::new();
    for e in doc.select(&sel) {
        out.push(e.text().collect::<String>());
    }
    Some(out)
}

/// Relies on scraper's `Html::parse_document`, `Selector::parse`,
/// `Html::select`, `ElementRef::wrap` over a node's children, and
/// `ElementRef::text`: parsing and selecting depend on the page and selector
/// texts alone.
#[verifier::external_body]
fn select_child_texts(html: &str, selector: &str) -> (r: Option<Vec<Vec<String>>>)
    ensures
        rows_opt_view(r) == selected_child_texts(html@, selector@),
{
    let sel = scraper::Selector::parse(selector).ok()?;
    let doc = scraper::Html::parse_document(html);
    let mut rows = Vec::new();
    for row in doc.select(&sel) {
        let mut cells = Vec::new();
        for child in row.children() {
            if let Some(cell) = scraper::ElementRef::wrap(child) {
                cells.push(cell.text().collect::<String>());
            }
        }
        rows.push(cells);
    }
    Some(rows)
}

/// Each text trimmed.
pub open spec fn trimmed_all(s: Seq<Seq<char>>) -> Seq<Seq<char>> {
    s.map_values(|c: Seq<char>| trimmed(c))
}

/// Each row's texts trimmed.
pub open spec fn trimmed_rows(s: Seq<Seq<Seq<char>>>) -> Seq<Seq<Seq<char>>> {
    s.map_values(|r: Seq<Seq<char>>| trimmed_all(r))
}

/// The texts one after the other.
pub open spec fn joined(s: Seq<Seq<char>>) -> Seq<char>
    decreases s.len(),
{
    if s.len() == 0 {
        Seq::empty()
    } else {
        joined(s.drop_last()) + s.last()
    }
}

/// The rows that give a record, in their order.
pub open spec fn accepted(rows: Seq<Seq<Seq<char>>>) -> Seq<Seq<Seq<char>>>
    decreases rows.len(),
{
    if rows.len() == 0 {
        Seq::empty()
    } else if row_accepted(rows.last()) {
        accepted(rows.drop_last()).push(rows.last())
    } else {
        accepted(rows.drop_last())
    }
}

/// `recs` are the records read from `rows`, one for one.
pub open spec fn records_match(recs: Seq<Record>, rows: Seq<Seq<Seq<char>>>) -> bool {
    recs.len() == rows.len() && forall|k: int|
        0 <= k < recs.len() ==> record_matches(#[trigger] recs[k], rows[k])
}

/// The cell tokenizer: each cell text of a row, trimmed. Cells keep their
/// positions; an empty cell stays an empty text.
pub fn tokenize(raw: &Vec<String>) -> (r: Vec<String>)
    ensures
        cells_view(r@) == trimmed_all(cells_view(raw@)),
{
    let mut out: Vec<String> = Vec::new();
    let mut i: usize = 0;
    while i < raw.len()
        invariant
            i <= raw@.len(),
            out@.len() == i,
            cells_view(out@) =~= trimmed_all(cells_view(raw@)).subrange(0, i as int),
        decreases raw@.len() - i,
    {
        let t = trim(raw[i].as_str());
        let ghost before = out@;
        out.push(t);
        assert forall|k: int| 0 <= k < i + 1 implies #[trigger] cells_view(out@)[k]
            == trimmed_all(cells_view(raw@))[k] by {
            if k < i {
                assert(out@[k] == before[k]);
                assert(cells_view(before)[k] == trimmed_all(cells_view(raw@)).subrange(0, i as int)[k]);
            }
        }
        assert(cells_view(out@) =~= trimmed_all(cells_view(raw@)).subrange(0, i + 1));
        i = i + 1;
    }
    assert(trimmed_all(cells_view(raw@)).subrange(0, i as int) =~= trimmed_all(cells_view(raw@)));
    out
}

/// The trimmed texts, joined with nothing between them.
pub fn join_trimmed(texts: &Vec<String>) -> (r: String)
    ensures
        r@ == joined(trimmed_all(cells_view(texts@))),
{
    let ghost all = trimmed_all(cells_view(texts@));
    let mut o = String::new();
    let mut i: usize = 0;
    while i < texts.len()
        invariant
            i <= texts@.len(),
            all == trimmed_all(cells_view(texts@)),
            o@ == joined(all.subrange(0, i as int)),
        decreases texts@.len() - i,
    {
        let t = trim(texts[i].as_str());
        o.append(t.as_str());
        assert(all.subrange(0, i + 1).drop_last() =~= all.subrange(0, i as int));
        i = i + 1;
    }
    assert(all.subrange(0, i as int) =~= all);
    o
}

/// The records of the rows that give one, in row order; the other rows are
/// passed over.
pub fn collect_records(rows: &Vec<Vec<String>>) -> (r: Vec<Record>)
    ensures
        records_match(r@, accepted(rows_view(rows@))),
{
    let ghost all = rows_view(rows@);
    let mut out: Vec<Record> = Vec::new();
    let mut i: usize = 0;
    while i < rows.len()
        invariant
            i <= rows@.len(),
            all == rows_view(rows@),
            records_match(out@, accepted(all.subrange(0, i as int))),
        decreases rows@.len() - i,
    {
        let ghost pre = all.subrange(0, i as int);
        let ghost next = all.subrange(0, i + 1);
        assert(next.drop_last() =~= pre);
        assert(next.last() == cells_view(rows@[i as int]@));
        match Record::from_cells(&rows[i]) {
            Ok(rec) => {
                out.push(rec);
            },
            Err(_) => {},
        }
        i = i + 1;
    }
    assert(all.subrange(0, i as int) =~= all);
    out
}

/// Builds the result from the page caption and the rows' trimmed cells:
/// fails when the caption does not end with an observation time, and keeps
/// the records of the rows that give one, in row order.
pub fn assemble_result(caption: &str, rows: &Vec<Vec<String>>) -> (r: Result<
    CrawlResult,
    PageError,
>)
    ensures
        r is Err <==> !has_stamp(caption@),
        r is Err ==> r == Err::<CrawlResult, PageError>(PageError::MissingTimestamp),
        r matches Ok(res) ==> res.observed_at@ == observed_at_of(caption@),
        r matches Ok(res) ==> records_match(res.records@, accepted(rows_view(rows@))),
{
    let observed_at = match extract_observed_at(caption) {
        Some(o) => o,
        None => return Err(PageError::MissingTimestamp),
    };
    Ok(CrawlResult { observed_at, records: collect_records(rows) })
}

/// The caption that the page's caption elements spell.
pub open spec fn caption_of(texts: Seq<Seq<char>>) -> Seq<char> {
    joined(trimmed_all(texts))
}

/// Reads a station table page: the caption is the trimmed text of the
/// `span.ehead` elements, the rows are the `table table tr` elements, and
/// each row's cells are its child elements' trimmed texts.
pub fn parse_page(html: &str) -> (r: Result<CrawlResult, PageError>)
    ensures
        match (
            selected_texts(html@, "span.ehead"@),
            selected_child_texts(html@, "table table tr"@),
        ) {
            (Some(t), Some(rw)) => {
                &&& r is Ok <==> has_stamp(caption_of(t))
                &&& r is Err ==> r == Err::<CrawlResult, PageError>(PageError::MissingTimestamp)
                &&& r matches Ok(res) ==> res.observed_at@ == observed_at_of(caption_of(t))
                &&& r matches Ok(res) ==> records_match(res.records@, accepted(trimmed_rows(rw)))
            },
            _ => r == Err::<CrawlResult, PageError>(PageError::BadSelector),
        },
{
    let texts = match select_texts(html, "span.ehead") {
        Some(t) => t,
        None => return Err(PageError::BadSelector),
    };
    let raw = match select_child_texts(html, "table table tr") {
        Some(rw) => rw,
        None => return Err(PageError::BadSelector),
    };
    let caption = join_trimmed(&texts);
    let ghost all = trimmed_rows(rows_view(raw@));
    let mut rows: Vec<Vec<String>> = Vec::new();
    let mut i: usize = 0;
    while i < raw.len()
        invariant
            i <= raw@.len(),
            all == trimmed_rows(rows_view(raw@)),
            rows@.len() == i,
            rows_view(rows@) =~= all.subrange(0, i as int),
        decreases raw@.len() - i,
    {
        let cells = tokenize(&raw[i]);
        let ghost before = rows@;
        rows.push(cells);
        assert forall|k: int| 0 <= k < i + 1 implies #[trigger] rows_view(rows@)[k] == all[k] by {
            if k < i {
                assert(rows@[k] == before[k]);
                assert(rows_view(before)[k] == all.subrange(0, i as int)[k]);
            }
        }
        assert(rows_view(rows@) =~= all.subrange(0, i + 1));
        i = i + 1;
    }
    assert(all.subrange(0, i as int) =~= all);
    assemble_result(caption.as_str(), &rows)
}

} // verus!
