//! The one-line-per-result listing of a result set.

use vstd::prelude::*;
use crate::result::{ResultBody, SearchResult, source_tag_spec};
use crate::text::{append_decimal, append_digits, decimal};

verus! {

/// `s` in upper case, as Unicode maps each character.
pub uninterp spec fn upper_of(s: Seq<char>) -> Seq<char>;

/// Relies on `str::to_uppercase`: the Unicode upper-case mapping of the
/// text, which depends on the text alone and leaves an empty text empty.
#[verifier::external_body]
fn to_upper(s: &str) -> (r: String)
    ensures
        r@ == upper_of(s@),
        s@.len() == 0 ==> r@.len() == 0,
{
    s.to_uppercase()
}

/// An element type as a listing shows it: in upper case, or `fallback` when
/// there is none.
pub open spec fn type_caption(t: Option<String>, fallback: Seq<char>) -> Seq<char> {
    match t {
        Some(x) => upper_of(x@),
        None => fallback,
    }
}

pub open spec fn label_or_empty(l: Option<String>) -> Seq<char> {
    match l {
        Some(x) => x@,
        None => seq![],
    }
}

/// The line for result `r` at 1-based position `n`:
/// `[tag:n] TYPE label | title p.page | score%`, or for text
/// `[t:n] TEXT chunk | title p.page | score%`.
pub open spec fn source_line(r: SearchResult, n: int) -> Seq<char> {
    match r.body {
        ResultBody::Element(e) => line_with_caption(r, n, type_caption(e.element_type, "?"@)),
        ResultBody::TextChunk { .. } => line_with_caption(r, n, seq![]),
    }
}

/// The line for result `r` at position `n`, where an element's type reads
/// `caption`.
pub open spec fn line_with_caption(r: SearchResult, n: int, caption: Seq<char>) -> Seq<char> {
    let head = "["@ + source_tag_spec(r) + ":"@ + decimal(n) + "] "@;
    let tail = " | "@ + r.document_title@ + " p."@ + decimal(r.page_number as int) + " | "@ + r.score_label@ + "%"@;
    match r.body {
        ResultBody::Element(e) => head + caption + " "@ + label_or_empty(e.element_label) + tail,
        ResultBody::TextChunk { .. } => head + "TEXT chunk"@ + tail,
    }
}

/// The lines of `rs`, numbered from 1 and joined by line breaks.
pub open spec fn source_lines(rs: Seq<SearchResult>) -> Seq<char>
    decreases rs.len(),
{
    if rs.len() == 0 {
        seq![]
    } else if rs.len() == 1 {
        source_line(rs[0], 1)
    } else {
        source_lines(rs.drop_last()) + "\n"@ + source_line(rs.last(), rs.len() as int)
    }
}

/// The listing of a result set.
pub open spec fn sources_text(rs: Seq<SearchResult>) -> Seq<char> {
    if rs.len() == 0 {
        "No sources available."@
    } else {
        source_lines(rs)
    }
}

/// The line for result `r` at position `n`, an element's type written as
/// `caption`.
pub fn line_with_type_caption(r: &SearchResult, n: usize, caption: &str) -> (s: String)
    ensures
        s@ == line_with_caption(*r, n as int, caption@),
{
    let mut s = "[".to_owned();
    s.append(r.source_tag());
    s.append(":");
    append_digits(&mut s, n as u64);
    s.append("] ");
    match &r.body {
        ResultBody::Element(e) => {
            s.append(caption);
            s.append(" ");
            match &e.element_label {
                Some(l) => s.append(l.as_str()),
                None => {},
            }
        },
        ResultBody::TextChunk { .. } => s.append("TEXT chunk"),
    }
    s.append(" | ");
    s.append(r.document_title.as_str());
    s.append(" p.");
    append_decimal(&mut s, r.page_number as i64);
    s.append(" | ");
    s.append(r.score_label.as_str());
    s.append("%");
    assert(s@ =~= line_with_caption(*r, n as int, caption@));
    s
}

fn source_line_text(r: &SearchResult, n: usize) -> (s: String)
    ensures
        s@ == source_line(*r, n as int),
{
    match &r.body {
        ResultBody::Element(e) => match &e.element_type {
            Some(t) => {
                let u = to_upper(t.as_str());
                line_with_type_caption(r, n, u.as_str())
            },
            None => line_with_type_caption(r, n, "?"),
        },
        ResultBody::TextChunk { .. } => line_with_type_caption(r, n, ""),
    }
}

/// Lists `results`, one numbered line each.
pub fn format_sources(results: &Vec<SearchResult>) -> (r: String)
    ensures
        r@ == sources_text(results@),
{
    if results.len() == 0 {
        return "No sources available.".to_owned();
    }
    let mut s = String::new();
    let mut i: usize = 0;
    while i < results.len()
        invariant
            i <= results@.len(),
            s@ == source_lines(results@.take(i as int)),
        decreases results@.len() - i,
    {
        let line = source_line_text(&results[i], i + 1);
        let ghost pre = results@.take(i as int);
        assert(results@.take(i + 1).drop_last() =~= pre);
        assert(results@.take(i + 1).last() == results@[i as int]);
        if i > 0 {
            s.append("\n");
        }
        s.append(line.as_str());
        proof {
            if i == 0 {
                assert(s@ =~= source_lines(results@.take(1)));
            } else {
                assert(s@ =~= source_lines(results@.take(i + 1)));
            }
        }
        i = i + 1;
    }
    assert(results@.take(i as int) =~= results@);
    s
}

} // verus!
