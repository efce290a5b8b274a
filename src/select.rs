//! Resolving typed 1-based indices against a result set.
//!
//! An argument is a list of tokens separated by commas or white space. Each
//! token is resolved on its own, and the outcomes keep the order of the
//! tokens, so that an error in one never hides another. Zero and anything
//! that is not a numeral are malformed; a number past the end is out of
//! range. Only an argument with no token at all is a usage error: one whose
//! tokens are all invalid gets a report for each.

use vstd::prelude::*;
use crate::result::{SearchResult, best_image_spec};
use crate::text::{append_digits, chars_of, decimal, lemma_tokens_join, numeral_value, parse_numeral, token_spans, tokens};

verus! {

/// What one typed index comes to.
pub enum ShowItem {
    /// An element with an image; the index as typed and the image path.
    Image(usize, String),
    /// A text chunk, which has no image.
    TextChunk(usize),
    /// An element without an image path.
    NoImage(usize),
    /// A number past the end of the result set.
    OutOfRange(usize),
    /// A token that is no index: not a numeral, or zero.
    Malformed(String),
}

pub ghost enum ShowItemView {
    Image(nat, Seq<char>),
    TextChunk(nat),
    NoImage(nat),
    OutOfRange(nat),
    Malformed(Seq<char>),
}

impl View for ShowItem {
    type V = ShowItemView;

    open spec fn view(&self) -> ShowItemView {
        match self {
            ShowItem::Image(n, p) => ShowItemView::Image(*n as nat, p@),
            ShowItem::TextChunk(n) => ShowItemView::TextChunk(*n as nat),
            ShowItem::NoImage(n) => ShowItemView::NoImage(*n as nat),
            ShowItem::OutOfRange(n) => ShowItemView::OutOfRange(*n as nat),
            ShowItem::Malformed(t) => ShowItemView::Malformed(t@),
        }
    }
}

/// What the token `tok` comes to against `results`.
pub open spec fn show_item_spec(results: Seq<SearchResult>, tok: Seq<char>) -> ShowItemView {
    match numeral_value(tok) {
        Some(n) => if n == 0 || n > usize::MAX {
            ShowItemView::Malformed(tok)
        } else if n > results.len() {
            ShowItemView::OutOfRange(n)
        } else {
            let r = results[n - 1];
            if !r.is_element_spec() {
                ShowItemView::TextChunk(n)
            } else {
                match best_image_spec(r) {
                    Some(p) => ShowItemView::Image(n, p),
                    None => ShowItemView::NoImage(n),
                }
            }
        },
        None => ShowItemView::Malformed(tok),
    }
}

/// What each token of `arg` comes to, in order.
pub open spec fn show_items_spec(results: Seq<SearchResult>, arg: Seq<char>) -> Seq<ShowItemView> {
    let toks = tokens(arg, true);
    Seq::new(toks.len(), |k: int| show_item_spec(results, toks[k]))
}

pub open spec fn items_view(items: Seq<ShowItem>) -> Seq<ShowItemView> {
    items.map_values(|x: ShowItem| x@)
}

/// Resolves each index of `arg` against `results`.
pub fn show_items(results: &Vec<SearchResult>, arg: &str) -> (r: Vec<ShowItem>)
    ensures
        items_view(r@) == show_items_spec(results@, arg@),
{
    let v = chars_of(arg);
    let spans = token_spans(&v, 0, v.len(), true);
    assert(v@.subrange(0, v@.len() as int) =~= arg@);
    let ghost toks = tokens(arg@, true);
    let mut out: Vec<ShowItem> = Vec::new();
    let mut k: usize = 0;
    while k < spans.len()
        invariant
            toks == tokens(arg@, true),
            v@ == arg@,
            toks.len() == spans@.len(),
            forall|j: int| 0 <= j < spans@.len() ==> toks[j] == v@.subrange(#[trigger] spans@[j].0 as int, spans@[j].1 as int),
            forall|j: int| 0 <= j < spans@.len() ==> 0 <= #[trigger] spans@[j].0 <= spans@[j].1 <= v@.len(),
            k <= spans@.len(),
            out@.len() == k,
            forall|j: int| 0 <= j < k ==> (#[trigger] out@[j])@ == show_item_spec(results@, toks[j]),
        decreases spans.len() - k,
    {
        let (a, b) = spans[k];
        assert(toks[k as int] == v@.subrange(a as int, b as int));
        let item = match parse_numeral(&v, a, b, usize::MAX as u64) {
            Some(n) => {
                let n = n as usize;
                if n == 0 {
                    ShowItem::Malformed(arg.substring_char(a, b).to_owned())
                } else if n > results.len() {
                    ShowItem::OutOfRange(n)
                } else {
                    let r = &results[n - 1];
                    if !r.is_element() {
                        ShowItem::TextChunk(n)
                    } else {
                        match r.best_image_path() {
                            Some(p) => ShowItem::Image(n, p),
                            None => ShowItem::NoImage(n),
                        }
                    }
                }
            },
            None => ShowItem::Malformed(arg.substring_char(a, b).to_owned()),
        };
        out.push(item);
        k = k + 1;
    }
    assert(items_view(out@) =~= show_items_spec(results@, arg@));
    out
}

/// In a set of `N` results, the index `N + 1` is reported out of range where
/// it stands in the list, and every other token of the same argument comes to
/// what it comes to by itself: one outcome per token, in the tokens' order.
pub proof fn lemma_past_end_isolated(results: Seq<SearchResult>, arg: Seq<char>, k: int)
    requires
        0 <= k < tokens(arg, true).len(),
        numeral_value(tokens(arg, true)[k]) == Some((results.len() + 1) as nat),
        results.len() + 1 <= usize::MAX,
    ensures
        show_items_spec(results, arg).len() == tokens(arg, true).len(),
        show_items_spec(results, arg)[k] == ShowItemView::OutOfRange((results.len() + 1) as nat),
        forall|j: int|
            0 <= j < tokens(arg, true).len() ==> #[trigger] show_items_spec(results, arg)[j]
                == show_item_spec(results, tokens(arg, true)[j]),
{
}

/// Indices joined by a comma are resolved as if each part were given by
/// itself: the outcomes of `a,b` are those of `a` followed by those of `b`.
pub proof fn lemma_indices_resolve_apart(results: Seq<SearchResult>, a: Seq<char>, b: Seq<char>)
    ensures
        show_items_spec(results, a + seq![','] + b) == show_items_spec(results, a) + show_items_spec(results, b),
{
    lemma_tokens_join(a, ',', b, true);
    let ta = tokens(a, true);
    let tb = tokens(b, true);
    assert(tokens(a + seq![','] + b, true) == ta + tb);
    assert(show_items_spec(results, a + seq![','] + b) =~= show_items_spec(results, a) + show_items_spec(results, b));
}

/// The report for an index past the end of a set of `len` results:
/// `Invalid index [n]. Use 1-len`.
pub open spec fn invalid_index_text(n: int, len: int) -> Seq<char> {
    "Invalid index ["@ + decimal(n) + "]. Use 1-"@ + decimal(len)
}

/// The report for index `n` past the end of a set of `len` results.
pub fn invalid_index_message(n: usize, len: usize) -> (r: String)
    ensures
        r@ == invalid_index_text(n as int, len as int),
{
    let mut s = String::new();
    s.append("Invalid index [");
    append_digits(&mut s, n as u64);
    s.append("]. Use 1-");
    append_digits(&mut s, len as u64);
    assert(s@ =~= invalid_index_text(n as int, len as int));
    s
}

/// The report for a token that is no index, against a set of `len` results:
/// `Invalid index [tok]. Use 1-len`.
pub open spec fn malformed_index_text(tok: Seq<char>, len: int) -> Seq<char> {
    "Invalid index ["@ + tok + "]. Use 1-"@ + decimal(len)
}

/// The report for token `tok`, which is no index, against `len` results.
pub fn malformed_index_message(tok: &str, len: usize) -> (r: String)
    ensures
        r@ == malformed_index_text(tok@, len as int),
{
    let mut s = String::new();
    s.append("Invalid index [");
    s.append(tok);
    s.append("]. Use 1-");
    append_digits(&mut s, len as u64);
    assert(s@ =~= malformed_index_text(tok@, len as int));
    s
}

} // verus!
