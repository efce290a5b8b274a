//! Where the retrieval service answers each call.

use vstd::prelude::*;
use crate::text::{append_decimal, chars_of, decimal};

verus! {

/// `s` without the `/` characters that end it.
pub open spec fn trim_slashes(s: Seq<char>) -> Seq<char>
    decreases s.len(),
{
    if s.len() > 0 && s.last() == '/' {
        trim_slashes(s.drop_last())
    } else {
        s
    }
}

/// The service's base URL without trailing slashes.
pub fn base_url(url: &str) -> (r: String)
    ensures
        r@ == trim_slashes(url@),
{
    let v = chars_of(url);
    let mut b: usize = v.len();
    assert(v@.subrange(0, b as int) =~= url@);
    while b > 0 && v[b - 1] == '/'
        invariant
            b <= v@.len(),
            v@ == url@,
            trim_slashes(url@) == trim_slashes(v@.subrange(0, b as int)),
        decreases b,
    {
        assert(v@.subrange(0, b as int).drop_last() =~= v@.subrange(0, b - 1));
        b = b - 1;
    }
    url.substring_char(0, b).to_owned()
}

pub open spec fn documents_text(base: Seq<char>, page: int, page_size: int, sort_by: Seq<char>) -> Seq<char> {
    base + "/documents?page="@ + decimal(page) + "&page_size="@ + decimal(page_size) + "&sort_by="@ + sort_by
}

pub open spec fn page_text(base: Seq<char>, slug: Seq<char>, page: int) -> Seq<char> {
    base + "/page/"@ + slug + "/"@ + decimal(page)
}

pub open spec fn image_text(base: Seq<char>, slug: Seq<char>, path: Seq<char>) -> Seq<char> {
    base + "/image/"@ + slug + "/"@ + path
}

/// `base` followed by `tail`.
pub fn endpoint(base: &str, tail: &str) -> (r: String)
    ensures
        r@ == base@ + tail@,
{
    let mut s = base.to_owned();
    s.append(tail);
    s
}

/// The URL of one page of the document list.
pub fn documents_url(base: &str, page: i32, page_size: i32, sort_by: &str) -> (r: String)
    ensures
        r@ == documents_text(base@, page as int, page_size as int, sort_by@),
{
    let mut s = base.to_owned();
    s.append("/documents?page=");
    append_decimal(&mut s, page as i64);
    s.append("&page_size=");
    append_decimal(&mut s, page_size as i64);
    s.append("&sort_by=");
    s.append(sort_by);
    assert(s@ =~= documents_text(base@, page as int, page_size as int, sort_by@));
    s
}

/// The URL of one document's details.
pub fn document_url(base: &str, slug: &str) -> (r: String)
    ensures
        r@ == base@ + "/documents/"@ + slug@,
{
    let mut s = base.to_owned();
    s.append("/documents/");
    s.append(slug);
    s
}

/// The URL of one page of a document.
pub fn page_url(base: &str, slug: &str, page: i32) -> (r: String)
    ensures
        r@ == page_text(base@, slug@, page as int),
{
    let mut s = base.to_owned();
    s.append("/page/");
    s.append(slug);
    s.append("/");
    append_decimal(&mut s, page as i64);
    assert(s@ =~= page_text(base@, slug@, page as int));
    s
}

/// The URL of an element's image.
pub fn image_url(base: &str, slug: &str, path: &str) -> (r: String)
    ensures
        r@ == image_text(base@, slug@, path@),
{
    let mut s = base.to_owned();
    s.append("/image/");
    s.append(slug);
    s.append("/");
    s.append(path);
    assert(s@ =~= image_text(base@, slug@, path@));
    s
}

} // verus!
