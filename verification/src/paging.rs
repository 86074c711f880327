use vstd::prelude::*;
use vstd::string::StringExecFns;

verus! {

/// The number of pages of `per_page` items that `total_count` items fill:
/// the quotient rounded up and capped at `u32::MAX`; with no items per page,
/// `u32::MAX` pages for a positive count and none otherwise.
pub open spec fn pages_for(total_count: i64, per_page: u32) -> u32 {
    if per_page == 0 {
        if total_count > 0 { u32::MAX } else { 0 }
    } else if total_count <= 0 {
        0
    } else {
        let q = (total_count + per_page - 1) / (per_page as int);
        if q > u32::MAX { u32::MAX } else { q as u32 }
    }
}

/// The number of pages of a listing.
pub fn total_pages(total_count: i64, per_page: u32) -> (n: u32)
    ensures
        n == pages_for(total_count, per_page),
{
    if per_page == 0 {
        if total_count > 0 { u32::MAX } else { 0 }
    } else if total_count <= 0 {
        0
    } else {
        let q: i128 = (total_count as i128 + per_page as i128 - 1) / (per_page as i128);
        if q > u32::MAX as i128 { u32::MAX } else { q as u32 }
    }
}

/// One page of a listing, in the API's shape.
pub struct Page<T> {
    pub items: Vec<T>,
    pub page: u32,
    pub per_page: u32,
    pub total_count: i64,
    pub total_pages: u32,
}

/// A page holding `items`, with its position and the listing's size.
pub fn build_page<T>(items: Vec<T>, page: u32, per_page: u32, total_count: i64) -> (p: Page<T>)
    ensures
        p.items == items,
        p.page == page,
        p.per_page == per_page,
        p.total_count == total_count,
        p.total_pages == pages_for(total_count, per_page),
{
    let total_pages = total_pages(total_count, per_page);
    Page { items, page, per_page, total_count, total_pages }
}

/// The index of the first item of page `page` (pages count from 1; page 0 counts as page 1).
pub open spec fn page_start(page: u32, per_page: u32) -> int {
    (if page == 0 { 0 } else { page - 1 }) * per_page
}

/// The items of page `page`, `per_page` to a page.
pub fn page_slice<T>(items: Vec<T>, page: u32, per_page: u32) -> (r: Vec<T>)
    requires
        page_start(page, per_page) <= u32::MAX,
    ensures
        page_start(page, per_page) >= items@.len() ==> r@.len() == 0,
        page_start(page, per_page) < items@.len() ==> r@ == items@.subrange(
            page_start(page, per_page),
            if page_start(page, per_page) + per_page <= items@.len() {
                page_start(page, per_page) + per_page
            } else {
                items@.len() as int
            },
        ),
{
    let before = if page == 0 { 0 } else { page - 1 };
    let start = (before * per_page) as usize;
    let mut items = items;
    if start >= items.len() {
        return Vec::new();
    }
    let mut rest = items.split_off(start);
    rest.truncate(per_page as usize);
    rest
}

/// The kinds of content pages.
#[derive(Clone, Copy, Debug, PartialEq, Eq, Structural)]
pub enum PageType {
    Static,
    Blog,
}

/// A content page's kind, with the position of a static page.
#[derive(Clone, Copy, Debug)]
pub enum PageKind {
    Static { display_order: i32 },
    Blog,
}

/// The display position of a page: a static page's, none for a blog post.
pub fn display_order_of(kind: &PageKind) -> (r: Option<i32>)
    ensures
        match kind {
            PageKind::Static { display_order } => r == Some(*display_order),
            PageKind::Blog => r is None,
        },
{
    match kind {
        PageKind::Static { display_order } => Some(*display_order),
        PageKind::Blog => None,
    }
}

/// The pages of a listing to show: blog posts are paged when a page and a
/// page size are both given; static pages are listed whole.
pub fn pages_to_list<T>(items: Vec<T>, page_type: PageType, page: Option<u32>, per_page: Option<u32>) -> (r: Vec<T>)
    requires
        (page_type == PageType::Blog && page is Some && per_page is Some) ==> page_start(page->0, per_page->0) <= u32::MAX,
    ensures
        !(page_type == PageType::Blog && page is Some && per_page is Some) ==> r@ == items@,
        (page_type == PageType::Blog && page is Some && per_page is Some) ==> ({
            let s = page_start(page->0, per_page->0);
            let e = if s + per_page->0 <= items@.len() { s + per_page->0 } else { items@.len() as int };
            &&& s >= items@.len() ==> r@.len() == 0
            &&& s < items@.len() ==> r@ == items@.subrange(s, e)
        }),
{
    match (page_type, page, per_page) {
        (PageType::Blog, Some(p), Some(pp)) => page_slice(items, p, pp),
        _ => items,
    }
}

/// The name shown for a page's author: theirs, or "unknown" where the account is gone.
pub fn author_name(found: Option<String>) -> (n: String)
    ensures
        match found {
            Some(u) => n@ == u@,
            None => n@ == "unknown"@,
        },
{
    match found {
        Some(u) => u,
        None => String::from_str("unknown"),
    }
}

} // verus!

verus! {

/// The pages of a listing hold all its items and no empty page: with a
/// positive page size and count (and a page count below `u32::MAX`), all but
/// the last page fall short of the count, and all pages together reach it.
pub proof fn law_pages_cover_items(total_count: i64, per_page: u32)
    requires
        per_page > 0,
        total_count > 0,
        pages_for(total_count, per_page) < u32::MAX,
    ensures
        (pages_for(total_count, per_page) - 1) * per_page < total_count,
        total_count <= pages_for(total_count, per_page) * per_page,
{
    let p = per_page as int;
    let t = total_count as int;
    let q = (t + p - 1) / p;
    assert(q == pages_for(total_count, per_page));
    assert((q - 1) * p < t && t <= q * p) by (nonlinear_arith)
        requires
            p > 0,
            t > 0,
            q == (t + p - 1) / p,
    {
        vstd::arithmetic::div_mod::lemma_fundamental_div_mod(t + p - 1, p);
        vstd::arithmetic::div_mod::lemma_mod_bound(t + p - 1, p);
    }
}

/// Each item of a listing is on exactly one page: item `i` (from 0) is on
/// page `i / per_page + 1`, at position `i % per_page`.
pub proof fn law_item_on_its_page(i: nat, per_page: u32, page: u32)
    requires
        per_page > 0,
        page == i / (per_page as nat) + 1,
    ensures
        page_start(page, per_page) <= i < page_start(page, per_page) + per_page,
        i - page_start(page, per_page) == i % (per_page as nat),
{
    let p = per_page as int;
    let ii = i as int;
    assert(page_start(page, per_page) == (ii / p) * p);
    vstd::arithmetic::div_mod::lemma_fundamental_div_mod(ii, p);
    vstd::arithmetic::div_mod::lemma_mod_bound(ii, p);
    assert((ii / p) * p == p * (ii / p)) by (nonlinear_arith);
}

} // verus!
