use vstd::prelude::*;

verus! {

/// One entry of the pagination controls: a page number, or a marker for an elided range.
#[derive(Clone, Copy, Debug, PartialEq, Eq, Structural)]
pub enum PageToken {
    Page(i64),
    Ellipsis,
}

/// The pages `lo..=hi`, in order (empty when `hi < lo`).
pub open spec fn pages_between(lo: int, hi: int) -> Seq<PageToken> {
    Seq::new(if hi < lo { 0 } else { (hi - lo + 1) as nat }, |i: int| PageToken::Page((lo + i) as i64))
}

pub open spec fn ellipsis_if(b: bool) -> Seq<PageToken> {
    if b {
        seq![PageToken::Ellipsis]
    } else {
        Seq::empty()
    }
}

/// The compressed page list for page `current` of `total`: all pages when there are at
/// most seven; otherwise the first page, the neighbours of `current`, the last page, and
/// an ellipsis wherever pages are left out between them.
pub open spec fn page_window_spec(current: int, total: int) -> Seq<PageToken> {
    if total <= 7 {
        pages_between(1, total)
    } else {
        let lo = if current - 1 > 2 { current - 1 } else { 2 };
        let hi = if current + 1 < total - 1 { current + 1 } else { total - 1 };
        seq![PageToken::Page(1)] + ellipsis_if(current > 3) + pages_between(lo, hi)
            + ellipsis_if(current < total - 2) + seq![PageToken::Page(total as i64)]
    }
}

fn push_pages(out: &mut Vec<PageToken>, lo: i64, hi: i64)
    requires
        lo >= 1,
    ensures
        final(out)@ == old(out)@ + pages_between(lo as int, hi as int),
{
    if hi < lo {
        assert(pages_between(lo as int, hi as int) =~= Seq::empty());
        assert(final(out)@ =~= old(out)@ + pages_between(lo as int, hi as int));
        return;
    }
    let ghost start = out@;
    let mut i: i64 = lo;
    loop
        invariant_except_break
            lo <= i <= hi,
            out@ == start + pages_between(lo as int, i - 1),
        ensures
            out@ == start + pages_between(lo as int, hi as int),
        decreases hi - i,
    {
        out.push(PageToken::Page(i));
        assert(out@ =~= start + pages_between(lo as int, i as int));
        if i == hi {
            break;
        }
        i = i + 1;
    }
}

/// The pagination tokens to show for page `current` of `total` pages.
pub fn page_window(current: i64, total: i64) -> (r: Vec<PageToken>)
    requires
        current >= 1,
    ensures
        r@ == page_window_spec(current as int, total as int),
{
    let mut r: Vec<PageToken> = Vec::new();
    if total <= 7 {
        push_pages(&mut r, 1, total);
        assert(r@ =~= page_window_spec(current as int, total as int));
        return r;
    }
    r.push(PageToken::Page(1));
    if current > 3 {
        r.push(PageToken::Ellipsis);
    }
    let lo: i64 = if current - 1 > 2 { current - 1 } else { 2 };
    let hi: i64 = if current < total - 2 { current + 1 } else { total - 1 };
    // Every page pushed here lies strictly between 1 and `total`, so none repeats.
    push_pages(&mut r, lo, hi);
    if current < total - 2 {
        r.push(PageToken::Ellipsis);
    }
    r.push(PageToken::Page(total));
    assert(r@ =~= page_window_spec(current as int, total as int));
    r
}

} // verus!
