use vstd::prelude::*;
use crate::pagination::{page_window_spec, PageToken};
use crate::query::{ListQuery, SortDirection, SortField};
use crate::state::{sort_after, Effect, ViewState};
use crate::text::blank;

verus! {

/// The query built from a state carries a search term exactly when the applied search is
/// not blank, and then carries it unchanged; page, page size, column and direction are the
/// state's own.
pub proof fn law_query_mirrors_state(s: ViewState, q: ListQuery)
    requires
        s.query_for(q),
    ensures
        q.search is Some <==> !blank(s.search_applied@),
        q.search is Some ==> q.search->0@ == s.search_applied@,
        q.page == s.page,
        q.page_size == s.page_size,
        q.sort_field == s.sort_field,
        q.sort_direction == s.sort_direction,
{
}

/// With at most seven pages every page is listed, in order, and nothing else.
pub proof fn law_few_pages_listed_whole(current: i64, total: i64)
    requires
        current >= 1,
        0 <= total <= 7,
    ensures
        page_window_spec(current as int, total as int).len() == total,
        forall|i: int|
            0 <= i < total ==> page_window_spec(current as int, total as int)[i]
                == PageToken::Page((i + 1) as i64),
{
}

/// Each ellipsis stands between two page numbers and for at least one page left out
/// between them; so no two ellipses are adjacent, and none begins or ends the list.
pub proof fn law_ellipsis_stands_for_pages(current: i64, total: i64, i: int)
    requires
        current >= 1,
        0 <= i < page_window_spec(current as int, total as int).len(),
        page_window_spec(current as int, total as int)[i] is Ellipsis,
    ensures
        0 < i < page_window_spec(current as int, total as int).len() - 1,
        page_window_spec(current as int, total as int)[i - 1] is Page,
        page_window_spec(current as int, total as int)[i + 1] is Page,
        page_window_spec(current as int, total as int)[i + 1]->0 > page_window_spec(
            current as int,
            total as int,
        )[i - 1]->0 + 1,
{
}

/// "Previous" on the first page leads to the page already shown: going there leaves the
/// state as it was and fetches nothing.
pub proof fn law_previous_on_first_page_stays(s: ViewState, t: ViewState, e: Effect)
    requires
        s.wf(),
        s.page == 1,
        ViewState::settled(
            (ViewState { page: s.previous_target() as i64, ..s }),
            t,
            e,
            s.previous_target() != s.page,
        ),
    ensures
        t == s,
        e is Nothing,
{
    assert((ViewState { page: s.previous_target() as i64, ..s }) == s);
}

/// "Next" on the last page leads to the page already shown: going there leaves the state
/// as it was and fetches nothing.
pub proof fn law_next_on_last_page_stays(s: ViewState, t: ViewState, e: Effect)
    requires
        s.wf(),
        s.page == s.total_pages,
        ViewState::settled(
            (ViewState { page: s.next_target() as i64, ..s }),
            t,
            e,
            s.next_target() != s.page,
        ),
    ensures
        t == s,
        e is Nothing,
{
    assert((ViewState { page: s.next_target() as i64, ..s }) == s);
}

/// Clicking the active column twice brings its direction back.
pub proof fn law_sort_toggle_twice(field: SortField, dir: SortDirection)
    ensures
        sort_after(sort_after(field, dir, field).0, sort_after(field, dir, field).1, field) == (
            field,
            dir,
        ),
{
}

/// Clicking another column orders by it, ascending, whatever the direction was.
pub proof fn law_sort_other_column_ascending(field: SortField, dir: SortDirection, col: SortField)
    requires
        col != field,
    ensures
        sort_after(field, dir, col) == (col, SortDirection::Asc),
{
}

} // verus!
