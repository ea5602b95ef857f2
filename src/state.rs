use vstd::prelude::*;
use vstd::string::*;
use crate::pagination::{page_window, page_window_spec, PageToken};
use crate::query::{ListQuery, SortDirection, SortField};
use crate::text::{blank, cents_text, cents_to_text, is_blank};

verus! {

/// An item as the service holds it; the price is kept in hundredths.
#[derive(Clone, Debug)]
pub struct Item {
    pub id: i32,
    pub nome: String,
    pub preco_centavos: i64,
}

/// The form draft for creating or editing an item: the name and the price as typed.
#[derive(Clone, Debug)]
pub struct NovoItem {
    pub nome: String,
    pub preco: String,
}

/// One page of the list, as the service answers it.
#[derive(Clone, Debug)]
pub struct ListarResponse {
    pub itens: Vec<Item>,
    pub total: i64,
    pub pagina: i64,
    pub por_pagina: i64,
    pub total_paginas: i64,
}

/// The active screen; a form screen carries its draft, the edit screen also the item id.
#[derive(Clone, Debug)]
pub enum Screen {
    Lista,
    Novo(NovoItem),
    Editar(i32, NovoItem),
}

#[derive(Clone, Copy, Debug, PartialEq, Eq, Structural)]
pub enum Operation {
    List,
    Create,
    Update,
    Delete,
}

/// The error shown to the user; a new one replaces the previous.
#[derive(Clone, Debug)]
pub enum Failure {
    /// The name or the price of the draft is blank.
    MissingFields(Operation),
    /// The price of the draft is not a number.
    InvalidPrice,
    /// The request could not be put together.
    Request(String),
    /// The request did not reach the service.
    Transport(Operation, String),
    /// The answer did not have the expected shape.
    Decode(Operation, String),
    /// A delete was answered with a status other than 204.
    Status(u16),
}

/// What the caller has to do after a transition.
#[derive(Debug)]
pub enum Effect {
    Nothing,
    /// Fetch the list page; the answer is handed back with this sequence number.
    Fetch(u64, ListQuery),
    Create(NovoItem),
    Update(i32, NovoItem),
    Delete(i32),
}

pub open spec fn allowed_page_size(n: int) -> bool {
    n == 5 || n == 10 || n == 20 || n == 50
}

pub open spec fn next_seq(n: u64) -> u64 {
    if n == u64::MAX {
        0
    } else {
        (n + 1) as u64
    }
}

pub open spec fn flip(d: SortDirection) -> SortDirection {
    match d {
        SortDirection::Asc => SortDirection::Desc,
        SortDirection::Desc => SortDirection::Asc,
    }
}

/// The ordering after a click on column `col`: the same column flips the direction,
/// another column is taken in ascending order.
pub open spec fn sort_after(field: SortField, dir: SortDirection, col: SortField) -> (
    SortField,
    SortDirection,
) {
    if col == field {
        (field, flip(dir))
    } else {
        (col, SortDirection::Asc)
    }
}

/// The search term that a query carries for an applied search text.
pub open spec fn applied_term(s: Seq<char>) -> Option<Seq<char>> {
    if blank(s) {
        None
    } else {
        Some(s)
    }
}

pub open spec fn term_view(o: Option<String>) -> Option<Seq<char>> {
    match o {
        Some(t) => Some(t@),
        None => None,
    }
}

/// Why a draft is refused, if it is.
pub open spec fn validation(d: NovoItem, price_parses: bool, op: Operation) -> Option<Failure> {
    if blank(d.nome@) || blank(d.preco@) {
        Some(Failure::MissingFields(op))
    } else if !price_parses {
        Some(Failure::InvalidPrice)
    } else {
        None
    }
}

/// All the state of the list and form screens.
#[derive(Debug)]
pub struct ViewState {
    pub screen: Screen,
    /// The search text as typed.
    pub search_draft: String,
    /// The search text that the list query uses.
    pub search_applied: String,
    pub sort_field: SortField,
    pub sort_direction: SortDirection,
    pub page: i64,
    pub page_size: i64,
    pub total: i64,
    pub total_pages: i64,
    pub items: Vec<Item>,
    pub loading: bool,
    pub error: Option<Failure>,
    /// The sequence number of the latest list fetch; answers to older ones are ignored.
    pub latest_fetch: u64,
}

impl NovoItem {
    pub fn new() -> (r: NovoItem)
        ensures
            r.nome@ == Seq::<char>::empty(),
            r.preco@ == Seq::<char>::empty(),
    {
        NovoItem { nome: String::new(), preco: String::new() }
    }

    pub fn duplicate(&self) -> (r: NovoItem)
        ensures
            r == *self,
    {
        NovoItem { nome: self.nome.clone(), preco: self.preco.clone() }
    }
}

impl ViewState {
    pub open spec fn wf(&self) -> bool {
        self.page >= 1 && allowed_page_size(self.page_size as int)
    }

    /// `q` is the list query that this state asks for.
    pub open spec fn query_for(&self, q: ListQuery) -> bool {
        &&& q.page == self.page
        &&& q.page_size == self.page_size
        &&& q.sort_field == self.sort_field
        &&& q.sort_direction == self.sort_direction
        &&& term_view(q.search) == applied_term(self.search_applied@)
    }

    /// Where the "previous" control leads: one page back, but not before the first.
    pub open spec fn previous_target(&self) -> int {
        if self.page > 1 {
            self.page - 1
        } else {
            1
        }
    }

    /// Where the "next" control leads: one page on, but not past the last.
    pub open spec fn next_target(&self) -> int {
        if self.page < self.total_pages {
            self.page + 1
        } else if self.total_pages >= 1 {
            self.total_pages as int
        } else {
            1
        }
    }

    /// `new` is `mid` with a list fetch issued, and `e` asks for that fetch.
    pub open spec fn reloaded(mid: ViewState, new: ViewState, e: Effect) -> bool {
        &&& new == ViewState {
            latest_fetch: next_seq(mid.latest_fetch),
            loading: true,
            error: None,
            ..mid
        }
        &&& e is Fetch
        &&& e->Fetch_0 == new.latest_fetch
        &&& new.query_for(e->Fetch_1)
    }

    /// A fetch is issued exactly when a value that the query depends on changed.
    pub open spec fn settled(mid: ViewState, new: ViewState, e: Effect, changed: bool) -> bool {
        if changed {
            Self::reloaded(mid, new, e)
        } else {
            new == mid && e is Nothing
        }
    }

    /// The state at start: first page of ten, ordered by id ascending, no search.
    pub fn new() -> (r: ViewState)
        ensures
            r.wf(),
            r.screen is Lista,
            r.search_draft@ == Seq::<char>::empty(),
            r.search_applied@ == Seq::<char>::empty(),
            r.sort_field == SortField::Id,
            r.sort_direction == SortDirection::Asc,
            r.page == 1,
            r.page_size == 10,
            r.total == 0,
            r.total_pages == 0,
            r.items@ == Seq::<Item>::empty(),
            !r.loading,
            r.error is None,
            r.latest_fetch == 0,
    {
        ViewState {
            screen: Screen::Lista,
            search_draft: String::new(),
            search_applied: String::new(),
            sort_field: SortField::Id,
            sort_direction: SortDirection::Asc,
            page: 1,
            page_size: 10,
            total: 0,
            total_pages: 0,
            items: Vec::new(),
            loading: false,
            error: None,
            latest_fetch: 0,
        }
    }

    /// The list query for the current state.
    pub fn query(&self) -> (q: ListQuery)
        ensures
            self.query_for(q),
    {
        let search = if is_blank(self.search_applied.as_str()) {
            None
        } else {
            Some(self.search_applied.clone())
        };
        ListQuery {
            page: self.page,
            page_size: self.page_size,
            sort_field: self.sort_field,
            sort_direction: self.sort_direction,
            search,
        }
    }

    /// Issues a fetch of the current page.
    pub fn reload(&mut self) -> (e: Effect)
        requires
            old(self).wf(),
        ensures
            final(self).wf(),
            Self::reloaded(*old(self), *final(self), e),
    {
        self.latest_fetch = if self.latest_fetch == u64::MAX {
            0
        } else {
            self.latest_fetch + 1
        };
        self.loading = true;
        self.error = None;
        Effect::Fetch(self.latest_fetch, self.query())
    }

    /// The search box was edited; only the draft changes.
    pub fn edit_search(&mut self, text: String)
        ensures
            *final(self) == (ViewState { search_draft: text, ..*old(self) }),
    {
        self.search_draft = text;
    }

    /// Applies the typed search and goes back to the first page.
    pub fn apply_search(&mut self) -> (e: Effect)
        requires
            old(self).wf(),
        ensures
            final(self).wf(),
            final(self).page == 1,
            final(self).search_applied@ == old(self).search_draft@,
            Self::settled(
                (ViewState { search_applied: old(self).search_draft, page: 1, ..*old(self) }),
                *final(self),
                e,
                old(self).search_draft@ != old(self).search_applied@ || old(self).page != 1,
            ),
    {
        let changed = self.search_draft != self.search_applied || self.page != 1;
        self.search_applied = self.search_draft.clone();
        self.page = 1;
        if changed {
            self.reload()
        } else {
            Effect::Nothing
        }
    }

    /// Takes a new page size and goes back to the first page; a size other than
    /// 5, 10, 20 or 50 is ignored.
    pub fn change_page_size(&mut self, size: i64) -> (e: Effect)
        requires
            old(self).wf(),
        ensures
            final(self).wf(),
            !allowed_page_size(size as int) ==> *final(self) == *old(self) && e is Nothing,
            allowed_page_size(size as int) ==> {
                &&& final(self).page == 1
                &&& final(self).page_size == size
                &&& Self::settled(
                    (ViewState { page_size: size, page: 1, ..*old(self) }),
                    *final(self),
                    e,
                    size != old(self).page_size || old(self).page != 1,
                )
            },
    {
        if !(size == 5 || size == 10 || size == 20 || size == 50) {
            return Effect::Nothing;
        }
        let changed = size != self.page_size || self.page != 1;
        self.page_size = size;
        self.page = 1;
        if changed {
            self.reload()
        } else {
            Effect::Nothing
        }
    }

    /// A click on the header of column `col`.
    pub fn activate_sort(&mut self, col: SortField) -> (e: Effect)
        requires
            old(self).wf(),
        ensures
            final(self).wf(),
            final(self).page == 1,
            (final(self).sort_field, final(self).sort_direction) == sort_after(
                old(self).sort_field,
                old(self).sort_direction,
                col,
            ),
            Self::reloaded(
                (ViewState {
                    sort_field: sort_after(old(self).sort_field, old(self).sort_direction, col).0,
                    sort_direction: sort_after(old(self).sort_field, old(self).sort_direction, col).1,
                    page: 1,
                    ..*old(self)
                }),
                *final(self),
                e,
            ),
    {
        if col == self.sort_field {
            self.sort_direction = match self.sort_direction {
                SortDirection::Asc => SortDirection::Desc,
                SortDirection::Desc => SortDirection::Asc,
            };
        } else {
            self.sort_field = col;
            self.sort_direction = SortDirection::Asc;
        }
        self.page = 1;
        self.reload()
    }

    /// Goes to page `p`.
    pub fn go_to_page(&mut self, p: i64) -> (e: Effect)
        requires
            old(self).wf(),
            p >= 1,
        ensures
            final(self).wf(),
            final(self).page == p,
            Self::settled((ViewState { page: p, ..*old(self) }), *final(self), e, p != old(self).page),
    {
        let changed = p != self.page;
        self.page = p;
        if changed {
            self.reload()
        } else {
            Effect::Nothing
        }
    }

    /// The target of the "previous" control.
    pub fn previous_page(&self) -> (p: i64)
        requires
            self.wf(),
        ensures
            p >= 1,
            p == self.previous_target(),
    {
        if self.page > 1 {
            self.page - 1
        } else {
            1
        }
    }

    /// The target of the "next" control: one page on, but not past the last.
    pub fn next_page(&self) -> (p: i64)
        requires
            self.wf(),
        ensures
            p >= 1,
            p == self.next_target(),
    {
        if self.page < self.total_pages {
            self.page + 1
        } else if self.total_pages >= 1 {
            self.total_pages
        } else {
            1
        }
    }

    /// The pagination controls for the current page.
    pub fn page_tokens(&self) -> (r: Vec<PageToken>)
        requires
            self.wf(),
        ensures
            r@ == page_window_spec(self.page as int, self.total_pages as int),
    {
        page_window(self.page, self.total_pages)
    }

    /// The direction shown beside the header of `col`, when the list is ordered by it.
    pub fn sort_marker(&self, col: SortField) -> (r: Option<SortDirection>)
        ensures
            r == (if col == self.sort_field {
                Some(self.sort_direction)
            } else {
                None
            }),
    {
        if col == self.sort_field {
            Some(self.sort_direction)
        } else {
            None
        }
    }

    /// Opens the create form with an empty draft.
    pub fn enter_create(&mut self)
        ensures
            final(self).screen is Novo,
            final(self).screen->Novo_0.nome@ == Seq::<char>::empty(),
            final(self).screen->Novo_0.preco@ == Seq::<char>::empty(),
            *final(self) == (ViewState { screen: final(self).screen, ..*old(self) }),
    {
        self.screen = Screen::Novo(NovoItem::new());
    }

    /// Opens the edit form for `item`, with its name and its price to two decimals.
    pub fn enter_edit(&mut self, item: &Item)
        ensures
            final(self).screen is Editar,
            final(self).screen->Editar_0 == item.id,
            final(self).screen->Editar_1.nome@ == item.nome@,
            final(self).screen->Editar_1.preco@ == cents_text(item.preco_centavos as int),
            *final(self) == (ViewState { screen: final(self).screen, ..*old(self) }),
    {
        let draft = NovoItem { nome: item.nome.clone(), preco: cents_to_text(item.preco_centavos) };
        self.screen = Screen::Editar(item.id, draft);
    }

    /// Back to the list.
    pub fn cancel(&mut self)
        ensures
            *final(self) == (ViewState { screen: Screen::Lista, ..*old(self) }),
    {
        self.screen = Screen::Lista;
    }

    /// The name field of the open form was edited.
    pub fn edit_name(&mut self, text: String)
        ensures
            final(self).screen == match old(self).screen {
                Screen::Lista => Screen::Lista,
                Screen::Novo(d) => Screen::Novo(NovoItem { nome: text, ..d }),
                Screen::Editar(id, d) => Screen::Editar(id, NovoItem { nome: text, ..d }),
            },
            *final(self) == (ViewState { screen: final(self).screen, ..*old(self) }),
    {
        let screen = match &self.screen {
            Screen::Lista => Screen::Lista,
            Screen::Novo(d) => Screen::Novo(NovoItem { nome: text, preco: d.preco.clone() }),
            Screen::Editar(id, d) => Screen::Editar(
                *id,
                NovoItem { nome: text, preco: d.preco.clone() },
            ),
        };
        self.screen = screen;
    }

    /// The price field of the open form was edited.
    pub fn edit_price(&mut self, text: String)
        ensures
            final(self).screen == match old(self).screen {
                Screen::Lista => Screen::Lista,
                Screen::Novo(d) => Screen::Novo(NovoItem { preco: text, ..d }),
                Screen::Editar(id, d) => Screen::Editar(id, NovoItem { preco: text, ..d }),
            },
            *final(self) == (ViewState { screen: final(self).screen, ..*old(self) }),
    {
        let screen = match &self.screen {
            Screen::Lista => Screen::Lista,
            Screen::Novo(d) => Screen::Novo(NovoItem { nome: d.nome.clone(), preco: text }),
            Screen::Editar(id, d) => Screen::Editar(
                *id,
                NovoItem { nome: d.nome.clone(), preco: text },
            ),
        };
        self.screen = screen;
    }

    /// Submits the open form. `price_parses` tells whether the draft's price text reads
    /// as a number that is not NaN. A refused draft sets the error and asks for nothing;
    /// an accepted one asks to create or update.
    pub fn submit(&mut self, price_parses: bool) -> (e: Effect)
        ensures
            match old(self).screen {
                Screen::Lista => *final(self) == *old(self) && e is Nothing,
                Screen::Novo(d) => match validation(d, price_parses, Operation::Create) {
                    Some(f) => *final(self) == (ViewState { error: Some(f), ..*old(self) })
                        && e is Nothing,
                    None => *final(self) == (ViewState {
                        loading: true,
                        error: None,
                        ..*old(self)
                    }) && e == Effect::Create(d),
                },
                Screen::Editar(id, d) => match validation(d, price_parses, Operation::Update) {
                    Some(f) => *final(self) == (ViewState { error: Some(f), ..*old(self) })
                        && e is Nothing,
                    None => *final(self) == (ViewState {
                        loading: true,
                        error: None,
                        ..*old(self)
                    }) && e == Effect::Update(id, d),
                },
            },
    {
        let (op, id, draft) = match &self.screen {
            Screen::Lista => {
                return Effect::Nothing;
            },
            Screen::Novo(d) => (Operation::Create, 0i32, d.duplicate()),
            Screen::Editar(id, d) => (Operation::Update, *id, d.duplicate()),
        };
        if is_blank(draft.nome.as_str()) || is_blank(draft.preco.as_str()) {
            self.error = Some(Failure::MissingFields(op));
            return Effect::Nothing;
        }
        if !price_parses {
            self.error = Some(Failure::InvalidPrice);
            return Effect::Nothing;
        }
        self.loading = true;
        self.error = None;
        match op {
            Operation::Create => Effect::Create(draft),
            _ => Effect::Update(id, draft),
        }
    }

    /// The service accepted a create or an update: back to the list, which is fetched again.
    pub fn save_succeeded(&mut self) -> (e: Effect)
        requires
            old(self).wf(),
        ensures
            final(self).wf(),
            Self::reloaded(
                (ViewState { screen: Screen::Lista, loading: false, ..*old(self) }),
                *final(self),
                e,
            ),
    {
        self.screen = Screen::Lista;
        self.loading = false;
        self.reload()
    }

    /// A create, an update or a delete failed; the screen stays as it is.
    pub fn request_failed(&mut self, f: Failure)
        ensures
            *final(self) == (ViewState { error: Some(f), loading: false, ..*old(self) }),
    {
        self.error = Some(f);
        self.loading = false;
    }

    /// Asks to delete the item `id`; the list is left as it is until the service answers.
    pub fn delete(&mut self, id: i32) -> (e: Effect)
        ensures
            *final(self) == (ViewState { loading: true, error: None, ..*old(self) }),
            e == Effect::Delete(id),
    {
        self.loading = true;
        self.error = None;
        Effect::Delete(id)
    }

    /// The service answered a delete with `status`: 204 fetches the list again, any
    /// other status is an error and fetches nothing.
    pub fn delete_responded(&mut self, status: u16) -> (e: Effect)
        requires
            old(self).wf(),
        ensures
            final(self).wf(),
            final(self).items@ == old(self).items@,
            status == 204 ==> e is Fetch && final(self).error is None,
            status != 204 ==> e is Nothing && final(self).error == Some(Failure::Status(status)),
            status == 204 ==> Self::reloaded(
                (ViewState { loading: false, ..*old(self) }),
                *final(self),
                e,
            ),
            status != 204 ==> *final(self) == (ViewState {
                loading: false,
                error: Some(Failure::Status(status)),
                ..*old(self)
            }),
    {
        self.loading = false;
        if status == 204 {
            self.reload()
        } else {
            self.error = Some(Failure::Status(status));
            Effect::Nothing
        }
    }

    /// The answer to list fetch `seq`; only the latest fetch's answer is taken.
    pub fn list_loaded(&mut self, seq: u64, resp: ListarResponse)
        requires
            old(self).wf(),
        ensures
            final(self).wf(),
            seq == old(self).latest_fetch ==> *final(self) == (ViewState {
                items: resp.itens,
                total: resp.total,
                total_pages: resp.total_paginas,
                loading: false,
                ..*old(self)
            }),
            seq != old(self).latest_fetch ==> *final(self) == *old(self),
    {
        if seq == self.latest_fetch {
            self.items = resp.itens;
            self.total = resp.total;
            self.total_pages = resp.total_paginas;
            self.loading = false;
        }
    }

    /// List fetch `seq` failed; only the latest fetch's failure is shown.
    pub fn list_failed(&mut self, seq: u64, f: Failure)
        requires
            old(self).wf(),
        ensures
            final(self).wf(),
            seq == old(self).latest_fetch ==> *final(self) == (ViewState {
                error: Some(f),
                loading: false,
                ..*old(self)
            }),
            seq != old(self).latest_fetch ==> *final(self) == *old(self),
    {
        if seq == self.latest_fetch {
            self.error = Some(f);
            self.loading = false;
        }
    }
}

} // verus!
