use vstd::prelude::*;
use vstd::string::*;
use crate::text::{int_text, push_int};

verus! {

/// A column the list can be ordered by.
#[derive(Clone, Copy, Debug, PartialEq, Eq, Structural)]
pub enum SortField {
    Id,
    Nome,
    Preco,
}

#[derive(Clone, Copy, Debug, PartialEq, Eq, Structural)]
pub enum SortDirection {
    Asc,
    Desc,
}

/// The request for one page of the list.
#[derive(Debug)]
pub struct ListQuery {
    pub page: i64,
    pub page_size: i64,
    pub sort_field: SortField,
    pub sort_direction: SortDirection,
    /// The search term; absent when no filter applies.
    pub search: Option<String>,
}

pub open spec fn field_text(f: SortField) -> Seq<char> {
    match f {
        SortField::Id => seq!['i', 'd'],
        SortField::Nome => seq!['n', 'o', 'm', 'e'],
        SortField::Preco => seq!['p', 'r', 'e', 'c', 'o'],
    }
}

pub open spec fn direction_text(d: SortDirection) -> Seq<char> {
    match d {
        SortDirection::Asc => seq!['a', 's', 'c'],
        SortDirection::Desc => seq!['d', 'e', 's', 'c'],
    }
}

pub open spec fn base_url_text() -> Seq<char> {
    "http://localhost:3000"@
}

pub open spec fn items_url_text() -> Seq<char> {
    base_url_text() + "/itens"@
}

pub open spec fn item_url_text(id: int) -> Seq<char> {
    items_url_text() + seq!['/'] + int_text(id)
}

/// The full GET address for a list query.
pub open spec fn list_url_text(q: ListQuery) -> Seq<char> {
    items_url_text() + "?pagina="@ + int_text(q.page as int) + "&por_pagina="@ + int_text(
        q.page_size as int,
    ) + "&ordenar_por="@ + field_text(q.sort_field) + "&ordem="@ + direction_text(
        q.sort_direction,
    ) + match q.search {
        Some(t) => "&busca="@ + t@,
        None => Seq::empty(),
    }
}

/// The address of the item service.
pub fn api_url() -> (r: &'static str)
    ensures
        r@ == base_url_text(),
{
    "http://localhost:3000"
}

pub fn field_str(f: SortField) -> (r: &'static str)
    ensures
        r@ == field_text(f),
{
    proof {
        reveal_strlit("id");
        reveal_strlit("nome");
        reveal_strlit("preco");
    }
    match f {
        SortField::Id => "id",
        SortField::Nome => "nome",
        SortField::Preco => "preco",
    }
}

pub fn direction_str(d: SortDirection) -> (r: &'static str)
    ensures
        r@ == direction_text(d),
{
    proof {
        reveal_strlit("asc");
        reveal_strlit("desc");
    }
    match d {
        SortDirection::Asc => "asc",
        SortDirection::Desc => "desc",
    }
}

/// The address of the collection, for listing and creating.
pub fn items_url() -> (r: String)
    ensures
        r@ == items_url_text(),
{
    let mut s = String::from_str(api_url());
    s.append("/itens");
    s
}

/// The address of one item, for updating and deleting.
pub fn item_url(id: i32) -> (r: String)
    ensures
        r@ == item_url_text(id as int),
{
    let mut s = items_url();
    s.append("/");
    push_int(&mut s, id as i64);
    proof {
        reveal_strlit("/");
        assert(s@ =~= item_url_text(id as int));
    }
    s
}

impl ListQuery {
    /// The GET address that requests this page.
    pub fn url(&self) -> (r: String)
        ensures
            r@ == list_url_text(*self),
    {
        let mut s = items_url();
        s.append("?pagina=");
        push_int(&mut s, self.page);
        s.append("&por_pagina=");
        push_int(&mut s, self.page_size);
        s.append("&ordenar_por=");
        s.append(field_str(self.sort_field));
        s.append("&ordem=");
        s.append(direction_str(self.sort_direction));
        match &self.search {
            Some(t) => {
                s.append("&busca=");
                s.append(t.as_str());
            },
            None => {},
        }
        assert(s@ =~= list_url_text(*self));
        s
    }
}

} // verus!
