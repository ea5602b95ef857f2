use itens_client::query::{item_url, items_url, ListQuery, SortDirection, SortField};

#[test]
fn list_url_without_search() {
    let q = ListQuery {
        page: 2,
        page_size: 20,
        sort_field: SortField::Nome,
        sort_direction: SortDirection::Desc,
        search: None,
    };
    assert_eq!(q.url(), "http://localhost:3000/itens?pagina=2&por_pagina=20&ordenar_por=nome&ordem=desc");
}

#[test]
fn list_url_with_search() {
    let q = ListQuery {
        page: 1,
        page_size: 5,
        sort_field: SortField::Preco,
        sort_direction: SortDirection::Asc,
        search: Some("mesa".to_string()),
    };
    assert_eq!(
        q.url(),
        "http://localhost:3000/itens?pagina=1&por_pagina=5&ordenar_por=preco&ordem=asc&busca=mesa"
    );
}

#[test]
fn item_addresses() {
    assert_eq!(items_url(), "http://localhost:3000/itens");
    assert_eq!(item_url(42), "http://localhost:3000/itens/42");
}
