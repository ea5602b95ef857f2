use itens_client::query::{SortDirection, SortField};
use itens_client::state::{Effect, Failure, Item, ListarResponse, NovoItem, Operation, Screen, ViewState};

fn fetch_url(e: &Effect) -> String {
    match e {
        Effect::Fetch(_, q) => q.url(),
        other => panic!("expected a fetch, got {:?}", other),
    }
}

fn fetch_seq(e: &Effect) -> u64 {
    match e {
        Effect::Fetch(seq, _) => *seq,
        other => panic!("expected a fetch, got {:?}", other),
    }
}

fn item(id: i32, nome: &str, preco_centavos: i64) -> Item {
    Item { id, nome: nome.to_string(), preco_centavos }
}

#[test]
fn initial_load_query() {
    let mut s = ViewState::new();
    assert_eq!(s.page, 1);
    assert_eq!(s.page_size, 10);
    assert_eq!(s.sort_field, SortField::Id);
    assert_eq!(s.sort_direction, SortDirection::Asc);
    assert!(s.search_applied.is_empty());
    let e = s.reload();
    assert_eq!(fetch_url(&e), "http://localhost:3000/itens?pagina=1&por_pagina=10&ordenar_por=id&ordem=asc");
    assert!(s.loading);
    assert!(s.error.is_none());
}

#[test]
fn search_then_sort_by_price() {
    let mut s = ViewState::new();
    s.reload();
    s.edit_search("chair".to_string());
    let first = s.apply_search();
    assert!(matches!(first, Effect::Fetch(..)));
    let second = s.activate_sort(SortField::Preco);
    assert_eq!(
        fetch_url(&second),
        "http://localhost:3000/itens?pagina=1&por_pagina=10&ordenar_por=preco&ordem=asc&busca=chair"
    );
    assert_eq!(fetch_seq(&second), fetch_seq(&first) + 1);
}

#[test]
fn blank_search_is_omitted() {
    let mut s = ViewState::new();
    s.edit_search("   ".to_string());
    let e = s.apply_search();
    let q = s.query();
    assert!(q.search.is_none());
    assert!(matches!(e, Effect::Fetch(..)));
    assert!(!fetch_url(&e).contains("busca"));
}

#[test]
fn search_typing_does_not_fetch() {
    let mut s = ViewState::new();
    s.edit_search("mesa".to_string());
    assert_eq!(s.search_draft, "mesa");
    assert!(s.search_applied.is_empty());
    assert!(s.query().search.is_none());
}

#[test]
fn same_column_twice_restores_direction() {
    let mut s = ViewState::new();
    s.activate_sort(SortField::Id);
    assert_eq!(s.sort_direction, SortDirection::Desc);
    s.activate_sort(SortField::Id);
    assert_eq!(s.sort_field, SortField::Id);
    assert_eq!(s.sort_direction, SortDirection::Asc);
}

#[test]
fn other_column_resets_to_ascending_first_page() {
    let mut s = ViewState::new();
    s.activate_sort(SortField::Id);
    s.total_pages = 9;
    s.go_to_page(4);
    assert_eq!(s.page, 4);
    s.activate_sort(SortField::Nome);
    assert_eq!(s.sort_field, SortField::Nome);
    assert_eq!(s.sort_direction, SortDirection::Asc);
    assert_eq!(s.page, 1);
    assert_eq!(s.sort_marker(SortField::Nome), Some(SortDirection::Asc));
    assert_eq!(s.sort_marker(SortField::Id), None);
}

#[test]
fn page_size_change_resets_page() {
    let mut s = ViewState::new();
    s.total_pages = 9;
    s.go_to_page(3);
    let e = s.change_page_size(20);
    assert_eq!(s.page, 1);
    assert_eq!(s.page_size, 20);
    assert!(fetch_url(&e).contains("pagina=1&por_pagina=20"));
}

#[test]
fn unchanged_page_size_fetches_nothing() {
    let mut s = ViewState::new();
    assert!(matches!(s.change_page_size(10), Effect::Nothing));
    assert!(matches!(s.change_page_size(7), Effect::Nothing));
    assert_eq!(s.page_size, 10);
}

#[test]
fn applied_search_resets_page() {
    let mut s = ViewState::new();
    s.total_pages = 9;
    s.go_to_page(6);
    s.edit_search("x".to_string());
    s.apply_search();
    assert_eq!(s.page, 1);
    assert_eq!(s.search_applied, "x");
}

#[test]
fn page_navigation_targets() {
    let mut s = ViewState::new();
    s.total_pages = 3;
    assert_eq!(s.previous_page(), 1);
    let p = s.previous_page();
    assert!(matches!(s.go_to_page(p), Effect::Nothing));
    assert_eq!(s.page, 1);
    assert_eq!(s.next_page(), 2);
    s.go_to_page(3);
    assert_eq!(s.previous_page(), 2);
    assert_eq!(s.next_page(), 3);
    let p = s.next_page();
    assert!(matches!(s.go_to_page(p), Effect::Nothing));
    assert_eq!(s.page, 3);
}

#[test]
fn delete_no_content_reloads_once() {
    let mut s = ViewState::new();
    s.reload();
    let before = s.latest_fetch;
    assert!(matches!(s.delete(7), Effect::Delete(7)));
    assert!(s.loading);
    let e = s.delete_responded(204);
    assert_eq!(fetch_seq(&e), before + 1);
    assert!(s.error.is_none());
}

#[test]
fn delete_other_success_status_is_an_error() {
    let mut s = ViewState::new();
    s.items = vec![item(7, "cadeira", 1000)];
    s.delete(7);
    let before = s.latest_fetch;
    let e = s.delete_responded(200);
    assert!(matches!(e, Effect::Nothing));
    assert!(matches!(s.error, Some(Failure::Status(200))));
    assert_eq!(s.items.len(), 1);
    assert_eq!(s.latest_fetch, before);
    assert!(!s.loading);
}

#[test]
fn stale_list_answer_is_ignored() {
    let mut s = ViewState::new();
    let old = fetch_seq(&s.reload());
    let new = fetch_seq(&s.activate_sort(SortField::Nome));
    let stale = ListarResponse { itens: vec![item(1, "a", 100)], total: 1, pagina: 1, por_pagina: 10, total_paginas: 1 };
    s.list_loaded(old, stale);
    assert!(s.items.is_empty());
    assert!(s.loading);
    let fresh = ListarResponse {
        itens: vec![item(2, "b", 250), item(3, "c", 300)],
        total: 12,
        pagina: 1,
        por_pagina: 10,
        total_paginas: 2,
    };
    s.list_loaded(new, fresh);
    assert_eq!(s.items.len(), 2);
    assert_eq!(s.total, 12);
    assert_eq!(s.total_pages, 2);
    assert!(!s.loading);
}

#[test]
fn list_failure_sets_error() {
    let mut s = ViewState::new();
    let seq = fetch_seq(&s.reload());
    s.list_failed(seq + 1, Failure::Transport(Operation::List, "late".to_string()));
    assert!(s.error.is_none());
    s.list_failed(seq, Failure::Decode(Operation::List, "bad".to_string()));
    assert!(matches!(s.error, Some(Failure::Decode(Operation::List, _))));
    assert!(!s.loading);
}

#[test]
fn create_flow() {
    let mut s = ViewState::new();
    s.enter_create();
    s.edit_name("Mesa".to_string());
    s.edit_price("49.90".to_string());
    match s.submit(true) {
        Effect::Create(d) => {
            assert_eq!(d.nome, "Mesa");
            assert_eq!(d.preco, "49.90");
        }
        other => panic!("expected a create, got {:?}", other),
    }
    assert!(s.loading);
    let e = s.save_succeeded();
    assert!(matches!(s.screen, Screen::Lista));
    assert!(matches!(e, Effect::Fetch(..)));
}

#[test]
fn create_validation_errors() {
    let mut s = ViewState::new();
    s.enter_create();
    s.edit_name("  ".to_string());
    s.edit_price("1".to_string());
    assert!(matches!(s.submit(true), Effect::Nothing));
    assert!(matches!(s.error, Some(Failure::MissingFields(Operation::Create))));
    s.edit_name("Mesa".to_string());
    s.edit_price("abc".to_string());
    assert!(matches!(s.submit(false), Effect::Nothing));
    assert!(matches!(s.error, Some(Failure::InvalidPrice)));
    assert!(matches!(s.screen, Screen::Novo(_)));
}

#[test]
fn edit_flow() {
    let mut s = ViewState::new();
    s.enter_edit(&item(5, "Cadeira", 1250));
    match &s.screen {
        Screen::Editar(id, d) => {
            assert_eq!(*id, 5);
            assert_eq!(d.nome, "Cadeira");
            assert_eq!(d.preco, "12.50");
        }
        other => panic!("expected the edit screen, got {:?}", other),
    }
    s.edit_price("".to_string());
    assert!(matches!(s.submit(true), Effect::Nothing));
    assert!(matches!(s.error, Some(Failure::MissingFields(Operation::Update))));
    s.edit_price("13".to_string());
    assert!(matches!(s.submit(true), Effect::Update(5, _)));
    s.request_failed(Failure::Decode(Operation::Update, "x".to_string()));
    assert!(matches!(s.screen, Screen::Editar(5, _)));
    assert!(!s.loading);
}

#[test]
fn cancel_returns_to_list() {
    let mut s = ViewState::new();
    s.enter_create();
    s.cancel();
    assert!(matches!(s.screen, Screen::Lista));
    assert!(matches!(s.submit(true), Effect::Nothing));
    let d = NovoItem::new();
    assert!(d.nome.is_empty() && d.preco.is_empty());
}
