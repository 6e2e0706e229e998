use graphql_demos::books::{BookStore, MutationRoot, MutationType, QueryRoot, SubscriptionRoot};
use graphql_demos::files::{self, FileStore};
use graphql_demos::ids::{key_id, parse_key};

#[test]
fn key_ids_are_decimal() {
    assert_eq!(key_id(0), "0");
    assert_eq!(key_id(7), "7");
    assert_eq!(key_id(10), "10");
    assert_eq!(key_id(1234), "1234");
    assert_eq!(key_id(usize::MAX), usize::MAX.to_string());
}

#[test]
fn keys_parse_like_from_str() {
    assert_eq!(parse_key("0"), Some(0));
    assert_eq!(parse_key("42"), Some(42));
    assert_eq!(parse_key("+7"), Some(7));
    assert_eq!(parse_key("007"), Some(7));
    assert_eq!(parse_key(""), None);
    assert_eq!(parse_key("+"), None);
    assert_eq!(parse_key("-1"), None);
    assert_eq!(parse_key("4a"), None);
    assert_eq!(parse_key(" 4"), None);
    let max = usize::MAX.to_string();
    assert_eq!(parse_key(&max), Some(usize::MAX));
    let over = format!("{}0", max);
    assert_eq!(parse_key(&over), None);
    for k in [0usize, 9, 10, 99, 100, 65535, usize::MAX] {
        assert_eq!(parse_key(&key_id(k)), Some(k));
    }
}

#[test]
fn create_and_list_books() {
    let mut store = BookStore::new();
    let m = MutationRoot;
    let a = m.create_book(&mut store, "Dune".to_string(), "Herbert".to_string());
    let b = m.create_book(&mut store, "Emma".to_string(), "Austen".to_string());
    assert_eq!(a.id, "0");
    assert_eq!(b.id, "1");
    assert_eq!(a.mutation_type, MutationType::Created);
    let books = QueryRoot.books(&store);
    assert_eq!(books.len(), 2);
    assert_eq!(books[0].id, "0");
    assert_eq!(books[0].name, "Dune");
    assert_eq!(books[0].author, "Herbert");
    assert_eq!(books[1].id, "1");
    assert_eq!(books[1].name, "Emma");
}

#[test]
fn delete_books() {
    let mut store = BookStore::new();
    let m = MutationRoot;
    m.create_book(&mut store, "A".to_string(), "X".to_string());
    m.create_book(&mut store, "B".to_string(), "Y".to_string());
    let ev = m.delete_book(&mut store, "0").unwrap().unwrap();
    assert_eq!(ev.mutation_type, MutationType::Deleted);
    assert_eq!(ev.id, "0");
    assert!(m.delete_book(&mut store, "0").unwrap().is_none());
    assert!(m.delete_book(&mut store, "5").unwrap().is_none());
    assert!(m.delete_book(&mut store, "zero").is_err());
    let ev = m.delete_book(&mut store, "+1").unwrap().unwrap();
    assert_eq!(ev.id, "1");
    assert!(QueryRoot.books(&store).is_empty());
}

#[test]
fn freed_key_is_reused() {
    let mut store = BookStore::new();
    let m = MutationRoot;
    m.create_book(&mut store, "A".to_string(), "X".to_string());
    m.create_book(&mut store, "B".to_string(), "Y".to_string());
    m.create_book(&mut store, "C".to_string(), "Z".to_string());
    m.delete_book(&mut store, "1").unwrap();
    let ev = m.create_book(&mut store, "D".to_string(), "W".to_string());
    assert_eq!(ev.id, "1");
    let names: Vec<String> = QueryRoot.books(&store).into_iter().map(|b| b.name).collect();
    assert_eq!(names, vec!["A", "D", "C"]);
}

#[test]
fn change_event_looks_up_its_book() {
    let mut store = BookStore::new();
    let m = MutationRoot;
    let ev = m.create_book(&mut store, "A".to_string(), "X".to_string());
    let book = ev.book(&store).unwrap().unwrap();
    assert_eq!(book.name, "A");
    let gone = m.delete_book(&mut store, "0").unwrap().unwrap();
    assert!(gone.book(&store).unwrap().is_none());
    let bad = graphql_demos::books::BookChanged {
        mutation_type: MutationType::Created,
        id: "x1".to_string(),
    };
    assert!(bad.book(&store).is_err());
}

#[test]
fn mutation_type_names() {
    assert_eq!(MutationType::Created.name(), "CREATED");
    assert_eq!(MutationType::Deleted.name(), "DELETED");
    assert_eq!(MutationType::from_str("CREATED"), Ok(MutationType::Created));
    assert_eq!(MutationType::from_str("DELETED"), Ok(MutationType::Deleted));
    assert_eq!(
        MutationType::from_str("created"),
        Err("Invalid MutationType: created".to_string())
    );
}

#[test]
fn subscription_filter_and_interval() {
    let s = SubscriptionRoot;
    let ev = graphql_demos::books::BookChanged {
        mutation_type: MutationType::Deleted,
        id: "3".to_string(),
    };
    assert!(s.books_filter(None, &ev));
    assert!(s.books_filter(Some(MutationType::Deleted), &ev));
    assert!(!s.books_filter(Some(MutationType::Created), &ev));
    assert_eq!(s.interval_next(0, 1), Some(1));
    assert_eq!(s.interval_next(5, -7), Some(-2));
    assert_eq!(s.interval_next(i32::MAX, 1), None);
    assert_eq!(s.interval_next(i32::MIN, -1), None);
    assert_eq!(s.interval_next(i32::MAX - 1, 1), Some(i32::MAX));
}

#[test]
fn uploads_are_recorded() {
    let mut store = FileStore::new();
    let m = files::MutationRoot;
    let one = m.single_upload(&mut store, "a.png".to_string());
    assert_eq!(one.id, "0");
    assert_eq!(one.url, "a.png");
    let many = m.multiple_upload(&mut store, vec!["b.txt".to_string(), "c.pdf".to_string()]);
    assert_eq!(many.len(), 2);
    assert_eq!(many[0].id, "1");
    assert_eq!(many[0].url, "b.txt");
    assert_eq!(many[1].id, "2");
    assert_eq!(many[1].url, "c.pdf");
    assert_eq!(store.len(), 3);
    let all = files::QueryRoot.uploads(&store);
    let urls: Vec<&str> = all.iter().map(|f| f.url.as_str()).collect();
    assert_eq!(urls, vec!["a.png", "b.txt", "c.pdf"]);
    assert!(m.multiple_upload(&mut store, Vec::new()).is_empty());
    assert_eq!(store.len(), 3);
}
