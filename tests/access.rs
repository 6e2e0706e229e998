use graphql_demos::dataloader::{batch_query, LoadError};
use graphql_demos::errors::{condense_query, is_white_space, MyError, QueryRoot};
use graphql_demos::token::{
    connection_token, ConnectionError, QueryRoot as TokenQuery, SubscriptionRoot, Token,
    TokenError,
};
use graphql_demos::version::App;

#[test]
fn token_gates_the_subscription() {
    let good = Token("123456".to_string());
    let bad = Token("1234".to_string());
    assert_eq!(SubscriptionRoot.values(Some(&good)), Ok(10));
    assert_eq!(SubscriptionRoot.values(Some(&bad)), Err(TokenError::Forbidden));
    assert_eq!(SubscriptionRoot.values(None), Err(TokenError::Missing));
    assert_eq!(TokenQuery.current_token(Some(&bad)), Some("1234".to_string()));
    assert_eq!(TokenQuery.current_token(None), None);
}

#[test]
fn connection_needs_a_token() {
    let t = connection_token(Some("abc".to_string())).unwrap();
    assert_eq!(t.0, "abc");
    assert!(matches!(connection_token(None), Err(ConnectionError::TokenRequired)));
}

#[test]
fn error_messages_and_extensions() {
    assert_eq!(MyError::NotFound.message(), "Could not find resource");
    assert_eq!(MyError::ServerError("x".to_string()).message(), "ServerError");
    assert_eq!(MyError::ErrorWithoutExtensions.message(), "No Extensions");
    assert_eq!(
        MyError::NotFound.extension(),
        Some(("code".to_string(), "NOT_FOUND".to_string()))
    );
    assert_eq!(
        MyError::ServerError("disk full".to_string()).extension(),
        Some(("reason".to_string(), "disk full".to_string()))
    );
    assert_eq!(MyError::ErrorWithoutExtensions.extension(), None);
    assert_eq!(
        QueryRoot.make_error(),
        Err("Oh no, a terrible error happened!".to_string())
    );
}

#[test]
fn query_is_condensed() {
    assert_eq!(condense_query("{ hero {\n\tname }\r\n}"), "{hero{name}}");
    assert_eq!(condense_query(""), "");
    assert_eq!(condense_query("a\u{00a0}b\u{3000}c\u{2009}d"), "abcd");
    assert_eq!(condense_query("é ü"), "éü");
    for c in ['\t', '\n', ' ', '\u{85}', '\u{2028}', 'a', '_', '\u{200b}'] {
        assert_eq!(is_white_space(c), c.is_whitespace());
    }
}

#[test]
fn version_line() {
    assert_eq!(App::app_version("1.2.3", Some("abc"), Some("def")), "1.2.3 (abc)");
    assert_eq!(App::app_version("1.2.3", None, Some("def")), "1.2.3 (def)");
    assert_eq!(App::app_version("0.1.0", None, None), "0.1.0 (dev)");
}

#[test]
fn main_sample() {
    assert_eq!(
        batch_query(&[1, 2, 3, 4]).unwrap(),
        "SELECT id, name, author FROM books WHERE id IN (1,2,3,4)"
    );
    assert_eq!(batch_query(&[1, 4, 9]), Err(LoadError::MockDbError));
    assert_eq!(LoadError::MockDbError.message(), "MOCK DBError");
}

#[test]
fn batch_query_edges() {
    assert_eq!(
        batch_query(&[]).unwrap(),
        "SELECT id, name, author FROM books WHERE id IN ()"
    );
    assert_eq!(
        batch_query(&[-5, 0, 12]).unwrap(),
        "SELECT id, name, author FROM books WHERE id IN (-5,0,12)"
    );
    assert_eq!(batch_query(&[9]), Err(LoadError::MockDbError));
}
