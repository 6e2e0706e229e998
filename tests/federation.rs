use graphql_demos::accounts::{self, MissingKey};
use graphql_demos::defer;
use graphql_demos::linked_reviews;
use graphql_demos::products::{self, hats};
use graphql_demos::reviews::{
    self, resolve_entity, reviews_of_user, user_by_id, Entity, Review, Trustworthiness,
};

#[test]
fn accounts_resolve_users() {
    let q = accounts::Query;
    let me = q.me();
    assert_eq!(me.id, "1234");
    assert_eq!(me.username, "Me");
    let pic = me.profile_picture.unwrap();
    assert_eq!(pic.url, "http://localhost:8080/me.jpg");
    assert_eq!((pic.width, pic.height), (256, 256));
    assert_eq!(me.joined_timestamp, 1);
    let other = q.find_user_by_id("42".to_string());
    assert_eq!(other.username, "User 42");
    assert!(other.profile_picture.is_none());
    assert_eq!(other.joined_timestamp, 1500);
    assert_eq!(q.find_user_by_id("1234".to_string()).username, "Me");
    let r = q.resolve_entity("User", Some("7".to_string())).unwrap().unwrap();
    assert_eq!(r.username, "User 7");
    assert!(q.resolve_entity("Product", Some("7".to_string())).unwrap().is_none());
    assert!(matches!(q.resolve_entity("User", None), Err(MissingKey)));
}

#[test]
fn products_by_upc() {
    let hats = hats();
    let q = products::Query;
    assert_eq!(hats.len(), 3);
    assert_eq!(q.find_product_by_upc(&hats, "top-2").unwrap().name, "Fedora");
    assert_eq!(q.find_product_by_upc(&hats, "top-3").unwrap().price, 33);
    assert!(q.find_product_by_upc(&hats, "top-4").is_none());
    assert_eq!(q.resolve_entity(&hats, "Product", Some("top-1")).unwrap().unwrap().name, "Trilby");
    assert!(q.resolve_entity(&hats, "User", Some("top-1")).unwrap().is_none());
    assert!(q.resolve_entity(&hats, "Product", None).is_err());
}

fn review(id: &str) -> Review {
    Review { id: id.to_string(), body: String::new(), pictures: Vec::new() }
}

#[test]
fn reviews_products_and_authors() {
    let p = review("review-2").get_product();
    assert_eq!((p.upc.as_str(), p.price), ("top-2", 20));
    let p = review("review-3").get_product();
    assert_eq!((p.upc.as_str(), p.price), ("top-3", 30));
    let a = review("review-1").get_author();
    assert_eq!((a.id.as_str(), a.review_count, a.joined_timestamp), ("1234", 2, 9001));
    let a = review("review-3").get_author();
    assert_eq!((a.id.as_str(), a.review_count), ("7777", 1));
    let all = vec![review("review-1"), review("review-2"), review("review-3")];
    assert_eq!(reviews_of_user(&all, "1234"), vec![0, 1]);
    assert_eq!(reviews_of_user(&all, "7777"), vec![2]);
    assert!(reviews_of_user(&all, "1").is_empty());
}

#[test]
fn trust_levels() {
    assert_eq!(user_by_id("1234".to_string(), Some(500)).trustworthiness(), Trustworthiness::ReallyTrusted);
    assert_eq!(user_by_id("7777".to_string(), Some(500)).trustworthiness(), Trustworthiness::KindaTrusted);
    assert_eq!(user_by_id("1234".to_string(), Some(1999)).trustworthiness(), Trustworthiness::KindaTrusted);
    assert_eq!(user_by_id("1234".to_string(), None).trustworthiness(), Trustworthiness::NotTrusted);
    assert_eq!(user_by_id("1234".to_string(), Some(1000)).trustworthiness(), Trustworthiness::KindaTrusted);
    assert_eq!(user_by_id("0".to_string(), Some(2000)).trustworthiness(), Trustworthiness::NotTrusted);
}

#[test]
fn review_entities() {
    match resolve_entity("User", Some("7777".to_string()), Some(3)) {
        Ok(Some(Entity::User(u))) => {
            assert_eq!((u.id.as_str(), u.review_count, u.joined_timestamp), ("7777", 1, 3))
        }
        _ => panic!("expected a user"),
    }
    match resolve_entity("Product", Some("top-9".to_string()), None) {
        Ok(Some(Entity::Product(p))) => assert_eq!((p.upc.as_str(), p.price), ("top-9", 0)),
        _ => panic!("expected a product"),
    }
    assert!(matches!(resolve_entity("Review", None, None), Ok(None)));
    assert!(resolve_entity("Product", None, None).is_err());
    assert!(matches!(reviews::resolve_entity("User", None, Some(1)), Err(MissingKey)));
}

#[test]
fn deferred_comments() {
    let books = defer::Query.books();
    assert_eq!(books.len(), 3);
    assert_eq!(books[1].title, "Jurassic Park");
    let c = books[0].comments();
    assert_eq!(c.len(), 2);
    assert_eq!((c[0].user.as_str(), c[0].text.as_str()), ("John", "I liked it"));
    assert_eq!((c[1].user.as_str(), c[1].text.as_str()), ("Mary", "It is a book"));
    let c = books[1].comments();
    assert_eq!((c[0].user.as_str(), c[1].text.as_str()), ("Alberta", "Excellent"));
    assert!(books[2].comments().is_empty());
}

#[test]
fn linked_reviews_by_author_and_product() {
    let mk = |author: &str, upc: &str| linked_reviews::Review {
        body: String::new(),
        author: linked_reviews::User { id: author.to_string() },
        product: linked_reviews::Product { upc: upc.to_string() },
    };
    let all = vec![mk("1234", "top-1"), mk("1234", "top-2"), mk("7777", "top-1")];
    let u = linked_reviews::User { id: "1234".to_string() };
    assert_eq!(u.reviews(&all), vec![0, 1]);
    let p = linked_reviews::Product { upc: "top-1".to_string() };
    assert_eq!(p.reviews(&all), vec![0, 2]);
    let none = linked_reviews::Product { upc: "top-3".to_string() };
    assert!(none.reviews(&all).is_empty());
}
