//! Demo data models served through a GraphQL engine: slot-keyed book and
//! file stores, the Star Wars character graph, token checks, error
//! extensions and the federation entities, with their rules verified.

pub mod ids;
pub mod text;
pub mod books;
pub mod files;
pub mod starwars;
pub mod token;
pub mod errors;
pub mod version;
pub mod dataloader;
pub mod accounts;
pub mod reviews;
pub mod products;
pub mod defer;
pub mod linked_reviews;
