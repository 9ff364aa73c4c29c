//! A catalog of film records behind one repository contract.
//!
//! `models` holds the record and its creation payload. `film_repository`
//! holds the contract that every backend meets, the store of films with the
//! steps that change it, and the in-memory backend, which keeps one store
//! behind a readers-writer guard. `films`, `health` and `routes` decide what
//! each endpoint answers, in the plain requests and responses of `http`.
//! `platform` holds the few calls whose results are taken on trust.

pub mod film_repository;
pub mod films;
pub mod health;
pub mod http;
pub mod models;
pub mod platform;
pub mod routes;
