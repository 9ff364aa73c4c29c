//! The in-memory backend: one store behind a readers-writer guard.
//!
//! Reads take the guard in its shared mode, so they run side by side. Each
//! change takes it in its exclusive mode and is one step of the store, so no
//! caller ever sees half of one. A guard that cannot be acquired makes the
//! operation fail with `Unavailable`; nothing is retried here.

use crate::film_repository::film_store::FilmStore;
use crate::film_repository::{FilmError, FilmRepository, FilmResult};
use crate::models::{is_random_uuid, CreateFilm, Film, FilmId, FilmView};
use crate::platform::{acquire_read, acquire_write, exclusive, fresh_id, guarded, made_around, now, shared};
use std::sync::RwLock;
use vstd::prelude::*;

verus! {

/// A repository that keeps its films in memory, for as long as it lives.
pub struct MemoryFilmRepository {
    store: RwLock<FilmStore>,
}

impl MemoryFilmRepository {
    /// A repository with no film in it.
    pub fn new() -> (repo: MemoryFilmRepository)
        ensures
            repo.initial_films() == Map::<u128, FilmView>::empty(),
    {
        MemoryFilmRepository { store: guarded(FilmStore::new()) }
    }

    /// A repository that starts with the films of `store`.
    pub fn with_store(store: FilmStore) -> (repo: MemoryFilmRepository)
        ensures
            repo.initial_films() == store@,
    {
        MemoryFilmRepository { store: guarded(store) }
    }

    /// The films that the repository was made with, by identifier. The
    /// repository is changed behind shared references, by any of the callers
    /// that share it, so no contract can speak of the films that it holds
    /// now: this is where it began.
    pub closed spec fn initial_films(&self) -> Map<u128, FilmView> {
        made_around(self.store)
    }
}

impl Default for MemoryFilmRepository {
    /// A repository with no film in it.
    fn default() -> (repo: MemoryFilmRepository)
        ensures
            repo.initial_films() == Map::<u128, FilmView>::empty(),
    {
        MemoryFilmRepository::new()
    }
}

impl FilmRepository for MemoryFilmRepository {
    /// Copies every film out under the shared guard. The only failure is
    /// `Unavailable`.
    fn get_films(&self) -> (outcome: FilmResult<Vec<Film>>)
        ensures
            outcome matches Err(error) ==> error == FilmError::Unavailable,
    {
        match acquire_read(&self.store) {
            Some(guard) => {
                let films = shared(&guard).list();
                Ok(films)
            },
            None => Err(FilmError::Unavailable),
        }
    }

    /// Copies the film out under the shared guard. The only failures are
    /// `NotFound` for `film_id` and `Unavailable`.
    fn get_film(&self, film_id: &FilmId) -> (outcome: FilmResult<Film>)
        ensures
            outcome matches Err(error) ==> error == FilmError::NotFound(*film_id) || error
                == FilmError::Unavailable,
    {
        match acquire_read(&self.store) {
            Some(guard) => {
                let store = shared(&guard);
                proof {
                    store.is_valid();
                }
                store.get(film_id)
            },
            None => Err(FilmError::Unavailable),
        }
    }

    /// Under the exclusive guard: draws a random identifier, reads the clock,
    /// and files the new film. An identifier that is live already is not
    /// drawn again: its film is replaced. The only failure is `Unavailable`.
    fn create_film(&self, create_film: &CreateFilm) -> (outcome: FilmResult<Film>)
        ensures
            outcome matches Ok(film) ==> is_random_uuid(film@.id),
            outcome matches Err(error) ==> error == FilmError::Unavailable,
    {
        match acquire_write(&self.store) {
            Some(mut guard) => {
                let id = fresh_id();
                let utc_now = now();
                let new_film = exclusive(&mut guard).create(id, create_film, utc_now);
                Ok(new_film)
            },
            None => Err(FilmError::Unavailable),
        }
    }

    /// Under the exclusive guard: reads the clock and revises the film in
    /// place. The only failures are `NotFound` for `film.id`, which leaves
    /// the films as they are, and `Unavailable`.
    fn update_film(&self, film: &Film) -> (outcome: FilmResult<Film>)
        ensures
            outcome matches Err(error) ==> error == FilmError::NotFound(film.id) || error
                == FilmError::Unavailable,
    {
        match acquire_write(&self.store) {
            Some(mut guard) => {
                let utc_now = now();
                let store = exclusive(&mut guard);
                proof {
                    store.is_valid();
                }
                store.update(film, utc_now)
            },
            None => Err(FilmError::Unavailable),
        }
    }

    /// Removes the film under the exclusive guard. The only failure is
    /// `Unavailable`.
    fn delete_film(&self, film_id: &FilmId) -> (outcome: FilmResult<FilmId>)
        ensures
            outcome matches Err(error) ==> error == FilmError::Unavailable,
    {
        match acquire_write(&self.store) {
            Some(mut guard) => {
                let deleted = exclusive(&mut guard).delete(film_id);
                Ok(deleted)
            },
            None => Err(FilmError::Unavailable),
        }
    }
}

} // verus!
