//! The repository contract and its backends.
//!
//! A backend answers five operations. Callers hold a backend behind a shared
//! reference and call it from many tasks at once, so a contract here speaks
//! of one call alone: what it returns, never what an earlier call left.
//! `film_store` states how the calls of one backend follow from each other.

use crate::models::{
    films_view, hyphenated, CreateFilm, CreateFilmView, Film, FilmId, FilmView,
};
use vstd::prelude::*;
use vstd::string::StringExecFns;

pub mod film_store;
pub mod laws;
pub mod memory_film_repository;

verus! {

/// Why a repository operation did not give its value.
#[derive(Clone, Copy, Debug, PartialEq, Eq, Structural)]
pub enum FilmError {
    /// The operation needs a live film with this identifier, and there is none.
    NotFound(FilmId),
    /// The store could not be reached: its guard could not be acquired, or
    /// the backend is not connected.
    Unavailable,
    /// The backend failed in some other way.
    StorageError,
}

/// What a repository operation returns.
pub type FilmResult<T> = Result<T, FilmError>;

impl FilmError {
    /// The text of [`FilmError::message`].
    pub open spec fn message_text(self) -> Seq<char> {
        match self {
            FilmError::NotFound(id) => "Film with id "@ + hyphenated(id@) + " does not exist"@,
            FilmError::Unavailable => "An error occured while trying to access films store"@,
            FilmError::StorageError => "An error occured in films store"@,
        }
    }

    /// The error in words, for a log line or a response body.
    pub fn message(&self) -> (text: String)
        ensures
            text@ == self.message_text(),
    {
        match self {
            FilmError::NotFound(id) => {
                let mut text = String::from_str("Film with id ");
                text.append(id.to_text().as_str());
                text.append(" does not exist");
                text
            },
            FilmError::Unavailable => String::from_str(
                "An error occured while trying to access films store",
            ),
            FilmError::StorageError => String::from_str("An error occured in films store"),
        }
    }
}

/// The mathematical content of an operation's result that holds a film.
pub open spec fn film_outcome(outcome: FilmResult<Film>) -> Result<FilmView, FilmError> {
    match outcome {
        Ok(film) => Ok(film@),
        Err(error) => Err(error),
    }
}

/// The mathematical content of an operation's result that holds films.
pub open spec fn films_outcome(outcome: FilmResult<Vec<Film>>) -> Result<Seq<FilmView>, FilmError> {
    match outcome {
        Ok(films) => Ok(films_view(films@)),
        Err(error) => Err(error),
    }
}

/// The mathematical content of an operation's result that holds an
/// identifier.
pub open spec fn id_outcome(outcome: FilmResult<FilmId>) -> Result<u128, FilmError> {
    match outcome {
        Ok(id) => Ok(id@),
        Err(error) => Err(error),
    }
}

/// `film` is what creation from `payload` gives: the payload's fields, a
/// creation stamp, no update stamp.
pub open spec fn is_creation_of(film: FilmView, payload: CreateFilmView) -> bool {
    &&& film.title == payload.title
    &&& film.director == payload.director
    &&& film.year == payload.year
    &&& film.poster == payload.poster
    &&& film.created_at is Some
    &&& film.updated_at is None
}

/// `film` is what an update with `input` gives: the identifier and the other
/// fields of `input`, and an update stamp.
pub open spec fn is_revision_by(film: FilmView, input: FilmView) -> bool {
    &&& film.id == input.id
    &&& film.title == input.title
    &&& film.director == input.director
    &&& film.year == input.year
    &&& film.poster == input.poster
    &&& film.updated_at is Some
}

/// No two films of `films` share an identifier.
pub open spec fn distinct_ids(films: Seq<FilmView>) -> bool {
    forall|i: int, j: int|
        0 <= i < j < films.len() ==> (#[trigger] films[i]).id != (#[trigger] films[j]).id
}

/// `error` is `NotFound` for `id`, or no `NotFound` at all.
pub open spec fn misses_only(error: FilmError, id: u128) -> bool {
    error matches FilmError::NotFound(missing) ==> missing@ == id
}

/// What a backend may return when asked for all films: films under
/// different identifiers, or a failure other than `NotFound`.
pub open spec fn may_list(outcome: Result<Seq<FilmView>, FilmError>) -> bool {
    match outcome {
        Ok(films) => distinct_ids(films),
        Err(error) => error !is NotFound,
    }
}

/// What a backend may return when asked for the film `id`: a film with that
/// identifier, `NotFound` for it, or another failure.
pub open spec fn may_get(id: u128, outcome: Result<FilmView, FilmError>) -> bool {
    match outcome {
        Ok(film) => film.id == id,
        Err(error) => misses_only(error, id),
    }
}

/// What a backend may return when asked to create a film from `payload`: a
/// film with the payload's fields, stamped as created and not as updated, or
/// a failure other than `NotFound`.
pub open spec fn may_create(payload: CreateFilmView, outcome: Result<FilmView, FilmError>) -> bool {
    match outcome {
        Ok(film) => is_creation_of(film, payload),
        Err(error) => error !is NotFound,
    }
}

/// What a backend may return when asked to update a film by `input`: a film
/// with the identifier and the fields of `input`, stamped as updated,
/// `NotFound` for that identifier, or another failure.
pub open spec fn may_update(input: FilmView, outcome: Result<FilmView, FilmError>) -> bool {
    match outcome {
        Ok(film) => is_revision_by(film, input),
        Err(error) => misses_only(error, input.id),
    }
}

/// What a backend may return when asked to delete the film `id`: `id`, or a
/// failure other than `NotFound`.
pub open spec fn may_delete(id: u128, outcome: Result<u128, FilmError>) -> bool {
    match outcome {
        Ok(deleted) => deleted == id,
        Err(error) => error !is NotFound,
    }
}

/// What every backend promises of each operation.
pub trait FilmRepository: Send + Sync + 'static {
    /// Every live film, in no particular order.
    fn get_films(&self) -> (outcome: FilmResult<Vec<Film>>)
        ensures
            may_list(films_outcome(outcome)),
    ;

    /// The live film with the identifier `id`; `NotFound` where none is.
    fn get_film(&self, id: &FilmId) -> (outcome: FilmResult<Film>)
        ensures
            may_get(id@, film_outcome(outcome)),
    ;

    /// Stores a new film made from `payload` and returns a copy of it.
    fn create_film(&self, payload: &CreateFilm) -> (outcome: FilmResult<Film>)
        ensures
            may_create(payload@, film_outcome(outcome)),
    ;

    /// Overwrites the live film with the identifier `film.id` and returns a
    /// copy of the result; `NotFound` where none is.
    fn update_film(&self, film: &Film) -> (outcome: FilmResult<Film>)
        ensures
            may_update(film@, film_outcome(outcome)),
    ;

    /// Removes the film with the identifier `id`, if one is live, and
    /// returns `id` either way.
    fn delete_film(&self, id: &FilmId) -> (outcome: FilmResult<FilmId>)
        ensures
            may_delete(id@, id_outcome(outcome)),
    ;
}

} // verus!
