//! The keyed collection of films and the steps that change it.
//!
//! A store is read as a map from identifier to record. Every step is stated
//! twice: as a function on such maps, and as a method whose contract says
//! that it performs exactly that function.

use crate::film_repository::{film_outcome, FilmError};
use crate::models::{films_view, CreateFilm, CreateFilmView, Film, FilmId, FilmView, Timestamp};
use std::collections::HashMap;
use vstd::prelude::*;
use vstd::std_specs::iter::IteratorSpec;

verus! {

broadcast use vstd::std_specs::hash::group_hash_axioms;

/// Every record is filed under its own identifier.
pub open spec fn keyed_by_id(films: Map<u128, FilmView>) -> bool {
    forall|id: u128| films.contains_key(id) ==> (#[trigger] films[id]).id == id
}

/// What holds of the films of every store: there are finitely many, and
/// each is filed under its own identifier, so that no two share one.
pub open spec fn valid(films: Map<u128, FilmView>) -> bool {
    films.dom().finite() && keyed_by_id(films)
}

/// The record that creation files: the payload's fields under `id`, stamped
/// `now`, never updated.
pub open spec fn created(id: u128, payload: CreateFilmView, now: Timestamp) -> FilmView {
    FilmView {
        id,
        title: payload.title,
        director: payload.director,
        year: payload.year,
        poster: payload.poster,
        created_at: Some(now),
        updated_at: None,
    }
}

/// The record that an update leaves: identifier and creation stamp of
/// `stored`, the other fields of `input`, updated at `now`.
pub open spec fn revised(stored: FilmView, input: FilmView, now: Timestamp) -> FilmView {
    FilmView {
        id: stored.id,
        title: input.title,
        director: input.director,
        year: input.year,
        poster: input.poster,
        created_at: stored.created_at,
        updated_at: Some(now),
    }
}

/// What looking `id` up gives.
pub open spec fn lookup(films: Map<u128, FilmView>, id: u128) -> Result<FilmView, FilmError> {
    if films.contains_key(id) {
        Ok(films[id])
    } else {
        Err(FilmError::NotFound(FilmId { value: id }))
    }
}

/// The store after a film was created under `id`.
pub open spec fn after_create(
    films: Map<u128, FilmView>,
    id: u128,
    payload: CreateFilmView,
    now: Timestamp,
) -> Map<u128, FilmView> {
    films.insert(id, created(id, payload, now))
}

/// What an update with `input` at `now` returns.
pub open spec fn update_outcome(films: Map<u128, FilmView>, input: FilmView, now: Timestamp) -> Result<
    FilmView,
    FilmError,
> {
    if films.contains_key(input.id) {
        Ok(revised(films[input.id], input, now))
    } else {
        Err(FilmError::NotFound(FilmId { value: input.id }))
    }
}

/// The store after an update with `input` at `now`.
pub open spec fn after_update(films: Map<u128, FilmView>, input: FilmView, now: Timestamp) -> Map<
    u128,
    FilmView,
> {
    if films.contains_key(input.id) {
        films.insert(input.id, revised(films[input.id], input, now))
    } else {
        films
    }
}

/// The store after `id` was deleted.
pub open spec fn after_delete(films: Map<u128, FilmView>, id: u128) -> Map<u128, FilmView> {
    films.remove(id)
}

/// `listing` holds every record of `films` once, under its own identifier,
/// and nothing else. The order is left open.
pub open spec fn lists(listing: Seq<FilmView>, films: Map<u128, FilmView>) -> bool {
    &&& listing.len() == films.dom().len()
    &&& forall|i: int|
        0 <= i < listing.len() ==> films.contains_key(#[trigger] listing[i].id) && films[listing[i].id]
            == listing[i]
    &&& forall|i: int, j: int|
        0 <= i < j < listing.len() ==> (#[trigger] listing[i]).id != (#[trigger] listing[j]).id
    &&& forall|id: u128| #[trigger] films.contains_key(id) ==> listing.contains(films[id])
}

/// The films that are live, each filed under its identifier.
pub struct FilmStore {
    films: HashMap<u128, Film>,
}

impl View for FilmStore {
    type V = Map<u128, FilmView>;

    /// The live films by identifier: the entries of the table that are filed
    /// under their own identifier, which by the invariant of the type is
    /// every entry.
    closed spec fn view(&self) -> Map<u128, FilmView> {
        Map::new(
            |id: u128| self.films@.contains_key(id) && self.films@[id].id.value == id,
            |id: u128| self.films@[id]@,
        )
    }
}

impl FilmStore {
    /// Every entry of the table is filed under the identifier of its film.
    #[verifier::type_invariant]
    spec fn filed_under_own_id(self) -> bool {
        forall|id: u128| self.films@.contains_key(id) ==> (#[trigger] self.films@[id]).id.value == id
    }

    /// The films of a store are finitely many, each filed under its own
    /// identifier.
    pub proof fn is_valid(self)
        ensures
            valid(self@),
    {
        vstd::set_lib::lemma_set_subset_finite(self.films@.dom(), self@.dom());
    }

    /// A store with no film in it.
    pub fn new() -> (store: FilmStore)
        ensures
            store@ == Map::<u128, FilmView>::empty(),
    {
        let store = FilmStore { films: HashMap::new() };
        assert(store@ =~= Map::<u128, FilmView>::empty());
        store
    }

    /// A copy of every live film, in no particular order.
    pub fn list(&self) -> (films: Vec<Film>)
        ensures
            lists(films_view(films@), self@),
    {
        proof {
            use_type_invariant(self);
        }
        let mut films: Vec<Film> = Vec::new();
        let ghost pairs = self.films.iter().remaining();
        for entry in entries: self.films.iter()
            invariant
                entries.seq() == pairs,
                films.len() == entries.index(),
                forall|i: int| 0 <= i < films.len() ==> (#[trigger] films[i])@ == (*pairs[i].1)@,
        {
            films.push(entry.1.clone());
        }
        proof {
            let listing = films_view(films@);
            assert(pairs.no_duplicates());
            assert(films.len() == pairs.len());
            assert(pairs.len() == self.films@.dom().len());
            assert(self@.dom() =~= self.films@.dom());
            assert forall|i: int| 0 <= i < listing.len() implies self@.contains_key(
                #[trigger] listing[i].id,
            ) && self@[listing[i].id] == listing[i] by {
                assert(self.films@.contains_key(*pairs[i].0));
            }
            assert forall|i: int, j: int| 0 <= i < j < listing.len() implies (#[trigger] listing[i]).id
                != (#[trigger] listing[j]).id by {
                assert(self.films@.contains_key(*pairs[i].0));
                assert(self.films@.contains_key(*pairs[j].0));
                assert(pairs[i] != pairs[j]);
            }
            assert forall|id: u128| #[trigger] self@.contains_key(id) implies listing.contains(
                self@[id],
            ) by {
                assert(self.films@.contains_key(id));
                let pair = (&id, &self.films@[id]);
                assert(pairs.contains(pair));
                let i = choose|i: int| 0 <= i < pairs.len() && pairs[i] == pair;
                assert(listing[i] == self@[id]);
            }
        }
        films
    }

    /// The film filed under `id`, or `NotFound` where none is.
    pub fn get(&self, id: &FilmId) -> (outcome: Result<Film, FilmError>)
        ensures
            film_outcome(outcome) == lookup(self@, id@),
    {
        proof {
            use_type_invariant(self);
        }
        match self.films.get(&id.value) {
            Some(film) => Ok(film.clone()),
            None => Err(FilmError::NotFound(*id)),
        }
    }

    /// Files `film` under its own identifier, in place of any film that was
    /// filed there.
    pub fn insert(&mut self, film: Film)
        ensures
            final(self)@ == old(self)@.insert(film@.id, film@),
    {
        proof {
            use_type_invariant(&*self);
        }
        let mut films = HashMap::new();
        std::mem::swap(&mut films, &mut self.films);
        films.insert(film.id.value, film);
        self.films = films;
        assert(self@ =~= old(self)@.insert(film@.id, film@));
    }

    /// Creates a film from `payload` under `id`, stamped `now`, and returns a
    /// copy of what was stored.
    pub fn create(&mut self, id: FilmId, payload: &CreateFilm, now: Timestamp) -> (film: Film)
        ensures
            film@ == created(id@, payload@, now),
            final(self)@ == after_create(old(self)@, id@, payload@, now),
    {
        let film = Film {
            id,
            title: payload.title.clone(),
            director: payload.director.clone(),
            year: payload.year,
            poster: payload.poster.clone(),
            created_at: Some(now),
            updated_at: None,
        };
        self.insert(film.clone());
        film
    }

    /// Overwrites title, director, year and poster of the film filed under
    /// `film.id` and stamps the update `now`; the identifier and the creation
    /// stamp stay. Where no such film is live the store stays as it is and
    /// the outcome is `NotFound`.
    pub fn update(&mut self, film: &Film, now: Timestamp) -> (outcome: Result<Film, FilmError>)
        ensures
            film_outcome(outcome) == update_outcome(old(self)@, film@, now),
            final(self)@ == after_update(old(self)@, film@, now),
    {
        proof {
            use_type_invariant(&*self);
        }
        let created_at = match self.films.get(&film.id.value) {
            Some(stored) => stored.created_at,
            None => {
                return Err(FilmError::NotFound(film.id));
            },
        };
        let revised = Film {
            id: film.id,
            title: film.title.clone(),
            director: film.director.clone(),
            year: film.year,
            poster: film.poster.clone(),
            created_at,
            updated_at: Some(now),
        };
        self.insert(revised.clone());
        Ok(revised)
    }

    /// Removes the film filed under `id`, if there is one, and returns `id`
    /// either way.
    pub fn delete(&mut self, id: &FilmId) -> (deleted: FilmId)
        ensures
            deleted == *id,
            final(self)@ == after_delete(old(self)@, id@),
    {
        proof {
            use_type_invariant(&*self);
        }
        let mut films = HashMap::new();
        std::mem::swap(&mut films, &mut self.films);
        films.remove(&id.value);
        self.films = films;
        assert(self@ =~= old(self)@.remove(id@));
        *id
    }
}

} // verus!
