//! How the steps of a store follow from each other.
//!
//! Each statement here is over the maps and step functions of `film_store`,
//! which are what the contracts of `FilmStore` are written in: whatever
//! holds of them holds of every run of the methods.

use crate::film_repository::film_store::{
    after_create, after_delete, after_update, created, lists, lookup, revised, update_outcome,
    valid,
};
use crate::film_repository::{is_creation_of, is_revision_by, FilmError};
use crate::models::{not_before, CreateFilmView, FilmId, FilmView, Timestamp};
use vstd::prelude::*;

verus! {

/// A store with no film in it lists nothing.
pub proof fn empty_store_lists_nothing(listing: Seq<FilmView>)
    requires
        lists(listing, Map::<u128, FilmView>::empty()),
    ensures
        listing == Seq::<FilmView>::empty(),
{
    assert(Map::<u128, FilmView>::empty().dom() =~= Set::<u128>::empty());
    assert(listing =~= Seq::<FilmView>::empty());
}

/// A listing of a store with one film holds that film and nothing else.
pub proof fn single_film_is_the_listing(listing: Seq<FilmView>, film: FilmView)
    requires
        lists(listing, Map::<u128, FilmView>::empty().insert(film.id, film)),
    ensures
        listing == seq![film],
{
    let films = Map::<u128, FilmView>::empty().insert(film.id, film);
    assert(films.dom() =~= set![film.id]);
    assert(films.contains_key(listing[0].id));
    assert(listing =~= seq![film]);
}

/// Creation under an identifier that is not live adds one film and leaves
/// every other film as it was.
pub proof fn create_adds_one_film(
    films: Map<u128, FilmView>,
    id: u128,
    payload: CreateFilmView,
    now: Timestamp,
)
    requires
        valid(films),
        !films.contains_key(id),
    ensures
        after_create(films, id, payload, now).dom().len() == films.dom().len() + 1,
        forall|other: u128|
            films.contains_key(other) ==> lookup(after_create(films, id, payload, now), other)
                == lookup(films, other),
{
}

/// The film that creation returns has the payload's fields, a creation stamp
/// and no update stamp, and looking its identifier up afterwards gives that
/// same film.
pub proof fn created_film_is_found(
    films: Map<u128, FilmView>,
    id: u128,
    payload: CreateFilmView,
    now: Timestamp,
)
    ensures
        is_creation_of(created(id, payload, now), payload),
        created(id, payload, now).id == id,
        created(id, payload, now).created_at == Some(now),
        lookup(after_create(films, id, payload, now), id) == Ok::<FilmView, FilmError>(
            created(id, payload, now),
        ),
{
}

/// Two films created under different identifiers are both live afterwards,
/// each under its own.
pub proof fn distinct_ids_do_not_collide(
    films: Map<u128, FilmView>,
    first: u128,
    second: u128,
    first_payload: CreateFilmView,
    second_payload: CreateFilmView,
    first_now: Timestamp,
    second_now: Timestamp,
)
    requires
        first != second,
    ensures
        ({
            let both = after_create(
                after_create(films, first, first_payload, first_now),
                second,
                second_payload,
                second_now,
            );
            &&& lookup(both, first) == Ok::<FilmView, FilmError>(
                created(first, first_payload, first_now),
            )
            &&& lookup(both, second) == Ok::<FilmView, FilmError>(
                created(second, second_payload, second_now),
            )
        }),
{
}

/// An update of a live film keeps its identifier and its creation stamp,
/// takes title, director, year and poster from the input, and stamps the
/// update; looking the identifier up afterwards gives the revised film, and
/// every other film is as it was.
pub proof fn update_keeps_identity(films: Map<u128, FilmView>, input: FilmView, now: Timestamp)
    requires
        valid(films),
        films.contains_key(input.id),
    ensures
        update_outcome(films, input, now) == Ok::<FilmView, FilmError>(
            revised(films[input.id], input, now),
        ),
        is_revision_by(revised(films[input.id], input, now), input),
        revised(films[input.id], input, now).created_at == films[input.id].created_at,
        revised(films[input.id], input, now).updated_at == Some(now),
        lookup(after_update(films, input, now), input.id) == update_outcome(films, input, now),
        after_update(films, input, now).dom() == films.dom(),
        forall|other: u128|
            other != input.id ==> lookup(after_update(films, input, now), other) == lookup(
                films,
                other,
            ),
{
    assert(after_update(films, input, now).dom() =~= films.dom());
}

/// Where the clock has not gone back since the film was last stamped, the
/// update stamp is at or after every stamp that the film carried before.
pub proof fn update_stamp_is_not_earlier(films: Map<u128, FilmView>, input: FilmView, now: Timestamp)
    requires
        films.contains_key(input.id),
        not_before(now, films[input.id].created_at),
        not_before(now, films[input.id].updated_at),
    ensures
        ({
            let stored = films[input.id];
            &&& revised(stored, input, now).updated_at matches Some(stamp)
            &&& not_before(stamp, stored.created_at)
            &&& not_before(stamp, stored.updated_at)
        }),
{
}

/// An update under an identifier that is not live fails with `NotFound` and
/// leaves the store as it was.
pub proof fn update_of_unknown_id_changes_nothing(
    films: Map<u128, FilmView>,
    input: FilmView,
    now: Timestamp,
)
    requires
        !films.contains_key(input.id),
    ensures
        update_outcome(films, input, now) == Err::<FilmView, FilmError>(
            FilmError::NotFound(FilmId { value: input.id }),
        ),
        after_update(films, input, now) == films,
{
}

/// After a delete, looking the identifier up fails with `NotFound`, and
/// every other film is as it was.
pub proof fn deleted_film_is_not_found(films: Map<u128, FilmView>, id: u128)
    ensures
        lookup(after_delete(films, id), id) == Err::<FilmView, FilmError>(
            FilmError::NotFound(FilmId { value: id }),
        ),
        forall|other: u128|
            other != id ==> lookup(after_delete(films, id), other) == lookup(films, other),
{
}

/// Deleting an identifier that is not live leaves the store as it was, so
/// a second delete of the same identifier changes nothing.
pub proof fn delete_is_idempotent(films: Map<u128, FilmView>, id: u128)
    ensures
        !films.contains_key(id) ==> after_delete(films, id) == films,
        after_delete(after_delete(films, id), id) == after_delete(films, id),
{
    if !films.contains_key(id) {
        assert(after_delete(films, id) =~= films);
    }
    assert(after_delete(after_delete(films, id), id) =~= after_delete(films, id));
}

/// Creating a film in a store with none and deleting it again leaves a store
/// with none.
pub proof fn create_then_delete_leaves_nothing(id: u128, payload: CreateFilmView, now: Timestamp)
    ensures
        after_delete(after_create(Map::<u128, FilmView>::empty(), id, payload, now), id)
            == Map::<u128, FilmView>::empty(),
{
    assert(after_delete(after_create(Map::<u128, FilmView>::empty(), id, payload, now), id)
        =~= Map::<u128, FilmView>::empty());
}

/// Every step leaves a valid store valid: the films stay finitely many, and
/// none is filed under another identifier than its own, so that no two live
/// films ever share one.
pub proof fn steps_keep_the_store_valid(
    films: Map<u128, FilmView>,
    id: u128,
    payload: CreateFilmView,
    input: FilmView,
    now: Timestamp,
)
    requires
        valid(films),
    ensures
        valid(Map::<u128, FilmView>::empty()),
        valid(after_create(films, id, payload, now)),
        valid(after_update(films, input, now)),
        valid(after_delete(films, id)),
{
}

/// A film has no update stamp when it is created, and has one after every
/// update.
pub proof fn update_stamp_tells_updates(
    stored: FilmView,
    id: u128,
    payload: CreateFilmView,
    input: FilmView,
    now: Timestamp,
)
    ensures
        created(id, payload, now).updated_at is None,
        revised(stored, input, now).updated_at is Some,
{
}

} // verus!
