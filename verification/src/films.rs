//! The film endpoints: where each is registered, and what each answers.
//!
//! An endpoint asks the repository and answers by what came back. The answer
//! to every outcome is stated once, on outcomes; the endpoint itself can
//! only promise what holds whatever the repository returned.

use crate::film_repository::{
    film_outcome, films_outcome, id_outcome, may_create, may_delete, may_get, may_list,
    may_update, FilmError, FilmRepository, FilmResult,
};
use crate::http::{
    plain, Body, BodyView, Endpoint, Method, Response, ResponseView, RouteView, ServiceConfig,
    INTERNAL_SERVER_ERROR, NOT_FOUND, OK, UNPROCESSABLE_ENTITY,
};
use crate::models::{hyphenated, CreateFilm, Film, FilmId, FilmView};
use vstd::prelude::*;
use vstd::string::StringExecFns;

verus! {

/// The routes of the film endpoints, in the order in which they are
/// registered.
pub open spec fn film_routes() -> Seq<RouteView> {
    seq![
        RouteView { method: Method::Get, path: "/v1/films"@, endpoint: Endpoint::GetFilms },
        RouteView { method: Method::Get, path: "/v1/films/{film_id}"@, endpoint: Endpoint::GetFilm },
        RouteView { method: Method::Post, path: "/v1/films"@, endpoint: Endpoint::PostFilm },
        RouteView { method: Method::Put, path: "/v1/films"@, endpoint: Endpoint::PutFilm },
        RouteView {
            method: Method::Delete,
            path: "/v1/films/{film_id}"@,
            endpoint: Endpoint::DeleteFilm,
        },
    ]
}

/// Registers the film endpoints at the end of `cfg`.
pub fn service(cfg: &mut ServiceConfig)
    ensures
        final(cfg)@ == old(cfg)@ + film_routes(),
{
    cfg.route(Method::Get, "/v1/films", Endpoint::GetFilms);
    cfg.route(Method::Get, "/v1/films/{film_id}", Endpoint::GetFilm);
    cfg.route(Method::Post, "/v1/films", Endpoint::PostFilm);
    cfg.route(Method::Put, "/v1/films", Endpoint::PutFilm);
    cfg.route(Method::Delete, "/v1/films/{film_id}", Endpoint::DeleteFilm);
    assert(cfg@ =~= old(cfg)@ + film_routes());
}

/// The status that reports `error`: 404 for a film that is not live, 500 for
/// anything else.
pub open spec fn failure_status(error: FilmError) -> u16 {
    if error is NotFound {
        NOT_FOUND
    } else {
        INTERNAL_SERVER_ERROR
    }
}

/// The body that reports `error`.
pub open spec fn failure_text(error: FilmError) -> Seq<char> {
    "Internal server error: "@ + error.message_text()
}

/// The body that reports that no film with the identifier `id` is live.
pub open spec fn missing_text(id: u128) -> Seq<char> {
    "Film with id "@ + hyphenated(id) + " Not found"@
}

/// What a request for all films answers to `outcome`.
pub open spec fn films_answer(outcome: Result<Seq<FilmView>, FilmError>) -> ResponseView {
    match outcome {
        Ok(films) => plain(OK, BodyView::Films(films)),
        Err(error) => plain(failure_status(error), BodyView::Text(failure_text(error))),
    }
}

/// What a request for the film `id` answers to `outcome`.
pub open spec fn film_answer(id: u128, outcome: Result<FilmView, FilmError>) -> ResponseView {
    match outcome {
        Ok(film) => plain(OK, BodyView::Film(film)),
        Err(FilmError::NotFound(_)) => plain(NOT_FOUND, BodyView::Text(missing_text(id))),
        Err(error) => plain(INTERNAL_SERVER_ERROR, BodyView::Text(failure_text(error))),
    }
}

/// What a request to create a film answers to `outcome`.
pub open spec fn post_answer(outcome: Result<FilmView, FilmError>) -> ResponseView {
    match outcome {
        Ok(film) => plain(OK, BodyView::Film(film)),
        Err(error) => plain(UNPROCESSABLE_ENTITY, BodyView::Text(failure_text(error))),
    }
}

/// What a request to update a film answers to `outcome`.
pub open spec fn put_answer(outcome: Result<FilmView, FilmError>) -> ResponseView {
    match outcome {
        Ok(film) => plain(OK, BodyView::Film(film)),
        Err(error) => plain(failure_status(error), BodyView::Text(failure_text(error))),
    }
}

/// What a request to delete a film answers to `outcome`.
pub open spec fn delete_answer(outcome: Result<u128, FilmError>) -> ResponseView {
    match outcome {
        Ok(id) => plain(OK, BodyView::Id(id)),
        Err(error) => plain(INTERNAL_SERVER_ERROR, BodyView::Text(failure_text(error))),
    }
}

/// The response that reports `error` under `status`.
fn failure(status: u16, error: FilmError) -> (response: Response)
    ensures
        response@ == plain(status, BodyView::Text(failure_text(error))),
{
    let mut text = String::from_str("Internal server error: ");
    text.append(error.message().as_str());
    Response::new(status, Body::Text(text))
}

/// The status that reports `error`.
fn status_of(error: FilmError) -> (status: u16)
    ensures
        status == failure_status(error),
{
    match error {
        FilmError::NotFound(_) => NOT_FOUND,
        _ => INTERNAL_SERVER_ERROR,
    }
}

/// Answers a request for all films, given what the repository returned.
pub fn films_response(outcome: FilmResult<Vec<Film>>) -> (response: Response)
    ensures
        response@ == films_answer(films_outcome(outcome)),
{
    match outcome {
        Ok(films) => Response::new(OK, Body::Films(films)),
        Err(error) => failure(status_of(error), error),
    }
}

/// Answers a request for the film `film_id`, given what the repository
/// returned.
pub fn film_response(film_id: &FilmId, outcome: FilmResult<Film>) -> (response: Response)
    ensures
        response@ == film_answer(film_id@, film_outcome(outcome)),
{
    match outcome {
        Ok(film) => Response::new(OK, Body::Film(film)),
        Err(FilmError::NotFound(_)) => {
            let mut text = String::from_str("Film with id ");
            text.append(film_id.to_text().as_str());
            text.append(" Not found");
            Response::new(NOT_FOUND, Body::Text(text))
        },
        Err(error) => failure(INTERNAL_SERVER_ERROR, error),
    }
}

/// Answers a request to create a film, given what the repository returned.
pub fn post_response(outcome: FilmResult<Film>) -> (response: Response)
    ensures
        response@ == post_answer(film_outcome(outcome)),
{
    match outcome {
        Ok(film) => Response::new(OK, Body::Film(film)),
        Err(error) => failure(UNPROCESSABLE_ENTITY, error),
    }
}

/// Answers a request to update a film, given what the repository returned.
pub fn put_response(outcome: FilmResult<Film>) -> (response: Response)
    ensures
        response@ == put_answer(film_outcome(outcome)),
{
    match outcome {
        Ok(film) => Response::new(OK, Body::Film(film)),
        Err(error) => failure(status_of(error), error),
    }
}

/// Answers a request to delete a film, given what the repository returned.
pub fn delete_response(outcome: FilmResult<FilmId>) -> (response: Response)
    ensures
        response@ == delete_answer(id_outcome(outcome)),
{
    match outcome {
        Ok(id) => Response::new(OK, Body::Id(id)),
        Err(error) => failure(INTERNAL_SERVER_ERROR, error),
    }
}

/// Lists the films of `repo`. The response is the answer to an outcome that
/// a backend may return: status 200 with films under different identifiers,
/// or status 500 with the failure in words.
pub fn get_films<R: FilmRepository>(repo: &R) -> (response: Response)
    ensures
        exists|outcome: Result<Seq<FilmView>, FilmError>|
            may_list(outcome) && response@ == #[trigger] films_answer(outcome),
        response@.status == OK || response@.status == INTERNAL_SERVER_ERROR,
{
    let outcome = repo.get_films();
    let response = films_response(outcome);
    assert(may_list(films_outcome(outcome)) && response@ == films_answer(films_outcome(outcome)));
    response
}

/// Looks the film `film_id` up in `repo`. The response is the answer to an
/// outcome that a backend may return: status 200 with a film that has this
/// identifier, status 404 where none is live, or status 500 with the failure
/// in words.
pub fn get_film<R: FilmRepository>(repo: &R, film_id: &FilmId) -> (response: Response)
    ensures
        exists|outcome: Result<FilmView, FilmError>|
            may_get(film_id@, outcome) && response@ == #[trigger] film_answer(film_id@, outcome),
        response@.status == OK || response@.status == NOT_FOUND || response@.status
            == INTERNAL_SERVER_ERROR,
{
    let outcome = repo.get_film(film_id);
    let response = film_response(film_id, outcome);
    assert(may_get(film_id@, film_outcome(outcome)) && response@ == film_answer(
        film_id@,
        film_outcome(outcome),
    ));
    response
}

/// Creates a film from `film` in `repo`. The response is the answer to an
/// outcome that a backend may return: status 200 with the stored film, which
/// has the payload's fields, or status 422 with the failure in words.
pub fn post_film<R: FilmRepository>(repo: &R, film: &CreateFilm) -> (response: Response)
    ensures
        exists|outcome: Result<FilmView, FilmError>|
            may_create(film@, outcome) && response@ == #[trigger] post_answer(outcome),
        response@.status == OK || response@.status == UNPROCESSABLE_ENTITY,
{
    let outcome = repo.create_film(film);
    let response = post_response(outcome);
    assert(may_create(film@, film_outcome(outcome)) && response@ == post_answer(
        film_outcome(outcome),
    ));
    response
}

/// Updates the film `film.id` in `repo`. The response is the answer to an
/// outcome that a backend may return: status 200 with the revised film,
/// which has the identifier and the fields of `film`, status 404 where no
/// such film is live, or status 500 with the failure in words.
pub fn put_film<R: FilmRepository>(repo: &R, film: &Film) -> (response: Response)
    ensures
        exists|outcome: Result<FilmView, FilmError>|
            may_update(film@, outcome) && response@ == #[trigger] put_answer(outcome),
        response@.status == OK || response@.status == NOT_FOUND || response@.status
            == INTERNAL_SERVER_ERROR,
{
    let outcome = repo.update_film(film);
    let response = put_response(outcome);
    assert(may_update(film@, film_outcome(outcome)) && response@ == put_answer(
        film_outcome(outcome),
    ));
    response
}

/// Deletes the film `film_id` from `repo`. The response is the answer to an
/// outcome that a backend may return: status 200 with `film_id`, whether or
/// not such a film was live, or status 500 with the failure in words.
pub fn delete_film<R: FilmRepository>(repo: &R, film_id: &FilmId) -> (response: Response)
    ensures
        exists|outcome: Result<u128, FilmError>|
            may_delete(film_id@, outcome) && response@ == #[trigger] delete_answer(outcome),
        response@.status == OK || response@.status == INTERNAL_SERVER_ERROR,
        response@.status == OK ==> response@.body == BodyView::Id(film_id@),
{
    let outcome = repo.delete_film(film_id);
    let response = delete_response(outcome);
    assert(may_delete(film_id@, id_outcome(outcome)) && response@ == delete_answer(
        id_outcome(outcome),
    ));
    response
}

} // verus!
