use api_lib::film_repository::film_store::FilmStore;
use api_lib::film_repository::FilmError;
use api_lib::models::{CreateFilm, Film, FilmId, Timestamp};

fn payload(tag: &str) -> CreateFilm {
    CreateFilm {
        title: format!("title-{}", tag),
        director: format!("director-{}", tag),
        year: 2001,
        poster: format!("poster-{}", tag),
    }
}

fn at(secs: i64) -> Timestamp {
    Timestamp { secs, nanos: 0 }
}

fn sorted_ids(films: &[Film]) -> Vec<u128> {
    let mut ids: Vec<u128> = films.iter().map(|film| film.id.value).collect();
    ids.sort();
    ids
}

#[test]
fn new_store_lists_nothing() {
    let store = FilmStore::new();
    assert_eq!(store.list(), Vec::<Film>::new());
}

#[test]
fn get_on_an_empty_store_is_not_found() {
    let store = FilmStore::new();
    assert_eq!(store.get(&FilmId::new(1)), Err(FilmError::NotFound(FilmId::new(1))));
}

#[test]
fn create_builds_the_record_from_its_arguments() {
    let mut store = FilmStore::new();

    let film = store.create(FilmId::new(7), &payload("a"), Timestamp { secs: 100, nanos: 9 });

    assert_eq!(
        film,
        Film {
            id: FilmId::new(7),
            title: String::from("title-a"),
            director: String::from("director-a"),
            year: 2001,
            poster: String::from("poster-a"),
            created_at: Some(Timestamp { secs: 100, nanos: 9 }),
            updated_at: None,
        }
    );
    assert_eq!(store.get(&FilmId::new(7)), Ok(film.clone()));
    assert_eq!(store.list(), vec![film]);
}

#[test]
fn creation_leaves_the_other_films_alone() {
    let mut store = FilmStore::new();
    let first = store.create(FilmId::new(1), &payload("a"), at(10));
    let second = store.create(FilmId::new(2), &payload("b"), at(20));

    assert_eq!(store.get(&FilmId::new(1)), Ok(first));
    assert_eq!(store.get(&FilmId::new(2)), Ok(second));
    assert_eq!(sorted_ids(&store.list()), vec![1, 2]);
}

#[test]
fn creation_under_a_live_id_replaces_the_film() {
    let mut store = FilmStore::new();
    store.create(FilmId::new(1), &payload("a"), at(10));
    let second = store.create(FilmId::new(1), &payload("b"), at(20));

    assert_eq!(store.list(), vec![second]);
}

#[test]
fn update_keeps_id_and_creation_stamp() {
    let mut store = FilmStore::new();
    let created = store.create(FilmId::new(5), &payload("a"), at(10));

    let input = Film {
        id: FilmId::new(5),
        title: String::from("new-title"),
        director: String::from("new-director"),
        year: 2002,
        poster: String::from("new-poster"),
        created_at: Some(at(99)),
        updated_at: Some(at(98)),
    };
    let updated = store.update(&input, at(30)).unwrap();

    assert_eq!(
        updated,
        Film {
            id: FilmId::new(5),
            title: String::from("new-title"),
            director: String::from("new-director"),
            year: 2002,
            poster: String::from("new-poster"),
            created_at: created.created_at,
            updated_at: Some(at(30)),
        }
    );
    assert_eq!(store.get(&FilmId::new(5)), Ok(updated));
}

#[test]
fn every_update_refreshes_the_update_stamp() {
    let mut store = FilmStore::new();
    let created = store.create(FilmId::new(5), &payload("a"), at(10));
    assert_eq!(created.updated_at, None);

    let first = store.update(&created, at(20)).unwrap();
    assert_eq!(first.updated_at, Some(at(20)));
    assert!(first.updated_at.unwrap().is_at_or_after(&created.created_at.unwrap()));

    let second = store.update(&created, at(25)).unwrap();
    assert_eq!(second.updated_at, Some(at(25)));
    assert!(second.updated_at.unwrap().is_at_or_after(&first.updated_at.unwrap()));
    assert_eq!(second.created_at, Some(at(10)));
}

#[test]
fn update_takes_the_stamp_it_is_given() {
    let mut store = FilmStore::new();
    let created = store.create(FilmId::new(5), &payload("a"), at(10));

    let updated = store.update(&created, at(3)).unwrap();

    assert_eq!(updated.updated_at, Some(at(3)));
    assert_eq!(updated.created_at, Some(at(10)));
}

#[test]
fn update_of_an_unknown_id_changes_nothing() {
    let mut store = FilmStore::new();
    let created = store.create(FilmId::new(5), &payload("a"), at(10));

    let mut stranger = created.clone();
    stranger.id = FilmId::new(6);
    stranger.title = String::from("other");

    assert_eq!(store.update(&stranger, at(20)), Err(FilmError::NotFound(FilmId::new(6))));
    assert_eq!(store.list(), vec![created]);
}

#[test]
fn update_on_an_empty_store_is_not_found() {
    let mut store = FilmStore::new();
    let film = Film {
        id: FilmId::new(1),
        title: String::new(),
        director: String::new(),
        year: 0,
        poster: String::new(),
        created_at: None,
        updated_at: None,
    };

    assert_eq!(store.update(&film, at(1)), Err(FilmError::NotFound(FilmId::new(1))));
    assert_eq!(store.list().len(), 0);
}

#[test]
fn delete_removes_the_film_and_returns_the_id() {
    let mut store = FilmStore::new();
    store.create(FilmId::new(1), &payload("a"), at(10));
    let kept = store.create(FilmId::new(2), &payload("b"), at(20));

    assert_eq!(store.delete(&FilmId::new(1)), FilmId::new(1));

    assert_eq!(store.get(&FilmId::new(1)), Err(FilmError::NotFound(FilmId::new(1))));
    assert_eq!(store.list(), vec![kept]);
}

#[test]
fn delete_of_an_unknown_id_returns_the_id() {
    let mut store = FilmStore::new();
    let kept = store.create(FilmId::new(2), &payload("b"), at(20));

    assert_eq!(store.delete(&FilmId::new(1)), FilmId::new(1));
    assert_eq!(store.delete(&FilmId::new(1)), FilmId::new(1));

    assert_eq!(store.list(), vec![kept]);
}

#[test]
fn insert_files_a_film_under_its_own_id() {
    let mut store = FilmStore::new();
    let film = Film {
        id: FilmId::new(9),
        title: String::from("t"),
        director: String::from("d"),
        year: 1,
        poster: String::from("p"),
        created_at: None,
        updated_at: Some(at(4)),
    };

    store.insert(film.clone());

    assert_eq!(store.get(&FilmId::new(9)), Ok(film.clone()));
    assert_eq!(store.list(), vec![film]);
}

#[test]
fn list_holds_every_film_once() {
    let mut store = FilmStore::new();
    for value in 0..50u128 {
        store.create(FilmId::new(value * 3), &payload("x"), at(1));
    }
    store.delete(&FilmId::new(6));

    let films = store.list();

    assert_eq!(films.len(), 49);
    let mut expected: Vec<u128> = (0..50u128).map(|value| value * 3).collect();
    expected.retain(|value| *value != 6);
    assert_eq!(sorted_ids(&films), expected);
    for film in films.iter() {
        assert_eq!(store.get(&film.id), Ok(film.clone()));
    }
}
