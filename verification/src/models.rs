//! The film record, its creation payload, and the plain values they are made of.

use crate::platform::uuid_text;
use vstd::prelude::*;

verus! {

/// The identifier of a film: the 128 bits of a UUID, most significant byte first.
#[derive(Clone, Copy, Debug, PartialEq, Eq, Hash, Structural)]
pub struct FilmId {
    pub value: u128,
}

impl View for FilmId {
    type V = u128;

    open spec fn view(&self) -> u128 {
        self.value
    }
}

/// The hexadecimal digit of `id` at `place`, in lower case. Place 0 holds the
/// most significant four bits, place 31 the least significant.
pub open spec fn hex_digit(id: u128, place: int) -> char {
    "0123456789abcdef"@[((id >> ((4 * (31 - place)) as u128)) & 0xf) as int]
}

/// The hexadecimal digits of `id` from the place `from` up to, not
/// including, the place `to`.
pub open spec fn hex_digits(id: u128, from: int, to: int) -> Seq<char> {
    Seq::new((to - from) as nat, |i: int| hex_digit(id, from + i))
}

/// The canonical text of the UUID whose 128 bits are `id`: its 32
/// hexadecimal digits in groups of eight, four, four, four and twelve, with
/// a hyphen between two groups.
pub open spec fn hyphenated(id: u128) -> Seq<char> {
    hex_digits(id, 0, 8) + "-"@ + hex_digits(id, 8, 12) + "-"@ + hex_digits(id, 12, 16) + "-"@
        + hex_digits(id, 16, 20) + "-"@ + hex_digits(id, 20, 32)
}

/// `id` carries the marks of a random UUID: version 4 in the high nibble of
/// the seventh byte, the variant bits `10` at the top of the ninth.
pub open spec fn is_random_uuid(id: u128) -> bool {
    id & 0x0000_0000_0000_f000_c000_0000_0000_0000 == 0x0000_0000_0000_4000_8000_0000_0000_0000
}

impl FilmId {
    /// The identifier with the given 128 bits.
    pub fn new(value: u128) -> (id: FilmId)
        ensures
            id@ == value,
    {
        FilmId { value }
    }

    /// The identifier as text, in the canonical form of a UUID.
    pub fn to_text(&self) -> (text: String)
        ensures
            text@ == hyphenated(self@),
    {
        uuid_text(*self)
    }
}

/// An instant in UTC: whole seconds since 1970-01-01T00:00:00Z and the
/// nanoseconds that follow them.
#[derive(Clone, Copy, Debug, PartialEq, Eq, Hash, Structural)]
pub struct Timestamp {
    pub secs: i64,
    pub nanos: u32,
}

impl Timestamp {
    /// `self` is the same instant as `earlier` or a later one.
    pub open spec fn at_or_after(self, earlier: Timestamp) -> bool {
        self.secs > earlier.secs || (self.secs == earlier.secs && self.nanos >= earlier.nanos)
    }

    /// Whether `self` is the same instant as `earlier` or a later one.
    pub fn is_at_or_after(&self, earlier: &Timestamp) -> (r: bool)
        ensures
            r == self.at_or_after(*earlier),
    {
        self.secs > earlier.secs || (self.secs == earlier.secs && self.nanos >= earlier.nanos)
    }
}

/// `stamp` is absent, or `instant` is at or after it.
pub open spec fn not_before(instant: Timestamp, stamp: Option<Timestamp>) -> bool {
    match stamp {
        Some(earlier) => instant.at_or_after(earlier),
        None => true,
    }
}

/// What a caller supplies to have a film stored.
#[derive(Debug, PartialEq, Eq)]
pub struct CreateFilm {
    pub title: String,
    pub director: String,
    pub year: i32,
    pub poster: String,
}

/// The mathematical content of a [`CreateFilm`].
pub struct CreateFilmView {
    pub title: Seq<char>,
    pub director: Seq<char>,
    pub year: int,
    pub poster: Seq<char>,
}

impl View for CreateFilm {
    type V = CreateFilmView;

    open spec fn view(&self) -> CreateFilmView {
        CreateFilmView {
            title: self.title@,
            director: self.director@,
            year: self.year as int,
            poster: self.poster@,
        }
    }
}

impl Clone for CreateFilm {
    fn clone(&self) -> (copy: CreateFilm)
        ensures
            copy@ == self@,
    {
        CreateFilm {
            title: self.title.clone(),
            director: self.director.clone(),
            year: self.year,
            poster: self.poster.clone(),
        }
    }
}

/// A stored film.
#[derive(Debug, PartialEq, Eq)]
pub struct Film {
    pub id: FilmId,
    pub title: String,
    pub director: String,
    pub year: i32,
    pub poster: String,
    pub created_at: Option<Timestamp>,
    pub updated_at: Option<Timestamp>,
}

/// The mathematical content of a [`Film`].
pub struct FilmView {
    pub id: u128,
    pub title: Seq<char>,
    pub director: Seq<char>,
    pub year: int,
    pub poster: Seq<char>,
    pub created_at: Option<Timestamp>,
    pub updated_at: Option<Timestamp>,
}

impl View for Film {
    type V = FilmView;

    open spec fn view(&self) -> FilmView {
        FilmView {
            id: self.id@,
            title: self.title@,
            director: self.director@,
            year: self.year as int,
            poster: self.poster@,
            created_at: self.created_at,
            updated_at: self.updated_at,
        }
    }
}

/// The mathematical content of a sequence of films.
pub open spec fn films_view(films: Seq<Film>) -> Seq<FilmView> {
    films.map_values(|film: Film| film@)
}

impl Clone for Film {
    fn clone(&self) -> (copy: Film)
        ensures
            copy@ == self@,
    {
        Film {
            id: self.id,
            title: self.title.clone(),
            director: self.director.clone(),
            year: self.year,
            poster: self.poster.clone(),
            created_at: self.created_at,
            updated_at: self.updated_at,
        }
    }
}

} // verus!
