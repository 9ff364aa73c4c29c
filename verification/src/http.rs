//! Requests and responses as plain values: what an endpoint is registered
//! under, and what it answers. Whoever serves the endpoints turns these into
//! the messages of its transport.

use crate::models::{films_view, Film, FilmId, FilmView};
use vstd::prelude::*;
use vstd::string::StringExecFns;

verus! {

/// The status of a response that carries what was asked for.
pub const OK: u16 = 200;

/// The status of a response to a request for a film that is not live.
pub const NOT_FOUND: u16 = 404;

/// The status of a response to a payload that could not be stored.
pub const UNPROCESSABLE_ENTITY: u16 = 422;

/// The status of a response to a request that failed on the server's side.
pub const INTERNAL_SERVER_ERROR: u16 = 500;

/// The method of a request.
#[derive(Clone, Copy, Debug, PartialEq, Eq, Structural)]
pub enum Method {
    Get,
    Post,
    Put,
    Delete,
}

/// The endpoints that a service can register.
#[derive(Clone, Copy, Debug, PartialEq, Eq, Structural)]
pub enum Endpoint {
    HealthCheck,
    GetFilms,
    GetFilm,
    PostFilm,
    PutFilm,
    DeleteFilm,
}

/// One line of the routing table: requests with this method on this path go
/// to this endpoint. A path segment in braces stands for a parameter.
#[derive(Debug, PartialEq, Eq)]
pub struct Route {
    pub method: Method,
    pub path: String,
    pub endpoint: Endpoint,
}

/// The mathematical content of a [`Route`].
pub struct RouteView {
    pub method: Method,
    pub path: Seq<char>,
    pub endpoint: Endpoint,
}

impl View for Route {
    type V = RouteView;

    open spec fn view(&self) -> RouteView {
        RouteView { method: self.method, path: self.path@, endpoint: self.endpoint }
    }
}

/// The routing table that services register their endpoints in.
#[derive(Debug, PartialEq, Eq)]
pub struct ServiceConfig {
    pub routes: Vec<Route>,
}

impl View for ServiceConfig {
    type V = Seq<RouteView>;

    open spec fn view(&self) -> Seq<RouteView> {
        self.routes@.map_values(|route: Route| route@)
    }
}

impl ServiceConfig {
    /// A table with no route in it.
    pub fn new() -> (cfg: ServiceConfig)
        ensures
            cfg@ == Seq::<RouteView>::empty(),
    {
        let cfg = ServiceConfig { routes: Vec::new() };
        assert(cfg@ =~= Seq::<RouteView>::empty());
        cfg
    }

    /// Adds a route at the end of the table.
    pub fn route(&mut self, method: Method, path: &str, endpoint: Endpoint)
        ensures
            final(self)@ == old(self)@.push(RouteView { method, path: path@, endpoint }),
    {
        self.routes.push(Route { method, path: String::from_str(path), endpoint });
        assert(self@ =~= old(self)@.push(RouteView { method, path: path@, endpoint }));
    }
}

/// One header of a response.
#[derive(Debug, PartialEq, Eq)]
pub struct Header {
    pub name: String,
    pub value: String,
}

/// The mathematical content of a [`Header`].
pub struct HeaderView {
    pub name: Seq<char>,
    pub value: Seq<char>,
}

impl View for Header {
    type V = HeaderView;

    open spec fn view(&self) -> HeaderView {
        HeaderView { name: self.name@, value: self.value@ }
    }
}

/// What a response carries.
#[derive(Debug, PartialEq, Eq)]
pub enum Body {
    /// Nothing.
    Empty,
    /// Plain text.
    Text(String),
    /// One film, to be written as a JSON object.
    Film(Film),
    /// Films, to be written as a JSON array.
    Films(Vec<Film>),
    /// An identifier, to be written as a JSON string.
    Id(FilmId),
}

/// The mathematical content of a [`Body`].
pub enum BodyView {
    Empty,
    Text(Seq<char>),
    Film(FilmView),
    Films(Seq<FilmView>),
    Id(u128),
}

impl View for Body {
    type V = BodyView;

    open spec fn view(&self) -> BodyView {
        match self {
            Body::Empty => BodyView::Empty,
            Body::Text(text) => BodyView::Text(text@),
            Body::Film(film) => BodyView::Film(film@),
            Body::Films(films) => BodyView::Films(films_view(films@)),
            Body::Id(id) => BodyView::Id(id@),
        }
    }
}

/// What an endpoint answers.
#[derive(Debug, PartialEq, Eq)]
pub struct Response {
    pub status: u16,
    pub headers: Vec<Header>,
    pub body: Body,
}

/// The mathematical content of a [`Response`].
pub struct ResponseView {
    pub status: u16,
    pub headers: Seq<HeaderView>,
    pub body: BodyView,
}

impl View for Response {
    type V = ResponseView;

    open spec fn view(&self) -> ResponseView {
        ResponseView {
            status: self.status,
            headers: self.headers@.map_values(|header: Header| header@),
            body: self.body@,
        }
    }
}

/// The response with the given status and body and no header.
pub open spec fn plain(status: u16, body: BodyView) -> ResponseView {
    ResponseView { status, headers: Seq::empty(), body }
}

impl Response {
    /// A response with the given status and body and no header.
    pub fn new(status: u16, body: Body) -> (response: Response)
        ensures
            response@ == plain(status, body@),
    {
        let response = Response { status, headers: Vec::new(), body };
        assert(response@.headers =~= Seq::<HeaderView>::empty());
        response
    }

    /// Whether the status says that the request was served: 200 to 299.
    pub fn is_success(&self) -> (served: bool)
        ensures
            served == (200 <= self.status < 300),
    {
        200 <= self.status && self.status < 300
    }

    /// The value of the first header named `name`, if there is one.
    pub fn header(&self, name: &str) -> (value: Option<&String>)
        ensures
            match value {
                Some(value) => exists|i: int|
                    0 <= i < self.headers.len() && (#[trigger] self.headers[i]).name@ == name@
                        && self.headers[i].value == *value && forall|j: int|
                        0 <= j < i ==> (#[trigger] self.headers[j]).name@ != name@,
                None => forall|i: int|
                    0 <= i < self.headers.len() ==> (#[trigger] self.headers[i]).name@ != name@,
            },
    {
        let wanted = String::from_str(name);
        let mut i: usize = 0;
        while i < self.headers.len()
            invariant
                i <= self.headers.len(),
                wanted@ == name@,
                forall|j: int| 0 <= j < i ==> (#[trigger] self.headers[j]).name@ != name@,
            decreases self.headers.len() - i,
        {
            if self.headers[i].name == wanted {
                return Some(&self.headers[i].value);
            }
            i += 1;
        }
        None
    }
}

} // verus!
