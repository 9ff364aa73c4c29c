use api_lib::http::{
    Body, Endpoint, Header, Method, Response, Route, ServiceConfig, INTERNAL_SERVER_ERROR,
    NOT_FOUND, OK, UNPROCESSABLE_ENTITY,
};

fn header(name: &str, value: &str) -> Header {
    Header { name: String::from(name), value: String::from(value) }
}

#[test]
fn status_codes() {
    assert_eq!(OK, 200);
    assert_eq!(NOT_FOUND, 404);
    assert_eq!(UNPROCESSABLE_ENTITY, 422);
    assert_eq!(INTERNAL_SERVER_ERROR, 500);
}

#[test]
fn new_response_has_no_header() {
    let response = Response::new(404, Body::Text(String::from("gone")));

    assert_eq!(
        response,
        Response { status: 404, headers: vec![], body: Body::Text(String::from("gone")) }
    );
    assert_eq!(response.header("version"), None);
}

#[test]
fn success_is_a_status_from_200_to_299() {
    for (status, served) in
        [(0, false), (199, false), (200, true), (204, true), (299, true), (300, false), (404, false), (u16::MAX, false)]
    {
        assert_eq!(Response::new(status, Body::Empty).is_success(), served);
    }
}

#[test]
fn header_lookup_takes_the_first_match() {
    let response = Response {
        status: 200,
        headers: vec![header("a", "1"), header("b", "2"), header("a", "3"), header("", "4")],
        body: Body::Empty,
    };

    assert_eq!(response.header("a"), Some(&String::from("1")));
    assert_eq!(response.header("b"), Some(&String::from("2")));
    assert_eq!(response.header(""), Some(&String::from("4")));
    assert_eq!(response.header("A"), None);
    assert_eq!(response.header("c"), None);
}

#[test]
fn routes_are_kept_in_the_order_of_registration() {
    let mut cfg = ServiceConfig::new();
    assert_eq!(cfg, ServiceConfig { routes: vec![] });

    cfg.route(Method::Put, "/b", Endpoint::PutFilm);
    cfg.route(Method::Get, "/a", Endpoint::GetFilms);
    cfg.route(Method::Put, "/b", Endpoint::PutFilm);

    assert_eq!(
        cfg.routes,
        vec![
            Route { method: Method::Put, path: String::from("/b"), endpoint: Endpoint::PutFilm },
            Route { method: Method::Get, path: String::from("/a"), endpoint: Endpoint::GetFilms },
            Route { method: Method::Put, path: String::from("/b"), endpoint: Endpoint::PutFilm },
        ]
    );
}
