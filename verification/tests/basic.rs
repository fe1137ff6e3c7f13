use hyper_router::{LookupError, Method, Request, Response, Route, RouterBuilder};

type Handler = fn(Request) -> Response;

/// The path component of an absolute URL, as an HTTP server would hand
/// it to the router.
fn path_of(url: &str) -> String {
    let after_scheme = match url.find("://") {
        Some(i) => &url[i + 3..],
        None => url,
    };
    match after_scheme.find('/') {
        Some(i) => after_scheme[i..].to_string(),
        None => "/".to_string(),
    }
}

fn handle_ok(_: Request) -> Response {
    Response::new()
}

fn handle_wrong_route(_: Request) -> Response {
    panic!("the router picked a route it should not have")
}

#[test]
fn test_get_route() {
    let request = Request::new(Method::Get, path_of("http://www.example.com/hello"));

    let router = RouterBuilder::new()
        .add(Route::get("/hello").using(handle_ok as Handler))
        .add(Route::get("/").using(handle_wrong_route as Handler))
        .add(Route::get("/foo").using(handle_wrong_route as Handler))
        .add(Route::post("/hello").using(handle_wrong_route as Handler))
        .build();

    let handler = router.find_handler(&request).unwrap();
    handler(request);
}

#[test]
fn test_post_route() {
    let request = Request::new(Method::Post, path_of("http://www.example.com/hello"));

    let router = RouterBuilder::new()
        .add(Route::post("/hello").using(handle_ok as Handler))
        .add(Route::get("/").using(handle_wrong_route as Handler))
        .add(Route::get("/foo").using(handle_wrong_route as Handler))
        .add(Route::get("/hello").using(handle_wrong_route as Handler))
        .build();

    let handler = router.find_handler(&request).unwrap();
    handler(request);
}

#[test]
fn test_delete_route() {
    let request = Request::new(Method::Delete, path_of("http://www.example.com/hello"));

    let router = RouterBuilder::new()
        .add(Route::delete("/hello").using(handle_ok as Handler))
        .add(Route::post("/hello").using(handle_wrong_route as Handler))
        .build();

    let handler = router.find_handler(&request).unwrap();
    handler(request);
}

#[test]
fn test_options_route() {
    let request = Request::new(Method::Options, path_of("http://www.example.com/hello"));

    let router = RouterBuilder::new()
        .add(Route::options("/hello").using(handle_ok as Handler))
        .add(Route::post("/hello").using(handle_wrong_route as Handler))
        .build();

    let handler = router.find_handler(&request).unwrap();
    handler(request);
}

#[test]
fn test_put_route() {
    let request = Request::new(Method::Put, path_of("http://www.example.com/hello"));

    let router = RouterBuilder::new()
        .add(Route::put("/hello").using(handle_ok as Handler))
        .add(Route::post("/hello").using(handle_wrong_route as Handler))
        .build();

    let handler = router.find_handler(&request).unwrap();
    handler(request);
}

#[test]
fn test_head_route() {
    let request = Request::new(Method::Head, path_of("http://www.example.com/hello"));

    let router = RouterBuilder::new()
        .add(Route::head("/hello").using(handle_ok as Handler))
        .add(Route::post("/hello").using(handle_wrong_route as Handler))
        .build();

    let handler = router.find_handler(&request).unwrap();
    handler(request);
}

#[test]
fn test_trace_route() {
    let request = Request::new(Method::Trace, path_of("http://www.example.com/hello"));

    let router = RouterBuilder::new()
        .add(Route::trace("/hello").using(handle_ok as Handler))
        .add(Route::post("/hello").using(handle_wrong_route as Handler))
        .build();

    let handler = router.find_handler(&request).unwrap();
    handler(request);
}

#[test]
fn test_patch_route() {
    let request = Request::new(Method::Patch, path_of("http://www.example.com/hello"));

    let router = RouterBuilder::new()
        .add(Route::patch("/hello").using(handle_ok as Handler))
        .add(Route::post("/hello").using(handle_wrong_route as Handler))
        .build();

    let handler = router.find_handler(&request).unwrap();
    handler(request);
}

#[test]
fn test_no_route() {
    let request = Request::new(Method::Get, path_of("http://www.example.com/notfound"));

    let router = RouterBuilder::new()
        .add(Route::patch("/foo").using(handle_wrong_route as Handler))
        .add(Route::patch("/bar").using(handle_wrong_route as Handler))
        .build();

    let handler = router.find_handler(&request);

    match handler {
        Ok(_) => panic!("Expected an error, but got a handler instead"),
        Err(e) => assert_eq!(e, LookupError::NotFound),
    }
}

#[test]
fn test_regex_path() {
    let request = Request::new(Method::Get, path_of("http://www.example.com/foo/bar"));

    let router = RouterBuilder::new()
        .add(Route::get(r"/foo/.*?").using(handle_ok as Handler))
        .add(Route::get(r"/bar/.*?").using(handle_wrong_route as Handler))
        .build();

    let handler = router.find_handler(&request).unwrap();
    handler(request);
}
