use vstd::prelude::*;

verus! {

/// What the server does with a request, decided by its request line.
#[derive(Debug, Clone, Copy, PartialEq, Eq, Structural)]
pub enum Route {
    /// `GET /`: the greeting page.
    Hello,
    /// `GET /sleep`: the greeting page, after a pause.
    SlowHello,
    /// Anything else: the not-found page.
    NotFound,
}

/// The route for a request line.
pub open spec fn route_of(line: Seq<char>) -> Route {
    if line == "GET / HTTP/1.1"@ {
        Route::Hello
    } else if line == "GET /sleep HTTP/1.1"@ {
        Route::SlowHello
    } else {
        Route::NotFound
    }
}

/// Picks the route for `request_line`, compared whole and exactly.
pub fn route(request_line: &String) -> (r: Route)
    ensures
        r == route_of(request_line@),
{
    let hello = "GET / HTTP/1.1".to_owned();
    let slow = "GET /sleep HTTP/1.1".to_owned();
    if *request_line == hello {
        Route::Hello
    } else if *request_line == slow {
        Route::SlowHello
    } else {
        Route::NotFound
    }
}

impl Route {
    /// The status line of the response.
    pub fn status_line(&self) -> (r: &'static str)
        ensures
            *self == Route::NotFound ==> r@ == "HTTP/1.1 404 NOT FOUND"@,
            *self != Route::NotFound ==> r@ == "HTTP/1.1 200 OK"@,
    {
        match self {
            Route::NotFound => "HTTP/1.1 404 NOT FOUND",
            _ => "HTTP/1.1 200 OK",
        }
    }

    /// The file whose contents make the body of the response.
    pub fn filename(&self) -> (r: &'static str)
        ensures
            *self == Route::NotFound ==> r@ == "src/404.html"@,
            *self != Route::NotFound ==> r@ == "src/hello.html"@,
    {
        match self {
            Route::NotFound => "src/404.html",
            _ => "src/hello.html",
        }
    }

    /// Whether the response is held back for a while before it is sent.
    pub fn is_slow(&self) -> (r: bool)
        ensures
            r <==> *self == Route::SlowHello,
    {
        match self {
            Route::SlowHello => true,
            _ => false,
        }
    }
}

} // verus!
