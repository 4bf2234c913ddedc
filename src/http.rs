//! Request methods and protocol labels.
use vstd::prelude::*;

verus! {

/// A request method; `Unrecognized` stands for any token that is not one
/// of the five supported methods.
#[derive(Clone, Copy, Debug, PartialEq, Eq, Structural)]
pub enum HttpMethod {
    Get,
    Post,
    Put,
    Delete,
    Options,
    Unrecognized,
}


/// The method that an upper-cased method token names.
pub open spec fn method_named(u: Seq<char>) -> HttpMethod {
    if u == "GET"@ {
        HttpMethod::Get
    } else if u == "POST"@ {
        HttpMethod::Post
    } else if u == "PUT"@ {
        HttpMethod::Put
    } else if u == "DELETE"@ {
        HttpMethod::Delete
    } else if u == "OPTIONS"@ {
        HttpMethod::Options
    } else {
        HttpMethod::Unrecognized
    }
}

impl HttpMethod {
    /// The method that an upper-cased token names; any other token is
    /// `Unrecognized`.
    pub fn from_upper(u: &String) -> (r: HttpMethod)
        ensures
            r == method_named(u@),
    {
        if *u == "GET".to_owned() {
            HttpMethod::Get
        } else if *u == "POST".to_owned() {
            HttpMethod::Post
        } else if *u == "PUT".to_owned() {
            HttpMethod::Put
        } else if *u == "DELETE".to_owned() {
            HttpMethod::Delete
        } else if *u == "OPTIONS".to_owned() {
            HttpMethod::Options
        } else {
            HttpMethod::Unrecognized
        }
    }
}

/// A protocol label.
pub enum HttpProtocol {
    Default(String),
}

impl Default for HttpProtocol {
    /// `HTTP/1.1`.
    fn default() -> (r: HttpProtocol)
        ensures
            match r {
                HttpProtocol::Default(s) => s@ == "HTTP/1.1"@,
            },
    {
        HttpProtocol::Default("HTTP/1.1".to_owned())
    }
}

} // verus!
