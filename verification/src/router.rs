//! Route dispatch: match an HTTP method and path to one of the three
//! operations — upload, list, delete — or to no route at all.
//!
//! The routes are fixed: `POST /files/v1/{name}` uploads, `GET /files/v1`
//! lists, `DELETE /files/v1/{name}` deletes; anything else is a miss. A
//! `{name}` is one non-empty path segment.

use vstd::prelude::*;
use crate::bytes_util::starts_with;
use crate::bytes_util::bytes_eq;
use crate::bytes_util::subvec;
use crate::msgs::route_prefix;
use crate::msgs::route_prefix_vec;
use crate::msgs::list_route_path;
use crate::msgs::list_route_path_vec;

verus! {

/// The HTTP methods the router distinguishes; every other method is `Other`.
#[derive(Clone, Copy, PartialEq, Eq, Structural)]
pub enum Method {
    Get,
    Post,
    Delete,
    Other,
}

/// The path names a stored file: the route prefix followed by one non-empty
/// segment with no further slash.
pub open spec fn is_file_path(p: Seq<u8>) -> bool {
    &&& p.len() > route_prefix().len()
    &&& p.subrange(0, route_prefix().len() as int) == route_prefix()
    &&& forall|i: int| route_prefix().len() <= i < p.len() ==> p[i] != 47u8
}

/// The file name carried by a file path: everything after the route prefix.
pub open spec fn file_name_of(p: Seq<u8>) -> Seq<u8> {
    p.subrange(route_prefix().len() as int, p.len() as int)
}

/// The routing decision, at the specification level.
pub enum RouteSpec {
    UploadTo { name: Seq<u8> },
    ListAll,
    DeleteAt { name: Seq<u8> },
    NoMatch,
}

/// The one decision the router takes for a method and path.
pub open spec fn route_of(m: Method, p: Seq<u8>) -> RouteSpec {
    if m is Post && is_file_path(p) {
        RouteSpec::UploadTo { name: file_name_of(p) }
    } else if m is Get && p == list_route_path() {
        RouteSpec::ListAll
    } else if m is Delete && is_file_path(p) {
        RouteSpec::DeleteAt { name: file_name_of(p) }
    } else {
        RouteSpec::NoMatch
    }
}

/// The routing decision, carrying the extracted name.
pub enum Route {
    Upload { name: Vec<u8> },
    List,
    Delete { name: Vec<u8> },
    NotFound,
}

/// Extract the file name from a path, or report that the path names no file.
fn file_path_name(path: &Vec<u8>) -> (r: Option<Vec<u8>>)
    ensures
        match r {
            Some(name) => is_file_path(path@) && name@ == file_name_of(path@),
            None => !is_file_path(path@),
        },
{
    let prefix = route_prefix_vec();
    if !starts_with(path, &prefix) {
        return None;
    }
    if path.len() == prefix.len() {
        return None;
    }
    let mut i: usize = prefix.len();
    while i < path.len()
        invariant
            prefix@ == route_prefix(),
            path@.len() > prefix@.len(),
            path@.subrange(0, prefix@.len() as int) == route_prefix(),
            prefix@.len() <= i <= path@.len(),
            forall|j: int| prefix@.len() <= j < i ==> path@[j] != 47u8,
        decreases path.len() - i,
    {
        if path[i] == 47u8 {
            proof {
                assert(path@[i as int] == 47u8);
            }
            return None;
        }
        i += 1;
    }
    Some(subvec(path, prefix.len(), path.len()))
}

/// Select the one handler for a method and path; exact mirror of `route_of`.
pub fn route(m: Method, path: &Vec<u8>) -> (r: Route)
    ensures
        match r {
            Route::Upload { name } => route_of(m, path@) == (RouteSpec::UploadTo { name: name@ }),
            Route::List => route_of(m, path@) is ListAll,
            Route::Delete { name } => route_of(m, path@) == (RouteSpec::DeleteAt { name: name@ }),
            Route::NotFound => route_of(m, path@) is NoMatch,
        },
{
    match m {
        Method::Post => {
            match file_path_name(path) {
                Some(name) => Route::Upload { name },
                None => Route::NotFound,
            }
        },
        Method::Get => {
            let list_path = list_route_path_vec();
            if bytes_eq(path, &list_path) {
                Route::List
            } else {
                Route::NotFound
            }
        },
        Method::Delete => {
            match file_path_name(path) {
                Some(name) => Route::Delete { name },
                None => Route::NotFound,
            }
        },
        Method::Other => Route::NotFound,
    }
}

} // verus!
