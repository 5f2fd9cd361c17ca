//! The request-handling pipeline: dispatch one request to its handler, run
//! the one storage operation, and turn every failure uniformly into an
//! HTTP response. Handlers never write responses on the error path; the
//! error mapper is the single point where failures become client-visible.

use vstd::prelude::*;
use crate::router::Method;
use crate::router::Route;
use crate::router::RouteSpec;
use crate::router::route;
use crate::router::route_of;
use crate::storage::Storage;
use crate::storage::removed;
use crate::storage::storage_same;
use crate::multipart::boundary_of;
use crate::multipart::boundary_of_spec;
use crate::multipart::parse_multipart;
use crate::multipart::parse_multipart_spec;
use crate::handlers::upload_handler;
use crate::handlers::uploaded;
use crate::bytes_util::concat_bytes;
use crate::msgs::not_found_msg;
use crate::msgs::not_found_msg_vec;
use crate::msgs::payload_too_large_msg;
use crate::msgs::payload_too_large_msg_vec;
use crate::msgs::internal_error_msg;
use crate::msgs::internal_error_msg_vec;
use crate::msgs::success_msg;
use crate::msgs::success_msg_vec;
use crate::msgs::deleted_suffix;
use crate::msgs::deleted_suffix_vec;
use crate::msgs::parse_error_msg;
use crate::msgs::parse_error_msg_vec;
use crate::msgs::no_such_file_msg;
use crate::msgs::no_such_file_msg_vec;
use crate::msgs::newline;

verus! {

/// Read-only configuration, fixed at startup: the upper bound on an upload
/// body's size in bytes.
pub struct Config {
    pub max_body: usize,
}

/// One inbound HTTP request, reduced to plain values: its method, its path,
/// the content-type value if the request carried one, and the whole body.
pub struct Request {
    pub method: Method,
    pub path: Vec<u8>,
    pub content_type: Option<Vec<u8>>,
    pub body: Vec<u8>,
}

/// One outbound HTTP response: a status code and a body.
pub struct Response {
    pub status: u16,
    pub body: Vec<u8>,
}

/// An internal failure condition, tagged: a routing miss, an oversized
/// body, a storage or parse failure with its description, or anything
/// unanticipated.
pub enum Failure {
    RoutingMiss,
    PayloadTooLarge,
    StorageFailure { detail: Vec<u8> },
    Internal,
}

/// The error mapper: the total mapping from a failure condition to the
/// status and message the client sees.
pub fn map_failure(f: Failure) -> (r: Response)
    ensures
        match f {
            Failure::RoutingMiss => r.status == 404 && r.body@ == not_found_msg(),
            Failure::PayloadTooLarge => r.status == 400 && r.body@ == payload_too_large_msg(),
            Failure::StorageFailure { detail } => r.status == 400 && r.body@ == detail@,
            Failure::Internal => r.status == 500 && r.body@ == internal_error_msg(),
        },
{
    match f {
        Failure::RoutingMiss => Response { status: 404, body: not_found_msg_vec() },
        Failure::PayloadTooLarge => Response { status: 400, body: payload_too_large_msg_vec() },
        Failure::StorageFailure { detail } => Response { status: 400, body: detail },
        Failure::Internal => Response { status: 500, body: internal_error_msg_vec() },
    }
}

/// The rendered listing: each stored name in enumeration order, one per
/// line.
pub open spec fn render_listing(names: Seq<Seq<u8>>) -> Seq<u8>
    decreases names.len(),
{
    if names.len() == 0 {
        Seq::empty()
    } else {
        render_listing(names.drop_last()) + names.last() + newline()
    }
}

/// Render a listing body from the names; exact mirror of `render_listing`.
pub fn render_listing_exec(names: &Vec<Vec<u8>>) -> (r: Vec<u8>)
    ensures
        r@ == render_listing(names@.map_values(|v: Vec<u8>| v@)),
{
    let ghost nv = names@.map_values(|v: Vec<u8>| v@);
    let mut out: Vec<u8> = Vec::new();
    let mut k: usize = 0;
    proof {
        assert(nv.subrange(0, 0) =~= Seq::<Seq<u8>>::empty());
    }
    while k < names.len()
        invariant
            k <= names@.len(),
            nv == names@.map_values(|v: Vec<u8>| v@),
            out@ == render_listing(nv.subrange(0, k as int)),
        decreases names@.len() - k,
    {
        let ghost prev = out@;
        out = concat_bytes(&out, &names[k]);
        out.push(10u8);
        proof {
            let sub1 = nv.subrange(0, k + 1);
            assert(sub1.drop_last() =~= nv.subrange(0, k as int));
            assert(sub1.last() == names@[k as int]@);
            assert(out@ =~= prev + names@[k as int]@ + newline());
        }
        k += 1;
    }
    proof {
        assert(nv.subrange(0, names@.len() as int) =~= nv);
    }
    out
}

/// Law: an empty storage renders as an empty listing, not a failure.
pub proof fn lemma_list_empty(names: Seq<Seq<u8>>)
    requires
        names.len() == 0,
    ensures
        render_listing(names) == Seq::<u8>::empty(),
{
}

/// The parts of an upload request's body: the request must carry a content
/// type with a boundary, and the body must parse under that boundary.
pub open spec fn upload_parse(req: Request) -> Option<Seq<(Seq<u8>, Seq<u8>)>> {
    match req.content_type {
        None => None,
        Some(ct) => match boundary_of_spec(ct@) {
            None => None,
            Some(b) => parse_multipart_spec(b, req.body@),
        },
    }
}

/// Handle one request against the storage: dispatch it to the one matching
/// handler, enforce the body-size bound before an upload, and send
/// every failure through the error mapper.
pub fn handle_request(cfg: &Config, s: &mut Storage, req: &Request) -> (r: Response)
    requires
        old(s).wf(),
    ensures
        final(s).wf(),
        match route_of(req.method, req.path@) {
            RouteSpec::NoMatch => r.status == 404 && r.body@ == not_found_msg()
                && storage_same(*final(s), *old(s)),
            RouteSpec::ListAll => r.status == 200 && r.body@ == render_listing(old(s).names())
                && storage_same(*final(s), *old(s)),
            RouteSpec::DeleteAt { name } => {
                if old(s).contains_name(name) {
                    r.status == 200 && r.body@ == name + deleted_suffix() && removed(
                        *old(s),
                        *final(s),
                        name,
                    )
                } else {
                    r.status == 400 && r.body@ == no_such_file_msg() && storage_same(
                        *final(s),
                        *old(s),
                    )
                }
            },
            RouteSpec::UploadTo { name } => {
                if req.body@.len() > cfg.max_body {
                    r.status == 400 && r.body@ == payload_too_large_msg() && storage_same(
                        *final(s),
                        *old(s),
                    )
                } else {
                    match upload_parse(*req) {
                        Some(parts) => r.status == 200 && r.body@ == success_msg() && uploaded(
                            *old(s),
                            *final(s),
                            name,
                            parts,
                        ),
                        None => r.status == 400 && r.body@ == parse_error_msg() && storage_same(
                            *final(s),
                            *old(s),
                        ),
                    }
                }
            },
        },
{
    match route(req.method, &req.path) {
        Route::NotFound => map_failure(Failure::RoutingMiss),
        Route::List => {
            let names = s.list_names();
            let body = render_listing_exec(&names);
            Response { status: 200, body }
        },
        Route::Delete { name } => {
            let ok = s.remove(&name);
            if ok {
                let suffix = deleted_suffix_vec();
                let body = concat_bytes(&name, &suffix);
                Response { status: 200, body }
            } else {
                map_failure(Failure::StorageFailure { detail: no_such_file_msg_vec() })
            }
        },
        Route::Upload { name } => {
            if req.body.len() > cfg.max_body {
                map_failure(Failure::PayloadTooLarge)
            } else {
                match &req.content_type {
                    None => map_failure(
                        Failure::StorageFailure { detail: parse_error_msg_vec() },
                    ),
                    Some(ct) => {
                        match boundary_of(ct) {
                            None => map_failure(
                                Failure::StorageFailure { detail: parse_error_msg_vec() },
                            ),
                            Some(b) => {
                                match parse_multipart(&b, &req.body) {
                                    None => map_failure(
                                        Failure::StorageFailure { detail: parse_error_msg_vec() },
                                    ),
                                    Some(parts) => {
                                        upload_handler(s, &name, &parts);
                                        Response { status: 200, body: success_msg_vec() }
                                    },
                                }
                            },
                        }
                    },
                }
            }
        },
    }
}

} // verus!
