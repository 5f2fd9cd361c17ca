//! The fixed byte strings of the protocol: response messages, multipart
//! delimiter fragments, header attribute markers, and route paths. Each has
//! a spec form and an exec form proved equal to it.

use vstd::prelude::*;

verus! {

/// The response body for a request that matches no route.
/// The bytes spell `"Not Found"`.
pub open spec fn not_found_msg() -> Seq<u8> {
    seq![78u8, 111u8, 116u8, 32u8, 70u8, 111u8, 117u8, 110u8, 100u8]
}

/// Exec form of `not_found_msg`.
pub fn not_found_msg_vec() -> (r: Vec<u8>)
    ensures
        r@ == not_found_msg(),
{
    let r: Vec<u8> = vec![78u8, 111u8, 116u8, 32u8, 70u8, 111u8, 117u8, 110u8, 100u8];
    proof {
        assert(r@ =~= not_found_msg());
    }
    r
}

/// The response body for an upload body over the size limit.
/// The bytes spell `"Payload too large"`.
pub open spec fn payload_too_large_msg() -> Seq<u8> {
    seq![80u8, 97u8, 121u8, 108u8, 111u8, 97u8, 100u8, 32u8, 116u8, 111u8, 111u8, 32u8, 108u8, 97u8, 114u8, 103u8, 101u8]
}

/// Exec form of `payload_too_large_msg`.
pub fn payload_too_large_msg_vec() -> (r: Vec<u8>)
    ensures
        r@ == payload_too_large_msg(),
{
    let r: Vec<u8> = vec![80u8, 97u8, 121u8, 108u8, 111u8, 97u8, 100u8, 32u8, 116u8, 111u8, 111u8, 32u8, 108u8, 97u8, 114u8, 103u8, 101u8];
    proof {
        assert(r@ =~= payload_too_large_msg());
    }
    r
}

/// The response body for an unanticipated failure.
/// The bytes spell `"Internal server error."`.
pub open spec fn internal_error_msg() -> Seq<u8> {
    seq![73u8, 110u8, 116u8, 101u8, 114u8, 110u8, 97u8, 108u8, 32u8, 115u8, 101u8, 114u8, 118u8, 101u8, 114u8, 32u8, 101u8, 114u8, 114u8, 111u8, 114u8, 46u8]
}

/// Exec form of `internal_error_msg`.
pub fn internal_error_msg_vec() -> (r: Vec<u8>)
    ensures
        r@ == internal_error_msg(),
{
    let r: Vec<u8> = vec![73u8, 110u8, 116u8, 101u8, 114u8, 110u8, 97u8, 108u8, 32u8, 115u8, 101u8, 114u8, 118u8, 101u8, 114u8, 32u8, 101u8, 114u8, 114u8, 111u8, 114u8, 46u8];
    proof {
        assert(r@ =~= internal_error_msg());
    }
    r
}

/// The response body for a completed upload.
/// The bytes spell `"success"`.
pub open spec fn success_msg() -> Seq<u8> {
    seq![115u8, 117u8, 99u8, 99u8, 101u8, 115u8, 115u8]
}

/// Exec form of `success_msg`.
pub fn success_msg_vec() -> (r: Vec<u8>)
    ensures
        r@ == success_msg(),
{
    let r: Vec<u8> = vec![115u8, 117u8, 99u8, 99u8, 101u8, 115u8, 115u8];
    proof {
        assert(r@ =~= success_msg());
    }
    r
}

/// The suffix appended to a name in a delete confirmation.
/// The bytes spell `" deleted"`.
pub open spec fn deleted_suffix() -> Seq<u8> {
    seq![32u8, 100u8, 101u8, 108u8, 101u8, 116u8, 101u8, 100u8]
}

/// Exec form of `deleted_suffix`.
pub fn deleted_suffix_vec() -> (r: Vec<u8>)
    ensures
        r@ == deleted_suffix(),
{
    let r: Vec<u8> = vec![32u8, 100u8, 101u8, 108u8, 101u8, 116u8, 101u8, 100u8];
    proof {
        assert(r@ =~= deleted_suffix());
    }
    r
}

/// The storage-failure detail for a body that does not parse.
/// The bytes spell `"multipart parse error"`.
pub open spec fn parse_error_msg() -> Seq<u8> {
    seq![109u8, 117u8, 108u8, 116u8, 105u8, 112u8, 97u8, 114u8, 116u8, 32u8, 112u8, 97u8, 114u8, 115u8, 101u8, 32u8, 101u8, 114u8, 114u8, 111u8, 114u8]
}

/// Exec form of `parse_error_msg`.
pub fn parse_error_msg_vec() -> (r: Vec<u8>)
    ensures
        r@ == parse_error_msg(),
{
    let r: Vec<u8> = vec![109u8, 117u8, 108u8, 116u8, 105u8, 112u8, 97u8, 114u8, 116u8, 32u8, 112u8, 97u8, 114u8, 115u8, 101u8, 32u8, 101u8, 114u8, 114u8, 111u8, 114u8];
    proof {
        assert(r@ =~= parse_error_msg());
    }
    r
}

/// The storage-failure detail for removing an absent name.
/// The bytes spell `"file not found"`.
pub open spec fn no_such_file_msg() -> Seq<u8> {
    seq![102u8, 105u8, 108u8, 101u8, 32u8, 110u8, 111u8, 116u8, 32u8, 102u8, 111u8, 117u8, 110u8, 100u8]
}

/// Exec form of `no_such_file_msg`.
pub fn no_such_file_msg_vec() -> (r: Vec<u8>)
    ensures
        r@ == no_such_file_msg(),
{
    let r: Vec<u8> = vec![102u8, 105u8, 108u8, 101u8, 32u8, 110u8, 111u8, 116u8, 32u8, 102u8, 111u8, 117u8, 110u8, 100u8];
    proof {
        assert(r@ =~= no_such_file_msg());
    }
    r
}

/// The two dashes that open a multipart delimiter and close the body.
/// The bytes spell `"--"`.
pub open spec fn dash_dash() -> Seq<u8> {
    seq![45u8, 45u8]
}

/// Exec form of `dash_dash`.
pub fn dash_dash_vec() -> (r: Vec<u8>)
    ensures
        r@ == dash_dash(),
{
    let r: Vec<u8> = vec![45u8, 45u8];
    proof {
        assert(r@ =~= dash_dash());
    }
    r
}

/// A carriage return and line feed.
/// The bytes spell `"\r\n"`.
pub open spec fn crlf() -> Seq<u8> {
    seq![13u8, 10u8]
}

/// Exec form of `crlf`.
pub fn crlf_vec() -> (r: Vec<u8>)
    ensures
        r@ == crlf(),
{
    let r: Vec<u8> = vec![13u8, 10u8];
    proof {
        assert(r@ =~= crlf());
    }
    r
}

/// The blank line that ends a part's headers.
/// The bytes spell `"\r\n\r\n"`.
pub open spec fn crlf_crlf() -> Seq<u8> {
    seq![13u8, 10u8, 13u8, 10u8]
}

/// Exec form of `crlf_crlf`.
pub fn crlf_crlf_vec() -> (r: Vec<u8>)
    ensures
        r@ == crlf_crlf(),
{
    let r: Vec<u8> = vec![13u8, 10u8, 13u8, 10u8];
    proof {
        assert(r@ =~= crlf_crlf());
    }
    r
}

/// The attribute that introduces a part's name in its headers.
/// The bytes spell `"name=\""`.
pub open spec fn name_attr() -> Seq<u8> {
    seq![110u8, 97u8, 109u8, 101u8, 61u8, 34u8]
}

/// Exec form of `name_attr`.
pub fn name_attr_vec() -> (r: Vec<u8>)
    ensures
        r@ == name_attr(),
{
    let r: Vec<u8> = vec![110u8, 97u8, 109u8, 101u8, 61u8, 34u8];
    proof {
        assert(r@ =~= name_attr());
    }
    r
}

/// The closing quote of a header attribute value.
/// The bytes spell `"\""`.
pub open spec fn quote_mark() -> Seq<u8> {
    seq![34u8]
}

/// Exec form of `quote_mark`.
pub fn quote_mark_vec() -> (r: Vec<u8>)
    ensures
        r@ == quote_mark(),
{
    let r: Vec<u8> = vec![34u8];
    proof {
        assert(r@ =~= quote_mark());
    }
    r
}

/// The content-type attribute that carries the multipart boundary.
/// The bytes spell `"boundary="`.
pub open spec fn boundary_attr() -> Seq<u8> {
    seq![98u8, 111u8, 117u8, 110u8, 100u8, 97u8, 114u8, 121u8, 61u8]
}

/// Exec form of `boundary_attr`.
pub fn boundary_attr_vec() -> (r: Vec<u8>)
    ensures
        r@ == boundary_attr(),
{
    let r: Vec<u8> = vec![98u8, 111u8, 117u8, 110u8, 100u8, 97u8, 114u8, 121u8, 61u8];
    proof {
        assert(r@ =~= boundary_attr());
    }
    r
}

/// The one part name whose content an upload stores.
/// The bytes spell `"file"`.
pub open spec fn file_part_name() -> Seq<u8> {
    seq![102u8, 105u8, 108u8, 101u8]
}

/// Exec form of `file_part_name`.
pub fn file_part_name_vec() -> (r: Vec<u8>)
    ensures
        r@ == file_part_name(),
{
    let r: Vec<u8> = vec![102u8, 105u8, 108u8, 101u8];
    proof {
        assert(r@ =~= file_part_name());
    }
    r
}

/// The path prefix of the upload and delete routes.
/// The bytes spell `"/files/v1/"`.
pub open spec fn route_prefix() -> Seq<u8> {
    seq![47u8, 102u8, 105u8, 108u8, 101u8, 115u8, 47u8, 118u8, 49u8, 47u8]
}

/// Exec form of `route_prefix`.
pub fn route_prefix_vec() -> (r: Vec<u8>)
    ensures
        r@ == route_prefix(),
{
    let r: Vec<u8> = vec![47u8, 102u8, 105u8, 108u8, 101u8, 115u8, 47u8, 118u8, 49u8, 47u8];
    proof {
        assert(r@ =~= route_prefix());
    }
    r
}

/// The exact path of the list route.
/// The bytes spell `"/files/v1"`.
pub open spec fn list_route_path() -> Seq<u8> {
    seq![47u8, 102u8, 105u8, 108u8, 101u8, 115u8, 47u8, 118u8, 49u8]
}

/// Exec form of `list_route_path`.
pub fn list_route_path_vec() -> (r: Vec<u8>)
    ensures
        r@ == list_route_path(),
{
    let r: Vec<u8> = vec![47u8, 102u8, 105u8, 108u8, 101u8, 115u8, 47u8, 118u8, 49u8];
    proof {
        assert(r@ =~= list_route_path());
    }
    r
}

/// The line feed that ends each rendered listing line.
/// The bytes spell `"\n"`.
pub open spec fn newline() -> Seq<u8> {
    seq![10u8]
}
/// The separator between attributes in a content-type value.
/// The bytes spell `";"`.
pub open spec fn semicolon() -> Seq<u8> {
    seq![59u8]
}

/// Exec form of `semicolon`.
pub fn semicolon_vec() -> (r: Vec<u8>)
    ensures
        r@ == semicolon(),
{
    let r: Vec<u8> = vec![59u8];
    proof {
        assert(r@ =~= semicolon());
    }
    r
}

} // verus!
