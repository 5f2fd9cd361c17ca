//! Multipart body parsing: split a `multipart/form-data` body into its named
//! parts, and extract the boundary from a content-type value.
//!
//! The grammar is the common form of such a body with CRLF line endings: the
//! body opens with the delimiter (two dashes and the boundary); each part is
//! a CRLF, a header block ended by a blank line, the content, and a CRLF
//! followed by the next delimiter; two dashes after a delimiter close the
//! body. A part's name is the first `name="` attribute's quoted value in its
//! header block; a part without one does not parse.

use vstd::prelude::*;
use crate::bytes_util::find_spec;
use crate::bytes_util::lemma_find_spec_props;
use crate::bytes_util::find;
use crate::bytes_util::is_match;
use crate::bytes_util::subvec;
use crate::bytes_util::concat_bytes;
use crate::bytes_util::starts_with;
use crate::msgs::dash_dash;
use crate::msgs::dash_dash_vec;
use crate::msgs::crlf;
use crate::msgs::crlf_vec;
use crate::msgs::crlf_crlf;
use crate::msgs::crlf_crlf_vec;
use crate::msgs::name_attr;
use crate::msgs::name_attr_vec;
use crate::msgs::quote_mark;
use crate::msgs::quote_mark_vec;
use crate::msgs::boundary_attr;
use crate::msgs::boundary_attr_vec;
use crate::msgs::semicolon;
use crate::msgs::semicolon_vec;

verus! {

/// One named segment of a multipart body.
pub struct Part {
    pub name: Vec<u8>,
    pub content: Vec<u8>,
}

impl View for Part {
    type V = (Seq<u8>, Seq<u8>);

    open spec fn view(&self) -> (Seq<u8>, Seq<u8>) {
        (self.name@, self.content@)
    }
}

/// The name/content pairs of a sequence of parts.
pub open spec fn parts_view(parts: Seq<Part>) -> Seq<(Seq<u8>, Seq<u8>)> {
    parts.map_values(|p: Part| p@)
}

/// The name of a part with this header block: the first `name="` attribute's
/// quoted value, if the block has one.
pub open spec fn part_name_spec(headers: Seq<u8>) -> Option<Seq<u8>> {
    match find_spec(headers, name_attr(), 0) {
        None => None,
        Some(i) => {
            let start = i + name_attr().len();
            match find_spec(headers, quote_mark(), start) {
                None => None,
                Some(j) => Some(headers.subrange(start, j)),
            }
        },
    }
}

/// The parts of the body from position `pos`, which sits right after a
/// delimiter; `None` when the remainder is malformed.
pub open spec fn parse_parts_spec(body: Seq<u8>, delim: Seq<u8>, pos: int) -> Option<
    Seq<(Seq<u8>, Seq<u8>)>,
>
    decreases body.len() - pos,
{
    if pos + 2 <= body.len() && body.subrange(pos, pos + 2) == dash_dash() {
        Some(Seq::empty())
    } else if pos + 2 <= body.len() && body.subrange(pos, pos + 2) == crlf() {
        match find_spec(body, crlf_crlf(), pos + 2) {
            None => None,
            Some(h) => match part_name_spec(body.subrange(pos + 2, h)) {
                None => None,
                Some(nm) => match find_spec(body, crlf() + delim, h + 4) {
                    None => None,
                    Some(c) => {
                        let content = body.subrange(h + 4, c);
                        let next = c + 2 + delim.len();
                        if pos < next <= body.len() {
                            match parse_parts_spec(body, delim, next) {
                                None => None,
                                Some(rest) => Some(seq![(nm, content)] + rest),
                            }
                        } else {
                            None
                        }
                    },
                },
            },
        }
    } else {
        None
    }
}

/// The parts of a multipart body with this boundary: the body must open with
/// the delimiter, and its parts follow as `parse_parts_spec` says.
pub open spec fn parse_multipart_spec(boundary: Seq<u8>, body: Seq<u8>) -> Option<
    Seq<(Seq<u8>, Seq<u8>)>,
> {
    let delim = dash_dash() + boundary;
    if delim.len() <= body.len() && body.subrange(0, delim.len() as int) == delim {
        parse_parts_spec(body, delim, delim.len() as int)
    } else {
        None
    }
}

/// The boundary carried by a content-type value: what follows the first
/// `boundary=` up to the next semicolon or the end, with one pair of
/// surrounding quotes stripped.
pub open spec fn boundary_of_spec(ct: Seq<u8>) -> Option<Seq<u8>> {
    match find_spec(ct, boundary_attr(), 0) {
        None => None,
        Some(i) => {
            let start = i + boundary_attr().len();
            let end = match find_spec(ct, semicolon(), start) {
                Some(e) => e,
                None => ct.len() as int,
            };
            let value = ct.subrange(start, end);
            if value.len() >= 2 && value[0] == 34u8 && value[value.len() - 1] == 34u8 {
                Some(value.subrange(1, value.len() - 1))
            } else {
                Some(value)
            }
        },
    }
}

/// Extract a part's name from its header block; exact mirror of
/// `part_name_spec`.
fn part_name(headers: &Vec<u8>) -> (r: Option<Vec<u8>>)
    ensures
        match r {
            Some(nm) => part_name_spec(headers@) == Some(nm@),
            None => part_name_spec(headers@) is None,
        },
{
    let hlen: usize = headers.len();
    let attr = name_attr_vec();
    match find(headers, &attr, 0) {
        None => None,
        Some(i) => {
            proof {
                lemma_find_spec_props(headers@, name_attr(), 0);
            }
            let start = i + attr.len();
            let q = quote_mark_vec();
            match find(headers, &q, start) {
                None => None,
                Some(j) => {
                    proof {
                        lemma_find_spec_props(headers@, quote_mark(), start as int);
                    }
                    Some(subvec(headers, start, j))
                },
            }
        },
    }
}

/// Extract the boundary from a content-type value; exact mirror of
/// `boundary_of_spec`.
pub fn boundary_of(ct: &Vec<u8>) -> (r: Option<Vec<u8>>)
    ensures
        match r {
            Some(b) => boundary_of_spec(ct@) == Some(b@),
            None => boundary_of_spec(ct@) is None,
        },
{
    let ctlen: usize = ct.len();
    let attr = boundary_attr_vec();
    match find(ct, &attr, 0) {
        None => None,
        Some(i) => {
            proof {
                lemma_find_spec_props(ct@, boundary_attr(), 0);
            }
            let start = i + attr.len();
            let semi = semicolon_vec();
            let end: usize = match find(ct, &semi, start) {
                Some(e) => {
                    proof {
                        lemma_find_spec_props(ct@, semicolon(), start as int);
                    }
                    e
                },
                None => ctlen,
            };
            let value = subvec(ct, start, end);
            if value.len() >= 2 && value[0] == 34u8 && value[value.len() - 1] == 34u8 {
                Some(subvec(&value, 1, value.len() - 1))
            } else {
                Some(value)
            }
        },
    }
}

/// Parse the parts from position `pos`, right after a delimiter; exact
/// mirror of `parse_parts_spec`.
fn parse_parts(body: &Vec<u8>, delim: &Vec<u8>, pos: usize) -> (r: Option<Vec<Part>>)
    requires
        pos <= body@.len(),
    ensures
        match r {
            Some(parts) => parse_parts_spec(body@, delim@, pos as int) == Some(
                parts_view(parts@),
            ),
            None => parse_parts_spec(body@, delim@, pos as int) is None,
        },
    decreases body@.len() - pos,
{
    let blen: usize = body.len();
    if blen - pos < 2 {
        return None;
    }
    let dd = dash_dash_vec();
    if is_match(body, &dd, pos) {
        let out: Vec<Part> = Vec::new();
        proof {
            assert(parts_view(out@) =~= Seq::<(Seq<u8>, Seq<u8>)>::empty());
        }
        return Some(out);
    }
    let cr = crlf_vec();
    if !is_match(body, &cr, pos) {
        return None;
    }
    let cc = crlf_crlf_vec();
    match find(body, &cc, pos + 2) {
        None => None,
        Some(h) => {
            proof {
                lemma_find_spec_props(body@, crlf_crlf(), pos + 2);
            }
            let headers = subvec(body, pos + 2, h);
            match part_name(&headers) {
                None => None,
                Some(nm) => {
                    let pat = concat_bytes(&cr, delim);
                    match find(body, &pat, h + 4) {
                        None => None,
                        Some(c) => {
                            proof {
                                lemma_find_spec_props(body@, crlf() + delim@, h + 4);
                            }
                            let content = subvec(body, h + 4, c);
                            let next = c + 2 + delim.len();
                            match parse_parts(body, delim, next) {
                                None => None,
                                Some(mut rest) => {
                                    let ghost rest_snap = rest@;
                                    rest.insert(0, Part { name: nm, content });
                                    proof {
                                        assert(parts_view(rest@) =~= seq![
                                            (nm@, content@),
                                        ] + parts_view(rest_snap));
                                    }
                                    Some(rest)
                                },
                            }
                        },
                    }
                },
            }
        },
    }
}

/// Parse a multipart body with this boundary into its parts; exact mirror of
/// `parse_multipart_spec`.
pub fn parse_multipart(boundary: &Vec<u8>, body: &Vec<u8>) -> (r: Option<Vec<Part>>)
    ensures
        match r {
            Some(parts) => parse_multipart_spec(boundary@, body@) == Some(parts_view(parts@)),
            None => parse_multipart_spec(boundary@, body@) is None,
        },
{
    let dd = dash_dash_vec();
    let delim = concat_bytes(&dd, boundary);
    if !starts_with(body, &delim) {
        return None;
    }
    parse_parts(body, &delim, delim.len())
}

} // verus!
