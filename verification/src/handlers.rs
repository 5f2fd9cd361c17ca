//! The upload handler and the laws of the store.
//!
//! An upload consumes the parsed parts of a multipart body: each part named
//! `file` is written whole to the storage under the target name, so the last
//! such part's content is what remains; every other part is ignored, and a
//! body with no part named `file` completes without touching the storage.

use vstd::prelude::*;
use crate::multipart::Part;
use crate::multipart::parts_view;
use crate::storage::Storage;
use crate::storage::wrote;
use crate::storage::removed;
use crate::storage::storage_same;
use crate::msgs::file_part_name;
use crate::msgs::file_part_name_vec;
use crate::bytes_util::bytes_eq;

verus! {

/// The content of the last part named `file`, if any part is so named.
pub open spec fn last_file_content(parts: Seq<(Seq<u8>, Seq<u8>)>) -> Option<Seq<u8>>
    decreases parts.len(),
{
    if parts.len() == 0 {
        None
    } else if parts.last().0 == file_part_name() {
        Some(parts.last().1)
    } else {
        last_file_content(parts.drop_last())
    }
}

/// What one upload does to the storage: with a part named `file`, the last
/// such part's content is stored whole under the target name; with none, the
/// storage is untouched.
pub open spec fn uploaded(
    pre: Storage,
    post: Storage,
    name: Seq<u8>,
    parts: Seq<(Seq<u8>, Seq<u8>)>,
) -> bool {
    match last_file_content(parts) {
        Some(c) => wrote(pre, post, name, c),
        None => storage_same(post, pre),
    }
}

/// A write on top of an unchanged storage is a write from the start.
proof fn lemma_wrote_after_same(a: Storage, b: Storage, p: Storage, n: Seq<u8>, c: Seq<u8>)
    requires
        storage_same(b, a),
        wrote(b, p, n, c),
    ensures
        wrote(a, p, n, c),
{
}

/// A second write under the same name supersedes the first.
proof fn lemma_wrote_then_wrote(
    a: Storage,
    b: Storage,
    p: Storage,
    n: Seq<u8>,
    c1: Seq<u8>,
    c2: Seq<u8>,
)
    requires
        wrote(a, b, n, c1),
        wrote(b, p, n, c2),
    ensures
        wrote(a, p, n, c2),
{
}

/// Write each part named `file` to the storage under the target name; ignore
/// every other part.
pub fn upload_handler(s: &mut Storage, name: &Vec<u8>, parts: &Vec<Part>)
    requires
        old(s).wf(),
    ensures
        final(s).wf(),
        uploaded(*old(s), *final(s), name@, parts_view(parts@)),
{
    let fp = file_part_name_vec();
    let mut k: usize = 0;
    while k < parts.len()
        invariant
            old(s).wf(),
            s.wf(),
            fp@ == file_part_name(),
            k <= parts@.len(),
            uploaded(*old(s), *s, name@, parts_view(parts@.subrange(0, k as int))),
        decreases parts@.len() - k,
    {
        let ghost pk = parts_view(parts@.subrange(0, k as int));
        let ghost pk1 = parts_view(parts@.subrange(0, k + 1));
        proof {
            assert(pk1.drop_last() =~= pk);
            assert(pk1.last() == parts@[k as int]@);
        }
        if bytes_eq(&parts[k].name, &fp) {
            let ghost before = *s;
            s.write(name, &parts[k].content);
            proof {
                assert(last_file_content(pk1) == Some(parts@[k as int].content@));
                match last_file_content(pk) {
                    Some(c) => {
                        lemma_wrote_then_wrote(
                            *old(s),
                            before,
                            *s,
                            name@,
                            c,
                            parts@[k as int].content@,
                        );
                    },
                    None => {
                        lemma_wrote_after_same(
                            *old(s),
                            before,
                            *s,
                            name@,
                            parts@[k as int].content@,
                        );
                    },
                }
            }
        } else {
            proof {
                assert(parts@[k as int].name@ != file_part_name());
                assert(last_file_content(pk1) == last_file_content(pk));
            }
        }
        k += 1;
    }
    proof {
        assert(parts@.subrange(0, parts@.len() as int) =~= parts@);
    }
}

/// Law: after an upload whose body has a part named `file`, a listing
/// includes the uploaded name.
pub proof fn lemma_upload_then_list_includes(
    pre: Storage,
    post: Storage,
    name: Seq<u8>,
    parts: Seq<(Seq<u8>, Seq<u8>)>,
)
    requires
        uploaded(pre, post, name, parts),
        last_file_content(parts) is Some,
    ensures
        post.names().contains(name),
{
}

/// Law: uploading under a name and then uploading again under the same name
/// leaves only the later upload's content — whole-file replace, not append.
pub proof fn lemma_reupload_replaces(
    s0: Storage,
    s1: Storage,
    s2: Storage,
    name: Seq<u8>,
    parts1: Seq<(Seq<u8>, Seq<u8>)>,
    parts2: Seq<(Seq<u8>, Seq<u8>)>,
)
    requires
        uploaded(s0, s1, name, parts1),
        uploaded(s1, s2, name, parts2),
        last_file_content(parts2) is Some,
    ensures
        s2.content_of(name) == last_file_content(parts2).unwrap(),
{
}

/// Law: after deleting a name, a listing omits it.
pub proof fn lemma_delete_then_list_omits(pre: Storage, post: Storage, name: Seq<u8>)
    requires
        removed(pre, post, name),
    ensures
        !post.names().contains(name),
{
}

/// No part is named `file`: then no part's content is taken.
proof fn lemma_no_file_part(parts: Seq<(Seq<u8>, Seq<u8>)>)
    requires
        forall|i: int| 0 <= i < parts.len() ==> parts[i].0 != file_part_name(),
    ensures
        last_file_content(parts) is None,
    decreases parts.len(),
{
    if parts.len() > 0 {
        assert(parts.last().0 != file_part_name());
        assert(forall|i: int|
            0 <= i < parts.drop_last().len() ==> parts.drop_last()[i] == parts[i]);
        lemma_no_file_part(parts.drop_last());
    }
}

/// Law: an upload none of whose parts is named `file` completes without
/// creating or changing any stored file.
pub proof fn lemma_upload_without_file_part(
    pre: Storage,
    post: Storage,
    name: Seq<u8>,
    parts: Seq<(Seq<u8>, Seq<u8>)>,
)
    requires
        uploaded(pre, post, name, parts),
        forall|i: int| 0 <= i < parts.len() ==> parts[i].0 != file_part_name(),
    ensures
        storage_same(post, pre),
{
    lemma_no_file_part(parts);
}

} // verus!
