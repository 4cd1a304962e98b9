//! The object cache: mapping a source file's content to the canonical path
//! of its compiled object file.
//!
//! The path is `<object_directory>/<hex fingerprint>.o`, a pure function of
//! the content and the directory alone. Existence of that file on disk is
//! the whole cache index: a changed source hashes to a different name, so a
//! stale object can never be picked up, it is merely orphaned.

use vstd::prelude::*;
use vstd::string::StringExecFns;

use crate::fingerprint::fingerprint;
use crate::fingerprint::hex_of;
use crate::fingerprint::hex_string;
use crate::fingerprint::lemma_hex_of_injective;
use crate::fingerprint::xxh3_of;
use crate::text::join_path;
use crate::text::spec_join_path;

verus! {

/// The canonical object path for a source with the given content, under the
/// given object directory.
pub open spec fn object_path_spec(content: Seq<u8>, object_directory: Seq<char>) -> Seq<char> {
    object_directory + "/"@ + hex_of(xxh3_of(content)) + ".o"@
}

/// Map a source file's content to its object file path: the content's
/// fingerprint in hexadecimal, with the object suffix, under the object
/// directory.
pub fn resolve_object(content: &[u8], object_directory: &str) -> (r: String)
    ensures
        r@ == object_path_spec(content@, object_directory@),
{
    let hash = fingerprint(content);
    let mut name = hex_string(hash);
    name.append(".o");
    let r = join_path(object_directory, name.as_str());
    proof {
        assert(r@ =~= object_path_spec(content@, object_directory@));
    }
    r
}

/// The object paths for a list of source contents, in order.
pub fn objects_for(contents: &Vec<Vec<u8>>, object_directory: &str) -> (r: Vec<String>)
    ensures
        r.len() == contents.len(),
        forall|i: int|
            0 <= i < contents@.len() ==> r@[i]@ == object_path_spec(
                contents@[i]@,
                object_directory@,
            ),
{
    let mut r: Vec<String> = Vec::new();
    let mut i: usize = 0;
    while i < contents.len()
        invariant
            i <= contents.len(),
            r.len() == i,
            forall|j: int|
                0 <= j < i ==> r@[j]@ == object_path_spec(contents@[j]@, object_directory@),
        decreases contents.len() - i,
    {
        r.push(resolve_object(contents[i].as_slice(), object_directory));
        i += 1;
    }
    r
}

/// The object path is a pure function of file content and object directory:
/// a source copied to any other location, with identical bytes, resolves to
/// the identical object filename.
pub proof fn lemma_resolve_object_pure(c1: Seq<u8>, c2: Seq<u8>, d1: Seq<char>, d2: Seq<char>)
    requires
        c1 == c2,
        d1 == d2,
    ensures
        object_path_spec(c1, d1) == object_path_spec(c2, d2),
{
}

/// Contents whose fingerprints differ resolve to different object paths
/// under the same directory: changing a source changes its object filename,
/// and (as no task ever removes a file) the previous object is left behind
/// untouched.
pub proof fn lemma_change_detection(b1: Seq<u8>, b2: Seq<u8>, dir: Seq<char>)
    requires
        xxh3_of(b1) != xxh3_of(b2),
    ensures
        object_path_spec(b1, dir) != object_path_spec(b2, dir),
{
    let h1 = hex_of(xxh3_of(b1));
    let h2 = hex_of(xxh3_of(b2));
    let p = dir + "/"@;
    if object_path_spec(b1, dir) == object_path_spec(b2, dir) {
        assert((p + h1 + ".o"@).len() == p.len() + h1.len() + ".o"@.len());
        assert((p + h2 + ".o"@).len() == p.len() + h2.len() + ".o"@.len());
        assert(h1.len() == h2.len());
        assert(h1 =~= h2) by {
            assert forall|i: int| 0 <= i < h1.len() implies h1[i] == h2[i] by {
                assert((p + h1 + ".o"@)[p.len() + i] == h1[i]);
                assert((p + h2 + ".o"@)[p.len() + i] == h2[i]);
            }
        }
        lemma_hex_of_injective(xxh3_of(b1), xxh3_of(b2));
        assert(false);
    }
}

} // verus!
