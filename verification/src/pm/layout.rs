//! Store layout: where objects and files live under the store root.
//!
//! Objects are bucketed by the first two and the next two bytes of their
//! hash: `<root>/ab/cd/abcd…-name` and `<root>/files/ab/cd/abcd…`.
use crate::text::{is_suffix, join, owned, path_join, push_str};
use vstd::prelude::*;
use vstd::string::StringSliceAdditionalSpecFns;
use vstd::utf8::{decode_utf8, encode_utf8, is_ascii_chars, is_char_boundary, valid_utf8};

verus! {

broadcast use vstd::utf8::group_utf8_lib;

/// The hash can be cut into two-byte buckets: bytes 2 and 4 fall on
/// character boundaries (so the hash is at least 4 bytes long).
pub open spec fn bucketable(hash: Seq<char>) -> bool {
    is_char_boundary(encode_utf8(hash), 2) && is_char_boundary(encode_utf8(hash), 4)
}

/// First bucket: the text of the hash's first two bytes.
pub open spec fn bucket1(hash: Seq<char>) -> Seq<char> {
    decode_utf8(encode_utf8(hash).subrange(0, 2))
}

/// Second bucket: the text of the hash's bytes 2 and 3.
pub open spec fn bucket2(hash: Seq<char>) -> Seq<char> {
    decode_utf8(encode_utf8(hash).subrange(2, 4))
}

/// Path of a package object.
pub open spec fn object_path_spec(root: Seq<char>, hash: Seq<char>, name: Seq<char>) -> Seq<char> {
    path_join(
        path_join(path_join(root, bucket1(hash)), bucket2(hash)),
        hash + "-"@ + name,
    )
}

/// Path of a stored file.
pub open spec fn file_path_spec(root: Seq<char>, hash: Seq<char>) -> Seq<char> {
    path_join(path_join(path_join(path_join(root, "files"@), bucket1(hash)), bucket2(hash)), hash)
}

/// Text of at least four ASCII characters, such as a content address, can
/// be cut into buckets.
pub proof fn lemma_ascii_bucketable(h: Seq<char>)
    requires
        h.len() >= 4,
        is_ascii_chars(h),
    ensures
        bucketable(h),
{
    let b = encode_utf8(h);
    vstd::utf8::is_ascii_chars_encode_utf8(h);
    assert(valid_utf8(b));
    assert(b[2] == h[2] as u8);
    assert('\0' <= h[2] <= '\u{7f}');
    assert(b[2] < 0x80);
    if h.len() > 4 {
        assert(b[4] == h[4] as u8);
        assert('\0' <= h[4] <= '\u{7f}');
        assert(b[4] < 0x80);
        vstd::utf8::is_char_boundary_iff_not_is_continuation_byte(b, 4);
    } else {
        vstd::utf8::is_char_boundary_start_end_of_seq(b);
    }
    vstd::utf8::is_char_boundary_iff_not_is_continuation_byte(b, 2);
}

/// A joined path ends with a relative component.
pub proof fn lemma_join_ends_with(base: Seq<char>, comp: Seq<char>)
    requires
        comp.len() > 0,
        comp[0] != '/',
    ensures
        is_suffix(comp, path_join(base, comp)),
{
    let p = path_join(base, comp);
    assert(p.skip(p.len() - comp.len()) =~= comp);
}

/// A stored file's path ends with its hash.
pub proof fn law_file_path_ends_with_hash(root: Seq<char>, hash: Seq<char>)
    requires
        hash.len() > 0,
        hash[0] != '/',
    ensures
        is_suffix(hash, file_path_spec(root, hash)),
{
    lemma_join_ends_with(
        path_join(path_join(path_join(root, "files"@), bucket1(hash)), bucket2(hash)),
        hash,
    );
}

/// Different hashes of one length (content addresses are 64 hex digits)
/// are stored at different paths.
pub proof fn law_file_paths_distinct(root: Seq<char>, h1: Seq<char>, h2: Seq<char>)
    requires
        h1.len() == h2.len(),
        h1.len() > 0,
        h1[0] != '/',
        h2[0] != '/',
        h1 != h2,
    ensures
        file_path_spec(root, h1) != file_path_spec(root, h2),
{
    law_file_path_ends_with_hash(root, h1);
    law_file_path_ends_with_hash(root, h2);
}

/// A package object's path ends with `<hash>-<name>`.
pub proof fn law_object_path_ends_with_hash_and_name(root: Seq<char>, hash: Seq<char>, name: Seq<char>)
    requires
        hash.len() > 0,
        hash[0] != '/',
    ensures
        is_suffix(hash + "-"@ + name, object_path_spec(root, hash, name)),
{
    let leaf = hash + "-"@ + name;
    assert(leaf[0] == hash[0]);
    lemma_join_ends_with(
        path_join(path_join(root, bucket1(hash)), bucket2(hash)),
        leaf,
    );
}

/// The store layout under a root directory.
pub struct StoreLayout {
    root: String,
}

/// Splits a hash into its two buckets.
fn buckets(hash: &str) -> (r: (&str, &str))
    requires
        bucketable(hash@),
    ensures
        r.0@ == bucket1(hash@),
        r.1@ == bucket2(hash@),
{
    let ghost b = hash.spec_bytes();
    proof {
        assert(valid_utf8(b));
        vstd::utf8::is_char_boundary_iff_not_is_continuation_byte(b, 2);
    }
    let (first4, _rest) = hash.split_at(4);
    let ghost f = first4.spec_bytes();
    proof {
        assert(f =~= b.subrange(0, 4));
        vstd::utf8::valid_utf8_split(b, 4);
        vstd::utf8::is_char_boundary_iff_not_is_continuation_byte(f, 2);
        assert(f[2] == b[2]);
    }
    let (p1, p2) = first4.split_at(2);
    proof {
        assert(p1.spec_bytes() =~= b.subrange(0, 2));
        assert(p2.spec_bytes() =~= b.subrange(2, 4));
        vstd::utf8::encode_utf8_decode_utf8(p1@);
        vstd::utf8::encode_utf8_decode_utf8(p2@);
    }
    (p1, p2)
}

impl StoreLayout {
    /// The store root.
    pub closed spec fn root_view(&self) -> Seq<char> {
        self.root@
    }

    /// A layout rooted at `root`.
    pub fn new(root: String) -> (r: Self)
        ensures
            r.root_view() == root@,
    {
        StoreLayout { root }
    }

    /// Path of a package object: `<root>/ab/cd/<hash>-<name>`.
    pub fn object_path(&self, hash: &str, name: &str) -> (r: String)
        requires
            bucketable(hash@),
        ensures
            r@ == object_path_spec(self.root_view(), hash@, name@),
    {
        let (p1, p2) = buckets(hash);
        let b = join(self.root.as_str(), p1);
        let c = join(b.as_str(), p2);
        let mut leaf = owned(hash);
        push_str(&mut leaf, "-");
        push_str(&mut leaf, name);
        join(c.as_str(), leaf.as_str())
    }

    /// Path of a stored file: `<root>/files/ab/cd/<hash>`.
    pub fn file_path(&self, hash: &str) -> (r: String)
        requires
            bucketable(hash@),
        ensures
            r@ == file_path_spec(self.root_view(), hash@),
    {
        let (p1, p2) = buckets(hash);
        let a = join(self.root.as_str(), "files");
        let b = join(a.as_str(), p1);
        let c = join(b.as_str(), p2);
        join(c.as_str(), hash)
    }
}

} // verus!
