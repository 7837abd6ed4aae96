//! File names and paths of model files, read as bytes.

use vstd::prelude::*;
use vstd::string::StringSliceAdditionalSpecFns;
use vstd::utf8::{encode_utf8, is_char_boundary};

verus! {

/// The directory that holds every asset; catalogue paths start below it.
pub const ASSET_DIR: &'static str = "assets/";

/// Whether `needle` stands in `hay` at offset `i`.
pub open spec fn occurs_at(hay: Seq<u8>, needle: Seq<u8>, i: int) -> bool {
    &&& 0 <= i
    &&& i + needle.len() <= hay.len()
    &&& hay.subrange(i, i + needle.len()) == needle
}

/// Whether `i` is the least offset at which `needle` stands in `hay`.
pub open spec fn first_occurrence(hay: Seq<u8>, needle: Seq<u8>, i: int) -> bool {
    &&& occurs_at(hay, needle, i)
    &&& forall|j: int| 0 <= j < i ==> !occurs_at(hay, needle, j)
}

/// Whether `hay` ends in `needle`.
pub open spec fn ends_with(hay: Seq<u8>, needle: Seq<u8>) -> bool {
    occurs_at(hay, needle, hay.len() - needle.len())
}

/// The root that is looked for in a path: `root` without a leading `./`.
pub open spec fn sought(root: Seq<u8>) -> Seq<u8> {
    if occurs_at(root, "./".spec_bytes(), 0) {
        root.skip("./".spec_bytes().len() as int)
    } else {
        root
    }
}

/// Whether `needle`, from its byte `skip` on, stands in `hay` at offset `at`.
pub(crate) fn stands_at(hay: &[u8], needle: &[u8], skip: usize, at: usize) -> (r: bool)
    requires
        skip <= needle@.len(),
    ensures
        r == occurs_at(hay@, needle@.skip(skip as int), at as int),
{
    let n = needle.len() - skip;
    if at > hay.len() || hay.len() - at < n {
        return false;
    }
    let ghost want = needle@.skip(skip as int);
    let mut k: usize = 0;
    while k < n
        invariant
            0 <= k <= n,
            n == needle@.len() - skip,
            at + n <= hay@.len() <= usize::MAX,
            needle@.len() <= usize::MAX,
            want == needle@.skip(skip as int),
            hay@.subrange(at as int, at + k) == want.take(k as int),
        decreases n - k,
    {
        if hay[at + k] != needle[skip + k] {
            proof {
                let got = hay@.subrange(at as int, at + n);
                assert(got[k as int] != want[k as int]);
            }
            return false;
        }
        proof {
            assert(hay@.subrange(at as int, at + k + 1) =~= hay@.subrange(at as int, at + k).push(
                hay@[at + k],
            ));
        }
        k += 1;
    }
    proof {
        assert(want.take(n as int) =~= want);
    }
    true
}

/// The least offset at which `needle`, from its byte `skip` on, stands in
/// `hay`.
fn find_from(hay: &[u8], needle: &[u8], skip: usize) -> (r: Option<usize>)
    requires
        skip <= needle@.len(),
    ensures
        r matches Some(i) ==> first_occurrence(hay@, needle@.skip(skip as int), i as int),
        r is None ==> forall|j: int| !occurs_at(hay@, needle@.skip(skip as int), j),
{
    let mut at: usize = 0;
    loop
        invariant
            0 <= at <= hay@.len(),
            skip <= needle@.len(),
            forall|j: int| 0 <= j < at ==> !occurs_at(hay@, needle@.skip(skip as int), j),
        decreases hay@.len() - at,
    {
        if stands_at(hay, needle, skip, at) {
            return Some(at);
        }
        if at == hay.len() {
            return None;
        }
        at += 1;
    }
}

/// Whether `name` is the name of a model file: it ends in `.gltf` or `.glb`.
pub fn is_model_file(name: &str) -> (r: bool)
    ensures
        r == (ends_with(name.spec_bytes(), ".gltf".spec_bytes()) || ends_with(
            name.spec_bytes(),
            ".glb".spec_bytes(),
        )),
{
    let bytes = name.as_bytes();
    let long = ".gltf".as_bytes();
    let short = ".glb".as_bytes();
    let ends_long = bytes.len() >= long.len() && stands_at(
        bytes,
        long,
        0,
        bytes.len() - long.len(),
    );
    let ends_short = bytes.len() >= short.len() && stands_at(
        bytes,
        short,
        0,
        bytes.len() - short.len(),
    );
    proof {
        assert(long@.skip(0) =~= long@);
        assert(short@.skip(0) =~= short@);
    }
    ends_long || ends_short
}

/// The path of a file below the asset directory.
///
/// `relative_root`, without a leading `./`, is looked for in `path`. Where it
/// first stands, the asset directory's name is taken to stand too, and the
/// result is what follows that name. There is no result where the root does
/// not occur in the path, or where the path cannot be cut that far in.
pub fn get_relative_path(path: &str, relative_root: &str) -> (r: Option<String>)
    ensures
        r is Some <==> exists|i: int|
            first_occurrence(path.spec_bytes(), sought(relative_root.spec_bytes()), i)
                && is_char_boundary(path.spec_bytes(), i + ASSET_DIR.spec_bytes().len()),
        r matches Some(tail) ==> forall|i: int|
            first_occurrence(path.spec_bytes(), sought(relative_root.spec_bytes()), i)
                ==> encode_utf8(tail@) == path.spec_bytes().skip(
                i + ASSET_DIR.spec_bytes().len(),
            ),
{
    let hay = path.as_bytes();
    let root = relative_root.as_bytes();
    let dot_slash = "./".as_bytes();
    let skip = if stands_at(root, dot_slash, 0, 0) {
        dot_slash.len()
    } else {
        0
    };
    proof {
        assert(dot_slash@.skip(0) =~= dot_slash@);
        assert(sought(relative_root.spec_bytes()) == root@.skip(skip as int));
        vstd::utf8::encode_utf8_valid_utf8(path@);
    }
    match find_from(hay, root, skip) {
        None => None,
        Some(i) => {
            let prefix = ASSET_DIR.as_bytes().len();
            if hay.len() < prefix || i > hay.len() - prefix {
                return None;
            }
            let cut = i + prefix;
            if !path.is_char_boundary(cut) {
                return None;
            }
            let (_, tail) = path.split_at(cut);
            Some(tail.to_owned())
        },
    }
}

} // verus!
