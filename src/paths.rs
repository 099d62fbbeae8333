//! Resolution of manifest references against the base directory.
use crate::diagnostics::texts;
use vstd::prelude::*;

verus! {

/// The path that `Path::join` makes of a base directory and a reference.
pub uninterp spec fn joined_path(base: Seq<char>, rel: Seq<char>) -> Seq<char>;

/// The resolved paths of a sequence of references, in their order.
pub open spec fn resolved_paths(base: Seq<char>, refs: Seq<Seq<char>>) -> Seq<Seq<char>> {
    refs.map_values(|rel: Seq<char>| joined_path(base, rel))
}

/// Relies on `Path::join`: `rel` appended to `base`, or `rel` alone where it
/// is absolute. Both parts are UTF-8, so the lossy conversion keeps the text.
#[verifier::external_body]
fn join_path(base: &str, rel: &str) -> (r: String)
    ensures
        r@ == joined_path(base@, rel@),
{
    std::path::Path::new(base).join(rel).to_string_lossy().into_owned()
}

/// Joins the base directory with each manifest reference, keeping the order
/// of the references.
pub fn resolve_paths(base: &str, refs: &Vec<String>) -> (r: Vec<String>)
    ensures
        texts(r@) == resolved_paths(base@, texts(refs@)),
{
    let mut out: Vec<String> = Vec::new();
    let n = refs.len();
    let mut i: usize = 0;
    while i < n
        invariant
            n == refs.len(),
            i <= n,
            texts(out@) == resolved_paths(base@, texts(refs@).take(i as int)),
        decreases n - i,
    {
        let p = join_path(base, refs[i].as_str());
        let ghost before = out@;
        out.push(p);
        proof {
            assert(out@ == before.push(p));
            assert(texts(refs@).take(i + 1) =~= texts(refs@).take(i as int).push(refs@[i as int]@));
            assert(texts(out@) =~= texts(before).push(p@));
            assert(resolved_paths(base@, texts(refs@).take(i + 1)) =~= resolved_paths(
                base@,
                texts(refs@).take(i as int),
            ).push(joined_path(base@, refs@[i as int]@)));
            assert(texts(out@) =~= resolved_paths(base@, texts(refs@).take(i + 1)));
        }
        i = i + 1;
    }
    proof {
        assert(texts(refs@).take(n as int) =~= texts(refs@));
    }
    out
}

} // verus!
