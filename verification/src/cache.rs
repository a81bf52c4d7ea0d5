use vstd::prelude::*;
use vstd::string::StringExecFns;

verus! {

/// Name of a side file stored beside an output image: the image path with
/// the given suffix appended.  The metadata file gets `.json`, the raw
/// field dump `.bin`.
pub fn side_file_path(output: &str, suffix: &str) -> (r: String)
    ensures
        r@ == output@ + suffix@,
{
    let s: String = output.to_owned();
    s.concat(suffix)
}

/// The side effects one call of the renderer will perform, decided up front
/// from the cached metadata and the presentation flags.  The surrounding
/// program carries the plan out in this order: announce, compute, write the
/// raw field, write the image, store the metadata.
#[derive(Clone, Copy, Debug, PartialEq, Eq, Structural)]
pub struct RenderPlan {
    /// The stored configuration matches: leave every file untouched.
    pub skip: bool,
    /// Report the cache hit on the console.
    pub announce_existing: bool,
    /// Run the kernel and produce the field.
    pub compute: bool,
    /// Dump the raw field beside the image.
    pub write_raw: bool,
    /// Encode and write the image, then store the metadata beside it.
    pub write_image: bool,
}

/// What the stored bytes must be for a render to be skipped: exactly the
/// encoding of the current configuration, byte for byte.
pub open spec fn cache_hit(prior: Option<Seq<u8>>, encoded: Seq<u8>) -> bool {
    prior == Some(encoded)
}

/// The stored bytes as this module's contracts see them.
pub open spec fn stored_bytes(prior: Option<Vec<u8>>) -> Option<Seq<u8>> {
    match prior {
        Some(p) => Some(p@),
        None => None,
    }
}

/// Byte-for-byte equality of two buffers.
fn bytes_eq(a: &Vec<u8>, b: &Vec<u8>) -> (r: bool)
    ensures
        r == (a@ == b@),
{
    if a.len() != b.len() {
        assert(a@ != b@);
        return false;
    }
    let n = a.len();
    let mut i: usize = 0;
    while i < n
        invariant
            n == a.len() == b.len(),
            i <= n,
            forall|j: int| 0 <= j < i ==> a@[j] == b@[j],
        decreases n - i,
    {
        if a[i] != b[i] {
            assert(a@ != b@);
            return false;
        }
        i = i + 1;
    }
    assert(a@ =~= b@);
    true
}

/// Compares the previously stored configuration encoding, if any, with the
/// current one.
fn bytes_match(prior: &Option<Vec<u8>>, encoded: &Vec<u8>) -> (r: bool)
    ensures
        r == cache_hit(stored_bytes(*prior), encoded@),
{
    match prior {
        None => false,
        Some(p) => bytes_eq(p, encoded),
    }
}

/// Decides a render from the cached metadata.  `prior` holds the bytes of the
/// metadata file stored beside the image, if one could be read; `encoded` is
/// the encoding of the current configuration; `write_raw` and `quiet` are the
/// caller's presentation flags.
///
/// The render is skipped, and nothing is computed or written, exactly when
/// the stored bytes equal the current encoding; otherwise the field is
/// computed, the image and metadata are written, and the raw dump is made
/// exactly when asked for.
pub fn plan_render(prior: &Option<Vec<u8>>, encoded: &Vec<u8>, write_raw: bool, quiet: bool) -> (r:
    RenderPlan)
    ensures
        r.skip == cache_hit(stored_bytes(*prior), encoded@),
        r.announce_existing == (r.skip && !quiet),
        r.compute == !r.skip,
        r.write_raw == (!r.skip && write_raw),
        r.write_image == !r.skip,
{
    let skip = bytes_match(prior, encoded);
    RenderPlan {
        skip,
        announce_existing: skip && !quiet,
        compute: !skip,
        write_raw: !skip && write_raw,
        write_image: !skip,
    }
}

/// Re-rendering with an unchanged configuration skips the work: once the
/// metadata beside the image holds exactly the bytes of the current
/// configuration's encoding, the cache hits, whatever those bytes are.
pub proof fn law_unchanged_config_hits(encoded: Seq<u8>)
    ensures
        cache_hit(Some(encoded), encoded),
{
}

/// A changed configuration misses the cache: the cache hits only on the exact
/// bytes, so any difference in the encoding forces a fresh render, and so
/// does a missing metadata file.
pub proof fn law_changed_config_misses(prior: Option<Seq<u8>>, encoded: Seq<u8>)
    requires
        prior != Some(encoded),
    ensures
        !cache_hit(prior, encoded),
{
}

} // verus!
