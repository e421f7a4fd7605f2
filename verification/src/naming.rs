//! Deriving the deterministic container name from an image reference.
//!
//! The name is obtained by replacing every `:` and `/` in the reference with
//! `_` and appending the fixed suffix `_container`.  The engine reports
//! container names with a leading slash, so matching against engine records
//! goes through [`slash_prefixed`].

use vstd::prelude::*;
use vstd::string::*;

verus! {

/// One character of an image reference as it appears in the derived container
/// name: the separators `:` and `/` become `_`, every other character is kept.
pub open spec fn sanitize_char(c: char) -> char {
    if c == ':' || c == '/' {
        '_'
    } else {
        c
    }
}

/// The container name derived from an image reference: every `:` and `/`
/// replaced by `_`, with the fixed suffix `_container` appended.
pub open spec fn derived_name(image: Seq<char>) -> Seq<char> {
    image.map_values(|c: char| sanitize_char(c)) + "_container"@
}

/// The form under which the engine lists a container name: a leading slash
/// followed by the name itself.
pub open spec fn slash_prefixed(name: Seq<char>) -> Seq<char> {
    "/"@ + name
}

/// Derives the container name for an image reference.
pub fn derive_container_name(image: &str) -> (name: String)
    ensures
        name@ == derived_name(image@),
{
    let n: usize = image.unicode_len();
    let mut out = String::new();
    let mut i: usize = 0;
    while i < n
        invariant
            i <= n,
            n == image@.len(),
            out@ == image@.subrange(0, i as int).map_values(|c: char| sanitize_char(c)),
        decreases n - i,
    {
        let c = image.get_char(i);
        if c == ':' || c == '/' {
            out.append("_");
            proof {
                reveal_strlit("_");
            }
        } else {
            let piece = image.substring_char(i, i + 1);
            out.append(piece);
        }
        proof {
            let prefix = image@.subrange(0, i as int).map_values(|c: char| sanitize_char(c));
            let grown = image@.subrange(0, i + 1 as int).map_values(
                |c: char| sanitize_char(c),
            );
            assert(out@ =~= grown) by {
                assert forall|j: int| 0 <= j < grown.len() implies out@[j] == grown[j] by {
                    if j < i {
                        assert(out@[j] == prefix[j]);
                    }
                }
            }
        }
        i = i + 1;
    }
    proof {
        assert(image@.subrange(0, n as int) =~= image@);
    }
    out.append("_container");
    out
}

/// Prefixes a container name with the slash under which the engine lists it.
pub fn slash_prefix(name: &str) -> (r: String)
    ensures
        r@ == slash_prefixed(name@),
{
    let mut s = String::from_str("/");
    s.append(name);
    s
}

/// Deriving a name is deterministic: equal image references give equal names.
pub proof fn lemma_derived_name_deterministic(r1: Seq<char>, r2: Seq<char>)
    requires
        r1 == r2,
    ensures
        derived_name(r1) == derived_name(r2),
{
}

/// A derived name never contains `:` or `/`: both separators are replaced by
/// `_`, and the fixed suffix is free of them.
pub proof fn lemma_derived_name_no_separators(image: Seq<char>)
    ensures
        forall|i: int|
            0 <= i < derived_name(image).len() ==> (#[trigger] derived_name(image)[i]) != ':'
                && derived_name(image)[i] != '/',
{
    reveal_strlit("_container");
    let suffix = "_container"@;
    assert forall|i: int| 0 <= i < derived_name(image).len() implies (#[trigger] derived_name(
        image,
    )[i]) != ':' && derived_name(image)[i] != '/' by {
        if i < image.len() {
            assert(derived_name(image)[i] == sanitize_char(image[i]));
        } else {
            assert(derived_name(image)[i] == suffix[i - image.len()]);
        }
    }
}

} // verus!
