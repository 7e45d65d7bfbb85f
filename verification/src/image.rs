//! Image reference resolution: composing the fully qualified image name
//! from the edition flag and a version string.

use vstd::prelude::*;
use crate::errors::Error;

verus! {

/// The repository base name shared by both editions.
pub open spec fn base_name() -> Seq<char> {
    "grafana/grafana"@
}

/// The fully qualified image reference: repository, an edition marker for
/// the enterprise edition, then `:` and the version as the tag.
///
/// An empty version yields a reference ending in `:`; callers that pull
/// must substitute a concrete default version upstream, while matching
/// treats the empty version as "match any" and never pulls it.
pub open spec fn image_spec(enterprise: bool, version: Seq<char>) -> Seq<char> {
    (if enterprise {
        base_name() + "-enterprise"@
    } else {
        base_name()
    }) + ":"@ + version
}

/// Builds the image reference string for an edition and version.
pub fn get_image(enterprise: bool, version: &str) -> (image: String)
    ensures
        image@ == image_spec(enterprise, version@),
{
    let mut image = String::from_str("grafana/grafana");
    if enterprise {
        image.append("-enterprise");
    }
    image.append(":");
    image.append(version);
    image
}

/// Interprets the runtime's answer to the enterprise-image tag query:
/// the known tags, or a recoverable query error. Callers tolerate the
/// error by falling back to no tag suggestions.
pub fn get_image_tags(response: Result<Vec<String>, String>) -> (r: Result<Vec<String>, Error>)
    ensures
        response matches Ok(tags) ==> (r matches Ok(t) && t@ == tags@),
        response matches Err(m) ==> (r matches Err(e) && e matches Error::RuntimeQueryError {
            message,
        } && message@ == m@),
{
    match response {
        Ok(tags) => Ok(tags),
        Err(m) => Err(Error::RuntimeQueryError { message: m }),
    }
}

/// Image resolution is injective: distinct (edition, version) inputs with
/// non-empty versions always yield distinct image references. Determinism
/// is immediate, since the reference is a function of the two inputs.
pub proof fn lemma_get_image_injective(e1: bool, v1: Seq<char>, e2: bool, v2: Seq<char>)
    requires
        v1.len() > 0,
        v2.len() > 0,
        image_spec(e1, v1) == image_spec(e2, v2),
    ensures
        e1 == e2,
        v1 == v2,
{
    reveal_strlit("grafana/grafana");
    reveal_strlit("-enterprise");
    reveal_strlit(":");
    if e1 != e2 {
        let s = image_spec(e1, v1);
        assert(s[15] == ':' || s[15] == '-');
        if e1 {
            assert(image_spec(e1, v1)[15] == '-');
            assert(image_spec(e2, v2)[15] == ':');
        } else {
            assert(image_spec(e1, v1)[15] == ':');
            assert(image_spec(e2, v2)[15] == '-');
        }
        assert(false);
    }
    let prefix_len = if e1 { 27int } else { 16int };
    assert(image_spec(e1, v1).len() == prefix_len + v1.len());
    assert(image_spec(e2, v2).len() == prefix_len + v2.len());
    assert forall|i: int| 0 <= i < v1.len() implies v1[i] == v2[i] by {
        assert(image_spec(e1, v1)[prefix_len + i] == v1[i]);
        assert(image_spec(e2, v2)[prefix_len + i] == v2[i]);
    }
    assert(v1 =~= v2);
}

} // verus!
