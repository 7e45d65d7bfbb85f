//! Container matching: filtering the runtime's container list by exact
//! image reference, or loosely by base-name substring when no version is
//! given.

use vstd::prelude::*;
use vstd::seq_lib::group_filter_ensures;
use crate::image::{image_spec, get_image};

verus! {

/// `needle` occurs somewhere inside `haystack`.
pub open spec fn contains_seq(haystack: Seq<char>, needle: Seq<char>) -> bool {
    exists|i: int|
        0 <= i && i + needle.len() <= haystack.len() && #[trigger] haystack.subrange(
            i,
            i + needle.len(),
        ) == needle
}

/// `needle` occurs in `haystack` starting at position `at`.
fn match_at(haystack: &str, needle: &str, at: usize) -> (found: bool)
    requires
        at + needle@.len() <= haystack@.len(),
    ensures
        found == (haystack@.subrange(at as int, at + needle@.len()) == needle@),
{
    let h = haystack.unicode_len();
    let n = needle.unicode_len();
    let mut j: usize = 0;
    while j < n
        invariant
            h == haystack@.len(),
            n == needle@.len(),
            at + n <= h,
            j <= n,
            forall|k: int| 0 <= k < j ==> haystack@[at + k] == needle@[k],
        decreases n - j,
    {
        if haystack.get_char(at + j) != needle.get_char(j) {
            proof {
                let sub = haystack@.subrange(at as int, at + needle@.len());
                assert(sub[j as int] == haystack@[at + j]);
            }
            return false;
        }
        j += 1;
    }
    proof {
        assert(haystack@.subrange(at as int, at + needle@.len()) =~= needle@);
    }
    true
}

/// Substring search over the characters of two strings.
pub fn contains_str(haystack: &str, needle: &str) -> (found: bool)
    ensures
        found == contains_seq(haystack@, needle@),
{
    let h = haystack.unicode_len();
    let n = needle.unicode_len();
    if n > h {
        return false;
    }
    if n == 0 {
        proof {
            assert(haystack@.subrange(0, 0 + needle@.len() as int) =~= needle@);
        }
        return true;
    }
    let mut i: usize = 0;
    while i <= h - n
        invariant
            h == haystack@.len(),
            n == needle@.len(),
            0 < n <= h,
            i <= h - n + 1,
            forall|k: int|
                0 <= k < i ==> #[trigger] haystack@.subrange(k, k + needle@.len()) != needle@,
        decreases h - n + 1 - i,
    {
        if match_at(haystack, needle, i) {
            proof {
                assert(haystack@.subrange(i as int, i + needle@.len()) == needle@);
            }
            return true;
        }
        i += 1;
    }
    false
}

/// What the orchestrator reads of a container the runtime reported: its
/// identifier and the image reference it was created from. Descriptors
/// are re-listed on every operation and never cached.
pub struct ContainerInfo {
    pub id: String,
    pub image: String,
}

impl Clone for ContainerInfo {
    fn clone(&self) -> (other: Self)
        ensures
            other == *self,
    {
        ContainerInfo { id: self.id.clone(), image: self.image.clone() }
    }
}

/// The matcher's two behaviors, made explicit: targeted operations name
/// a version and match the resolved reference exactly; an empty version
/// deliberately widens the match to anything carrying the base name, for
/// bulk stop and reload.
#[derive(Clone, Copy, PartialEq, Eq, Structural, Debug)]
pub enum MatchMode {
    ExactImage,
    AnyWithBaseName,
}

/// Which mode a version string selects.
pub open spec fn mode_spec(version: Seq<char>) -> MatchMode {
    if version.len() == 0 {
        MatchMode::AnyWithBaseName
    } else {
        MatchMode::ExactImage
    }
}

/// Reads the match mode a version string selects.
pub fn match_mode(version: &str) -> (mode: MatchMode)
    ensures
        mode == mode_spec(version@),
{
    if version.unicode_len() == 0 {
        MatchMode::AnyWithBaseName
    } else {
        MatchMode::ExactImage
    }
}

/// The dual-mode matching rule: a container matches if its image equals
/// the resolved reference exactly, or, in the widened mode, if its image
/// merely contains the product base name as a substring.
pub open spec fn container_matches(enterprise: bool, version: Seq<char>, image: Seq<char>) -> bool {
    image == image_spec(enterprise, version) || (mode_spec(version) is AnyWithBaseName
        && contains_seq(image, "grafana"@))
}

/// The matching rule as a predicate on descriptors, for stating which
/// containers a filter keeps.
pub open spec fn match_pred(enterprise: bool, version: Seq<char>) -> spec_fn(ContainerInfo) -> bool {
    |c: ContainerInfo| container_matches(enterprise, version, c.image@)
}

/// Filters the runtime's container list down to those matching the
/// edition and version, preserving the runtime-reported order. An empty
/// result is not an error: callers treat "nothing to do" as success.
pub fn get_containers(enterprise: bool, version: &str, containers: Vec<ContainerInfo>) -> (matched:
    Vec<ContainerInfo>)
    ensures
        matched@ == containers@.filter(match_pred(enterprise, version@)),
{
    broadcast use group_filter_ensures;

    let ghost pred = match_pred(enterprise, version@);
    let image = get_image(enterprise, version);
    let mut matched: Vec<ContainerInfo> = Vec::new();
    let mut i: usize = 0;
    while i < containers.len()
        invariant
            i <= containers.len(),
            image@ == image_spec(enterprise, version@),
            matched@ == containers@.take(i as int).filter(pred),
            pred == match_pred(enterprise, version@),
        decreases containers.len() - i,
    {
        let c = &containers[i];
        let exact = image == c.image;
        let loose = if version.unicode_len() == 0 {
            contains_str(c.image.as_str(), "grafana")
        } else {
            false
        };
        proof {
            reveal(Seq::filter);
            assert(containers@.take(i + 1).drop_last() =~= containers@.take(i as int));
            assert(containers@.take(i + 1).last() == containers@[i as int]);
            assert(containers@.take(i + 1).filter(pred) == if pred(containers@[i as int]) {
                containers@.take(i as int).filter(pred).push(containers@[i as int])
            } else {
                containers@.take(i as int).filter(pred)
            });
        }
        if exact || loose {
            matched.push(c.clone());
        }
        i += 1;
    }
    proof {
        assert(containers@.take(containers@.len() as int) =~= containers@);
    }
    matched
}

/// Every element of a filtered sequence came from the sequence it was
/// filtered out of, and satisfies the predicate.
pub proof fn lemma_filter_membership(
    s: Seq<ContainerInfo>,
    pred: spec_fn(ContainerInfo) -> bool,
    c: ContainerInfo,
)
    requires
        s.filter(pred).contains(c),
    ensures
        s.contains(c),
        pred(c),
    decreases s.len(),
{
    reveal(Seq::filter);
    if s.len() > 0 {
        let sub = s.drop_last().filter(pred);
        if pred(s.last()) && c == s.last() {
            assert(s[s.len() - 1] == c);
        } else {
            assert(sub.contains(c));
            lemma_filter_membership(s.drop_last(), pred, c);
            let i = choose|i: int| 0 <= i < s.drop_last().len() && s.drop_last()[i] == c;
            assert(s[i] == c);
        }
    }
}

/// A concretely versioned match is always also a loose match: the exact
/// image reference begins with the product base name, so it contains it.
pub proof fn lemma_loose_match_superset(enterprise: bool, version: Seq<char>, image: Seq<char>)
    requires
        version.len() > 0,
        container_matches(enterprise, version, image),
    ensures
        container_matches(enterprise, ""@, image),
{
    reveal_strlit("grafana/grafana");
    reveal_strlit("-enterprise");
    reveal_strlit(":");
    reveal_strlit("grafana");
    reveal_strlit("");
    assert(image == image_spec(enterprise, version));
    let ghost n7 = "grafana"@.len() as int;
    assert(n7 == 7);
    assert forall|k: int| 0 <= k < 7 implies image[k] == "grafana"@[k] by {}
    assert(image.subrange(0, 0 + n7) =~= "grafana"@);
    assert(contains_seq(image, "grafana"@));
}

/// Loose-mode filtering never excludes a container that exact-mode
/// filtering with version "latest" includes: the containers selected by
/// `get_containers(edition, "latest", cs)` are a subset of those selected
/// by `get_containers(edition, "", cs)`.
pub proof fn lemma_get_containers_superset(
    enterprise: bool,
    containers: Seq<ContainerInfo>,
    c: ContainerInfo,
)
    requires
        containers.filter(match_pred(enterprise, "latest"@)).contains(c),
    ensures
        containers.filter(match_pred(enterprise, ""@)).contains(c),
{
    broadcast use group_filter_ensures;

    let exact = match_pred(enterprise, "latest"@);
    let loose = match_pred(enterprise, ""@);
    lemma_filter_membership(containers, exact, c);
    reveal_strlit("latest");
    lemma_loose_match_superset(enterprise, "latest"@, c.image@);
    let i = choose|i: int| 0 <= i < containers.len() && containers[i] == c;
    assert(loose(containers[i]));
    assert(containers.filter(loose).contains(containers[i]));
}

/// When no listed container matches, the selection is empty, so a stop
/// has nothing to kill and succeeds. Killing nothing leaves the runtime
/// unchanged, so a second stop over the same list selects the empty
/// sequence again: repeating the no-op is itself a no-op success.
pub proof fn lemma_stop_idempotent_when_unmatched(
    enterprise: bool,
    version: Seq<char>,
    containers: Seq<ContainerInfo>,
)
    requires
        forall|i: int|
            0 <= i < containers.len() ==> !container_matches(
                enterprise,
                version,
                (#[trigger] containers[i]).image@,
            ),
    ensures
        containers.filter(match_pred(enterprise, version)) == Seq::<ContainerInfo>::empty(),
{
    broadcast use group_filter_ensures;

    let pred = match_pred(enterprise, version);
    let out = containers.filter(pred);
    if out.len() > 0 {
        assert(out.contains(out[0]));
        lemma_filter_membership(containers, pred, out[0]);
        let i = choose|i: int| 0 <= i < containers.len() && containers[i] == out[0];
        assert(!pred(containers[i]));
        assert(false);
    }
    assert(out =~= Seq::<ContainerInfo>::empty());
}

} // verus!
