//! The immutable store of known-bad filenames and content digests, and the
//! two membership tests the match engine is built on.

use vstd::prelude::*;
use vstd::string::StringExecFns;

use crate::text::lower;
use crate::text::to_lower;

verus! {

/// The view of each string in a sequence of strings.
pub open spec fn views_of(ss: Seq<String>) -> Seq<Seq<char>> {
    ss.map_values(|s: String| s@)
}

/// Immutable set of known-bad filenames (matched case-insensitively) and
/// known-bad content digests (matched exactly, in canonical lowercase hex).
pub struct SignatureStore {
    pub names: Vec<String>,
    pub digests: Vec<String>,
}

impl SignatureStore {
    /// The name entries, each folded to ASCII lowercase.
    pub open spec fn names_lowered(&self) -> Seq<Seq<char>> {
        self.names@.map_values(|s: String| lower(s@))
    }

    /// The digest entries, verbatim.
    pub open spec fn digest_entries(&self) -> Seq<Seq<char>> {
        views_of(self.digests@)
    }

    /// Whether `name` equals some name entry up to ASCII case.
    pub open spec fn name_matches(&self, name: Seq<char>) -> bool {
        self.names_lowered().contains(lower(name))
    }

    /// Whether `digest` equals some digest entry exactly.
    pub open spec fn digest_matches(&self, digest: Seq<char>) -> bool {
        self.digest_entries().contains(digest)
    }

    /// Builds a store from an injected configuration: a list of bad names and
    /// a list of bad digests. The store is immutable afterwards.
    pub fn new(names: Vec<String>, digests: Vec<String>) -> (s: SignatureStore)
        ensures
            s.names == names,
            s.digests == digests,
            s.names_lowered().len() == names@.len(),
            forall|i: int| 0 <= i < names@.len() ==> s.names_lowered()[i] == lower(names@[i]@),
            s.digest_entries().len() == digests@.len(),
            forall|i: int| 0 <= i < digests@.len() ==> s.digest_entries()[i] == digests@[i]@,
    {
        SignatureStore { names, digests }
    }

    /// Case-insensitive membership in the name set.
    pub fn contains_name(&self, name: &str) -> (r: bool)
        ensures
            r == self.name_matches(name@),
    {
        let key = to_lower(name);
        let n = self.names.len();
        let mut i: usize = 0;
        while i < n
            invariant
                i <= n,
                n == self.names@.len(),
                key@ == lower(name@),
                forall|j: int| 0 <= j < i ==> self.names_lowered()[j] != lower(name@),
            decreases n - i,
        {
            let cand = to_lower(self.names[i].as_str());
            if cand == key {
                proof {
                    assert(self.names_lowered()[i as int] == lower(name@));
                }
                return true;
            }
            i = i + 1;
        }
        proof {
            if self.name_matches(name@) {
                let j = choose|j: int| 0 <= j < self.names_lowered().len()
                    && self.names_lowered()[j] == lower(name@);
                assert(false);
            }
        }
        false
    }

    /// Exact membership in the digest set; the caller supplies the digest in
    /// the canonical lowercase-hex form.
    pub fn contains_digest(&self, digest: &str) -> (r: bool)
        ensures
            r == self.digest_matches(digest@),
    {
        let key = String::from_str(digest);
        let n = self.digests.len();
        let mut i: usize = 0;
        while i < n
            invariant
                i <= n,
                n == self.digests@.len(),
                key@ == digest@,
                forall|j: int| 0 <= j < i ==> self.digest_entries()[j] != digest@,
            decreases n - i,
        {
            if self.digests[i] == key {
                proof {
                    assert(self.digest_entries()[i as int] == digest@);
                }
                return true;
            }
            i = i + 1;
        }
        proof {
            if self.digest_matches(digest@) {
                let j = choose|j: int| 0 <= j < self.digest_entries().len()
                    && self.digest_entries()[j] == digest@;
                assert(false);
            }
        }
        false
    }
}

} // verus!
