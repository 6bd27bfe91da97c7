//! Rewriting of artifact locators before retrieval.
//!
//! Some artifact hosts hand out a "sharing" URL whose download flag is turned
//! off; retrieving it yields an interstitial page instead of the payload. The
//! rewrite turns such a locator into a direct-download one: a trailing
//! `dl=0` flag is switched on, a remote locator without any download flag
//! gets one appended, and everything else — already-direct URLs and
//! filesystem paths — passes through unchanged. The transform is pure and
//! idempotent.

use vstd::prelude::*;

use crate::artifact::ArtifactKind;
use crate::text::occurs_at;
use crate::text::occurs_in;
use crate::text::prefix_of;
use crate::text::str_contains;
use crate::text::str_has_prefix;
use crate::text::str_has_suffix;
use crate::text::suffix_of;

verus! {

/// The locator names a remote resource rather than a filesystem path.
pub open spec fn is_remote(s: Seq<char>) -> bool {
    prefix_of("http://"@, s) || prefix_of("https://"@, s)
}

/// The rewritten, direct form of a locator.
pub open spec fn rewrite_spec(s: Seq<char>) -> Seq<char> {
    if suffix_of("dl=0"@, s) {
        s.subrange(0, s.len() - "dl=0"@.len()) + "dl=1"@
    } else if is_remote(s) && !occurs_in(s, "dl=1"@) {
        s + "?dl=1"@
    } else {
        s
    }
}

/// Rewrites a locator into its direct-download form.
pub fn rewrite_locator(s: &str) -> (r: String)
    ensures
        r@ == rewrite_spec(s@),
{
    if str_has_suffix(s, "dl=0") {
        let n: usize = s.unicode_len();
        let m: usize = "dl=0".unicode_len();
        let mut r = String::from_str(s.substring_char(0, n - m));
        r.append("dl=1");
        r
    } else if (str_has_prefix(s, "http://") || str_has_prefix(s, "https://")) && !str_contains(
        s,
        "dl=1",
    ) {
        let mut r = String::from_str(s);
        r.append("?dl=1");
        r
    } else {
        String::from_str(s)
    }
}

/// A locator that names a compressed bundle by its extension is fetched as
/// one; anything else is taken for a raw executable.
pub open spec fn locator_kind_spec(s: Seq<char>) -> ArtifactKind {
    if suffix_of(".zip"@, s) {
        ArtifactKind::CompressedBundle
    } else {
        ArtifactKind::RawExecutable
    }
}

/// Decides what kind of payload a locator points at.
pub fn classify_locator(s: &str) -> (k: ArtifactKind)
    ensures
        k == locator_kind_spec(s@),
{
    if str_has_suffix(s, ".zip") {
        ArtifactKind::CompressedBundle
    } else {
        ArtifactKind::RawExecutable
    }
}

/// Rewriting is idempotent: a second rewrite returns the first one's result
/// unchanged, so an already-rewritten locator is already direct.
pub proof fn lemma_rewrite_idempotent(s: Seq<char>)
    ensures
        rewrite_spec(rewrite_spec(s)) == rewrite_spec(s),
{
    reveal_strlit("dl=0");
    reveal_strlit("dl=1");
    reveal_strlit("?dl=1");
    let r = rewrite_spec(s);
    if suffix_of("dl=0"@, s) {
        assert(r == s.subrange(0, s.len() - 4) + "dl=1"@);
        assert(r.subrange(r.len() - 4, r.len() as int) =~= "dl=1"@);
        assert(!suffix_of("dl=0"@, r)) by {
            if suffix_of("dl=0"@, r) {
                assert(r.subrange(r.len() - 4, r.len() as int)[3] == '0');
                assert(r.subrange(r.len() - 4, r.len() as int)[3] == '1');
            }
        }
        assert(occurs_at(r, "dl=1"@, r.len() - 4));
    } else if is_remote(s) && !occurs_in(s, "dl=1"@) {
        assert(r == s + "?dl=1"@);
        assert(!suffix_of("dl=0"@, r)) by {
            if suffix_of("dl=0"@, r) {
                assert(r.subrange(r.len() - 4, r.len() as int)[3] == '0');
                assert(r[r.len() - 1] == '0');
                assert(r[r.len() - 1] == "?dl=1"@[4]);
            }
        }
        assert(occurs_at(r, "dl=1"@, s.len() as int + 1)) by {
            assert(r.subrange(s.len() as int + 1, s.len() as int + 5) =~= "dl=1"@);
        }
    } else {
        assert(r == s);
    }
}

/// An already-direct locator passes through unchanged: one that does not end
/// in a turned-off download flag, and that either is no remote URL at all or
/// already carries the download flag.
pub proof fn lemma_direct_unchanged(s: Seq<char>)
    requires
        !suffix_of("dl=0"@, s),
        !is_remote(s) || occurs_in(s, "dl=1"@),
    ensures
        rewrite_spec(s) == s,
{
}

} // verus!
