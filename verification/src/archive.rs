//! Planning the extraction of a compressed update bundle.
//!
//! The archive's entry listing is judged here; decompression itself happens
//! outside the library and follows the plan. An entry whose name is absolute,
//! empty, carries a drive marker or climbs out of the destination through a
//! parent-directory component is skipped rather than honored, so no write
//! ever escapes the destination directory. Exactly one entry is expected to
//! be the installable executable; a bundle without one is a fatal,
//! non-retryable fault.

use vstd::prelude::*;

use crate::errors::UpdateError;
use crate::text::str_has_suffix;
use crate::text::string_views;
use crate::text::suffix_of;

verus! {

/// One entry of the bundle's listing: its name as recorded in the archive,
/// and whether it is a directory entry.
#[derive(Debug, Clone)]
pub struct ArchiveEntry {
    pub name: String,
    pub is_dir: bool,
}

/// The mathematical value of an [`ArchiveEntry`].
pub struct ArchiveEntryView {
    pub name: Seq<char>,
    pub is_dir: bool,
}

impl View for ArchiveEntry {
    type V = ArchiveEntryView;

    open spec fn view(&self) -> ArchiveEntryView {
        ArchiveEntryView { name: self.name@, is_dir: self.is_dir }
    }
}

/// The values of a listing.
pub open spec fn entry_views(entries: Seq<ArchiveEntry>) -> Seq<ArchiveEntryView> {
    entries.map_values(|e: ArchiveEntry| e@)
}

/// A path separator, in either convention an archive may record.
pub open spec fn is_separator(c: char) -> bool {
    c == '/' || c == '\\'
}

/// A parent-directory component stands at position `i` of the name: two dots
/// delimited by separators or by the name's ends.
pub open spec fn dotdot_at(s: Seq<char>, i: int) -> bool {
    &&& 0 <= i && i + 2 <= s.len()
    &&& s[i] == '.' && s[i + 1] == '.'
    &&& (i == 0 || is_separator(s[i - 1]))
    &&& (i + 2 == s.len() || is_separator(s[i + 2]))
}

/// Some parent-directory component occurs in the name.
pub open spec fn has_dotdot_component(s: Seq<char>) -> bool {
    exists|i: int| dotdot_at(s, i)
}

/// The name cannot be honored as a destination-relative path: it is empty,
/// absolute, carries a drive marker, or climbs through a parent-directory
/// component.
pub open spec fn is_ambiguous_name(s: Seq<char>) -> bool {
    ||| s.len() == 0
    ||| is_separator(s[0])
    ||| s.contains(':')
    ||| has_dotdot_component(s)
}

/// The entry may be materialized under the destination directory.
pub open spec fn entry_safe(e: ArchiveEntryView) -> bool {
    !is_ambiguous_name(e.name)
}

/// The entry is the kind of file the update installs.
pub open spec fn installable(e: ArchiveEntryView) -> bool {
    !e.is_dir && entry_safe(e) && suffix_of(".exe"@, e.name)
}

/// Decides `is_ambiguous_name(s@)`.
pub fn entry_name_ambiguous(s: &str) -> (b: bool)
    ensures
        b == is_ambiguous_name(s@),
{
    let n: usize = s.unicode_len();
    if n == 0 {
        return true;
    }
    let first = s.get_char(0);
    if first == '/' || first == '\\' {
        return true;
    }
    let mut i: usize = 0;
    while i < n
        invariant
            n == s@.len(),
            i <= n,
            forall|j: int| 0 <= j < i ==> s@[j] != ':',
            forall|j: int| 0 <= j < i ==> !dotdot_at(s@, j),
        decreases n - i,
    {
        let c = s.get_char(i);
        if c == ':' {
            return true;
        }
        if c == '.' && i < n - 1 && s.get_char(i + 1) == '.' {
            let before = i == 0 || {
                let p = s.get_char(i - 1);
                p == '/' || p == '\\'
            };
            let after = i + 2 == n || {
                let q = s.get_char(i + 2);
                q == '/' || q == '\\'
            };
            if before && after {
                assert(dotdot_at(s@, i as int));
                return true;
            }
        }
        assert(!dotdot_at(s@, i as int));
        i += 1;
    }
    assert(!s@.contains(':'));
    assert(!has_dotdot_component(s@)) by {
        assert(forall|j: int| 0 <= j < n ==> !dotdot_at(s@, j));
    }
    false
}

/// The extraction plan: which entries to materialize, and which of them to
/// install.
#[derive(Debug, Clone)]
pub struct ExtractPlan {
    /// Destination-relative names to write, in archive order; ambiguous
    /// entries are left out.
    pub writes: Vec<String>,
    /// The name of the executable to install: the first installable entry.
    pub executable: String,
}

/// The names a correct plan materializes: the safe entries' names, in order.
pub open spec fn planned_writes(entries: Seq<ArchiveEntryView>) -> Seq<Seq<char>>
    decreases entries.len(),
{
    if entries.len() == 0 {
        Seq::empty()
    } else {
        let rest = planned_writes(entries.drop_last());
        if entry_safe(entries.last()) {
            rest.push(entries.last().name)
        } else {
            rest
        }
    }
}

/// Some entry of the listing is installable.
pub open spec fn has_installable(entries: Seq<ArchiveEntryView>) -> bool {
    exists|k: int| 0 <= k < entries.len() && installable(entries[k])
}

/// `name` names the first installable entry of the listing.
pub open spec fn is_first_installable(entries: Seq<ArchiveEntryView>, name: Seq<char>) -> bool {
    exists|k: int|
        {
            &&& 0 <= k < entries.len()
            &&& installable(entries[k])
            &&& entries[k].name == name
            &&& forall|j: int| 0 <= j < k ==> !installable(entries[j])
        }
}

/// Judges a bundle listing: which entries may be written under the
/// destination, and which one is the executable to install. Fails with
/// [`UpdateError::NoExecutableInArchive`] exactly when no entry qualifies,
/// after the full pass the plan stands for.
pub fn plan_extract(entries: &Vec<ArchiveEntry>) -> (r: Result<ExtractPlan, UpdateError>)
    ensures
        (r is Ok) == has_installable(entry_views(entries@)),
        r matches Ok(p) ==> (string_views(p.writes@) == planned_writes(entry_views(entries@))
            && is_first_installable(entry_views(entries@), p.executable@)),
        r matches Err(e) ==> (e matches UpdateError::NoExecutableInArchive),
{
    let ghost evs = entry_views(entries@);
    let mut writes: Vec<String> = Vec::new();
    let mut found: Option<String> = None;
    let mut i: usize = 0;
    while i < entries.len()
        invariant
            i <= entries@.len(),
            evs == entry_views(entries@),
            evs.len() == entries@.len(),
            forall|j: int| 0 <= j < entries@.len() ==> evs[j] == entries@[j]@,
            string_views(writes@) == planned_writes(evs.subrange(0, i as int)),
            match found {
                None => forall|j: int| 0 <= j < i ==> !installable(evs[j]),
                Some(x) => is_first_installable(evs.subrange(0, i as int), x@),
            },
        decreases entries@.len() - i,
    {
        let e = &entries[i];
        let ghost prev = evs.subrange(0, i as int);
        let ambiguous = entry_name_ambiguous(e.name.as_str());
        if !ambiguous {
            writes.push(e.name.clone());
            if found.is_none() && !e.is_dir && str_has_suffix(e.name.as_str(), ".exe") {
                found = Some(e.name.clone());
            }
        }
        proof {
            let cur = evs.subrange(0, i as int + 1);
            assert(cur.drop_last() =~= prev);
            assert(cur.last() == evs[i as int]);
            assert(string_views(writes@) =~= planned_writes(cur));
            if let Some(x) = &found {
                assert(is_first_installable(cur, x@));
            }
        }
        i += 1;
    }
    assert(evs.subrange(0, entries@.len() as int) =~= evs);
    match found {
        Some(exe) => Ok(ExtractPlan { writes, executable: exe }),
        None => Err(UpdateError::NoExecutableInArchive),
    }
}

/// No write a correct plan materializes can escape the destination: every
/// planned name is unambiguous.
pub proof fn lemma_planned_writes_stay_inside(entries: Seq<ArchiveEntryView>)
    ensures
        forall|i: int|
            0 <= i < planned_writes(entries).len() ==> !is_ambiguous_name(
                #[trigger] planned_writes(entries)[i],
            ),
    decreases entries.len(),
{
    if entries.len() > 0 {
        lemma_planned_writes_stay_inside(entries.drop_last());
        let rest = planned_writes(entries.drop_last());
        if entry_safe(entries.last()) {
            assert forall|i: int|
                0 <= i < planned_writes(entries).len() implies !is_ambiguous_name(
                #[trigger] planned_writes(entries)[i],
            ) by {
                if i < rest.len() {
                    assert(planned_writes(entries)[i] == rest[i]);
                } else {
                    assert(planned_writes(entries)[i] == entries.last().name);
                }
            }
        }
    }
}

} // verus!
