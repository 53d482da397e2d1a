//! The change set: the manifest entries whose local file must be fetched again.
use vstd::prelude::*;

use crate::digest::{content_hash, content_hash_hex};
use crate::manifest::{entries_view, ManifestEntry};

verus! {

/// An entry must be fetched when its local file is missing or unreadable (`None`), or
/// when the lowercase hex SHA-256 of the file's bytes differs from the manifest hash.
pub open spec fn entry_changed(hash: Seq<u8>, local: Option<Seq<u8>>) -> bool {
    match local {
        None => true,
        Some(content) => content_hash(content) != hash,
    }
}

/// The paths of the first `n` entries that are changed, in manifest order; `locals[i]`
/// is what was read for `entries[i]`.
pub open spec fn changed_prefix(
    entries: Seq<(Seq<u8>, Seq<u8>)>,
    locals: Seq<Option<Seq<u8>>>,
    n: nat,
) -> Seq<Seq<u8>>
    decreases n,
{
    if n == 0 {
        Seq::empty()
    } else {
        let i = n - 1;
        let before = changed_prefix(entries, locals, i as nat);
        if entry_changed(entries[i].0, locals[i]) {
            before.push(entries[i].1)
        } else {
            before
        }
    }
}

/// The change set of a manifest against what was read for each of its entries.
pub open spec fn change_set(
    entries: Seq<(Seq<u8>, Seq<u8>)>,
    locals: Seq<Option<Seq<u8>>>,
) -> Seq<Seq<u8>> {
    changed_prefix(entries, locals, entries.len())
}

/// The view of what was read for one entry.
pub open spec fn local_view(local: Option<Vec<u8>>) -> Option<Seq<u8>> {
    match local {
        None => None,
        Some(content) => Some(content@),
    }
}

/// The views of what was read for each entry.
pub open spec fn locals_view(locals: Seq<Option<Vec<u8>>>) -> Seq<Option<Seq<u8>>> {
    locals.map_values(|l: Option<Vec<u8>>| local_view(l))
}

/// The views of a sequence of paths.
pub open spec fn paths_view(paths: Seq<Vec<u8>>) -> Seq<Seq<u8>> {
    paths.map_values(|p: Vec<u8>| p@)
}

/// Whether the entry with `hash` must be fetched, given what was read of its file.
pub fn is_changed(hash: &[u8], local: Option<&[u8]>) -> (r: bool)
    ensures
        r == entry_changed(
            hash@,
            match local {
                None => None,
                Some(c) => Some(c@),
            },
        ),
{
    match local {
        None => true,
        Some(content) => {
            let digest = content_hash_hex(content);
            !bytes_equal(digest.as_slice(), hash)
        },
    }
}

/// Whether two byte strings are equal.
pub fn bytes_equal(a: &[u8], b: &[u8]) -> (r: bool)
    ensures
        r == (a@ == b@),
{
    if a.len() != b.len() {
        return false;
    }
    let mut i: usize = 0;
    while i < a.len()
        invariant
            i <= a@.len() == b@.len(),
            forall|j: int| 0 <= j < i ==> a@[j] == b@[j],
        decreases a@.len() - i,
    {
        if a[i] != b[i] {
            return false;
        }
        i = i + 1;
    }
    assert(a@ =~= b@);
    true
}

/// The paths that must be fetched, in manifest order; `locals[i]` holds the bytes of
/// the local file of `entries[i]`, or `None` when it is missing or unreadable.
pub fn changed_paths(entries: &Vec<ManifestEntry>, locals: &Vec<Option<Vec<u8>>>) -> (r: Vec<
    Vec<u8>,
>)
    requires
        entries@.len() == locals@.len(),
    ensures
        paths_view(r@) == change_set(entries_view(entries@), locals_view(locals@)),
{
    let ghost ev = entries_view(entries@);
    let ghost lv = locals_view(locals@);
    let mut out: Vec<Vec<u8>> = Vec::new();
    let mut i: usize = 0;
    while i < entries.len()
        invariant
            i <= entries@.len() == locals@.len(),
            ev == entries_view(entries@),
            lv == locals_view(locals@),
            paths_view(out@) == changed_prefix(ev, lv, i as nat),
        decreases entries@.len() - i,
    {
        let entry = &entries[i];
        let changed = match &locals[i] {
            None => is_changed(entry.hash.as_slice(), None),
            Some(content) => is_changed(entry.hash.as_slice(), Some(content.as_slice())),
        };
        assert(ev[i as int] == entry@);
        assert(lv[i as int] == local_view(locals@[i as int]));
        if changed {
            let ghost before = out@;
            out.push(entry.path.clone());
            assert(paths_view(out@) =~= paths_view(before).push(entry.path@));
        }
        i = i + 1;
    }
    out
}

/// Resolving against a folder in which every file already hashes to its manifest
/// hash finds nothing to fetch; so resolving again after a successful patch, with the
/// fetched bytes in place of each changed file, finds nothing either.
pub proof fn law_resolve_idempotent(
    entries: Seq<(Seq<u8>, Seq<u8>)>,
    locals: Seq<Option<Seq<u8>>>,
    fetched: Seq<Option<Seq<u8>>>,
)
    requires
        entries.len() == locals.len() == fetched.len(),
        forall|i: int|
            0 <= i < entries.len() && entry_changed(entries[i].0, locals[i]) ==> (
            #[trigger] fetched[i] matches Some(c) && content_hash(c) == entries[i].0),
    ensures
        change_set(entries, applied_locals(entries, locals, fetched)) == Seq::<Seq<u8>>::empty(),
{
    let after = applied_locals(entries, locals, fetched);
    assert forall|i: int| 0 <= i < entries.len() implies !entry_changed(
        entries[i].0,
        #[trigger] after[i],
    ) by {
        if entry_changed(entries[i].0, locals[i]) {
            assert(fetched[i] matches Some(c) && content_hash(c) == entries[i].0);
        }
    }
    lemma_nothing_changed(entries, after, entries.len());
}

/// What the folder holds for each entry after a successful patch: the fetched bytes
/// where the entry was changed, the old content elsewhere.
pub open spec fn applied_locals(
    entries: Seq<(Seq<u8>, Seq<u8>)>,
    locals: Seq<Option<Seq<u8>>>,
    fetched: Seq<Option<Seq<u8>>>,
) -> Seq<Option<Seq<u8>>> {
    Seq::new(
        locals.len(),
        |i: int|
            if entry_changed(entries[i].0, locals[i]) {
                fetched[i]
            } else {
                locals[i]
            },
    )
}

proof fn lemma_nothing_changed(
    entries: Seq<(Seq<u8>, Seq<u8>)>,
    locals: Seq<Option<Seq<u8>>>,
    n: nat,
)
    requires
        n <= entries.len(),
        forall|i: int| 0 <= i < n ==> !entry_changed(entries[i].0, #[trigger] locals[i]),
    ensures
        changed_prefix(entries, locals, n) == Seq::<Seq<u8>>::empty(),
    decreases n,
{
    if n > 0 {
        lemma_nothing_changed(entries, locals, (n - 1) as nat);
    }
}

/// For a one-entry manifest whose hash is the digest of `a`: a missing file is
/// fetched, a file whose digest differs is fetched, and a file holding exactly `a`
/// is left alone.
pub proof fn law_detection(a: Seq<u8>, path: Seq<u8>, other: Seq<u8>)
    requires
        content_hash(other) != content_hash(a),
    ensures
        change_set(seq![(content_hash(a), path)], seq![None]) == seq![path],
        change_set(seq![(content_hash(a), path)], seq![Some(other)]) == seq![path],
        change_set(seq![(content_hash(a), path)], seq![Some(a)]) == Seq::<Seq<u8>>::empty(),
{
    let entries = seq![(content_hash(a), path)];
    assert(changed_prefix(entries, seq![None], 0) == Seq::<Seq<u8>>::empty());
    assert(changed_prefix(entries, seq![Some(other)], 0) == Seq::<Seq<u8>>::empty());
    assert(changed_prefix(entries, seq![Some(a)], 0) == Seq::<Seq<u8>>::empty());
    assert(Seq::<Seq<u8>>::empty().push(path) =~= seq![path]);
}

} // verus!
