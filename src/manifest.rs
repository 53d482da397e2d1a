//! The patch manifest: one `hash<TAB>path` entry per line of the server's text.
use vstd::prelude::*;

use crate::failure::PatchFailure;

verus! {

pub const TAB: u8 = 9;

pub const NEWLINE: u8 = 10;

pub const CARRIAGE_RETURN: u8 = 13;

pub const SLASH: u8 = 47;

/// The position of the first `b` in `s`, or `s.len()` when there is none.
pub open spec fn index_of(s: Seq<u8>, b: u8) -> nat
    decreases s.len(),
{
    if s.len() == 0 {
        0
    } else if s[0] == b {
        0
    } else {
        1 + index_of(s.drop_first(), b)
    }
}

/// `k` is the position of the first `b` in `s`, or `s.len()` when there is none.
pub open spec fn is_first_index(s: Seq<u8>, b: u8, k: int) -> bool {
    &&& 0 <= k <= s.len()
    &&& forall|j: int| 0 <= j < k ==> s[j] != b
    &&& k < s.len() ==> s[k] == b
}

/// The lines of `text`, split as `str::lines` splits them: at each `\n`, dropping a
/// `\r` just before it; a final line needs no terminator, and empty text has no lines.
pub open spec fn lines_of(text: Seq<u8>) -> Seq<Seq<u8>>
    decreases text.len(),
{
    if text.len() == 0 {
        Seq::empty()
    } else {
        let k = index_of(text, NEWLINE) as int;
        if k >= text.len() {
            seq![text]
        } else {
            seq![strip_carriage_return(text.take(k))] + lines_of(text.skip(k + 1))
        }
    }
}

/// `line` without one trailing `\r`, if it has one.
pub open spec fn strip_carriage_return(line: Seq<u8>) -> Seq<u8> {
    if line.len() > 0 && line.last() == CARRIAGE_RETURN {
        line.drop_last()
    } else {
        line
    }
}

/// `path` without its leading `/` characters, so that it stays relative.
pub open spec fn strip_leading_slashes(path: Seq<u8>) -> Seq<u8>
    decreases path.len(),
{
    if path.len() > 0 && path[0] == SLASH {
        strip_leading_slashes(path.drop_first())
    } else {
        path
    }
}

/// The entry that a line holds: the text before its first tab is the hash, the text
/// after it, without leading slashes, is the path.
pub open spec fn entry_of_line(line: Seq<u8>) -> (Seq<u8>, Seq<u8>) {
    let k = index_of(line, TAB) as int;
    (line.take(k), strip_leading_slashes(line.skip(k + 1)))
}

/// Every line of the manifest text holds a tab.
pub open spec fn manifest_well_formed(text: Seq<u8>) -> bool {
    forall|i: int| 0 <= i < lines_of(text).len() ==> #[trigger] lines_of(text)[i].contains(TAB)
}

/// The entries of a well-formed manifest, in the order of its lines.
pub open spec fn manifest_entries(text: Seq<u8>) -> Seq<(Seq<u8>, Seq<u8>)> {
    lines_of(text).map_values(|line: Seq<u8>| entry_of_line(line))
}

/// One entry of the manifest: the expected lowercase hex digest of a file, and the
/// file's path relative to the game folder.
#[derive(Clone, Debug)]
pub struct ManifestEntry {
    pub hash: Vec<u8>,
    pub path: Vec<u8>,
}

impl View for ManifestEntry {
    type V = (Seq<u8>, Seq<u8>);

    open spec fn view(&self) -> (Seq<u8>, Seq<u8>) {
        (self.hash@, self.path@)
    }
}

/// The views of a sequence of entries.
pub open spec fn entries_view(entries: Seq<ManifestEntry>) -> Seq<(Seq<u8>, Seq<u8>)> {
    entries.map_values(|e: ManifestEntry| e@)
}

proof fn lemma_index_of(s: Seq<u8>, b: u8, k: int)
    requires
        is_first_index(s, b, k),
    ensures
        index_of(s, b) == k,
    decreases s.len(),
{
    if s.len() > 0 && s[0] != b {
        assert forall|j: int| 0 <= j < k - 1 implies s.drop_first()[j] != b by {
            assert(s[j + 1] != b);
        }
        lemma_index_of(s.drop_first(), b, k - 1);
    }
}

proof fn lemma_index_of_contains(s: Seq<u8>, b: u8, k: int)
    requires
        is_first_index(s, b, k),
    ensures
        s.contains(b) <==> k < s.len(),
{
    if k < s.len() {
        assert(s[k] == b);
    }
}

/// The position of the first `b` in `text[from..to]`, or `to` when there is none.
fn find_byte(text: &[u8], from: usize, to: usize, b: u8) -> (r: usize)
    requires
        from <= to <= text@.len(),
    ensures
        from <= r <= to,
        is_first_index(text@.subrange(from as int, to as int), b, r - from),
{
    let mut i = from;
    while i < to
        invariant
            from <= i <= to <= text@.len(),
            forall|j: int| from <= j < i ==> text@[j] != b,
        decreases to - i,
    {
        if text[i] == b {
            return i;
        }
        i = i + 1;
    }
    i
}

/// A copy of `text[from..to]`.
fn copy_range(text: &[u8], from: usize, to: usize) -> (r: Vec<u8>)
    requires
        from <= to <= text@.len(),
    ensures
        r@ == text@.subrange(from as int, to as int),
{
    let mut out: Vec<u8> = Vec::new();
    let mut i = from;
    while i < to
        invariant
            from <= i <= to <= text@.len(),
            out@ == text@.subrange(from as int, i as int),
        decreases to - i,
    {
        out.push(text[i]);
        assert(text@.subrange(from as int, i + 1) =~= text@.subrange(from as int, i as int).push(
            text@[i as int],
        ));
        i = i + 1;
    }
    out
}

/// Parses one line, `text[start..end]`, into its entry, or `None` when it holds no tab.
fn parse_line(text: &[u8], start: usize, end: usize) -> (r: Option<ManifestEntry>)
    requires
        start <= end <= text@.len(),
    ensures
        r is None <==> !text@.subrange(start as int, end as int).contains(TAB),
        r matches Some(e) ==> e@ == entry_of_line(text@.subrange(start as int, end as int)),
{
    let ghost line = text@.subrange(start as int, end as int);
    let tab = find_byte(text, start, end, TAB);
    proof {
        lemma_index_of(line, TAB, tab - start);
        lemma_index_of_contains(line, TAB, tab - start);
    }
    if tab == end {
        return None;
    }
    let hash = copy_range(text, start, tab);
    let mut p = tab + 1;
    let ghost rest = line.skip(tab - start + 1);
    assert(rest =~= text@.subrange(p as int, end as int));
    while p < end && text[p] == SLASH
        invariant
            tab < p <= end <= text@.len(),
            strip_leading_slashes(rest) == strip_leading_slashes(
                text@.subrange(p as int, end as int),
            ),
        decreases end - p,
    {
        proof {
            let sub = text@.subrange(p as int, end as int);
            assert(sub.drop_first() =~= text@.subrange(p + 1, end as int));
        }
        p = p + 1;
    }
    let path = copy_range(text, p, end);
    assert(hash@ =~= line.take(tab - start));
    Some(ManifestEntry { hash, path })
}

/// Parses the manifest text into its entries, in line order. A line without a tab
/// makes the whole manifest invalid: no entry is returned then.
pub fn parse_manifest(text: &[u8]) -> (r: Result<Vec<ManifestEntry>, PatchFailure>)
    ensures
        r is Ok <==> manifest_well_formed(text@),
        r matches Ok(entries) ==> entries_view(entries@) == manifest_entries(text@),
        r matches Err(f) ==> f == PatchFailure::Network,
{
    let n = text.len();
    let mut entries: Vec<ManifestEntry> = Vec::new();
    let mut start: usize = 0;
    let ghost mut done: Seq<Seq<u8>> = seq![];
    assert(text@.subrange(0, n as int) =~= text@);
    assert(done + lines_of(text@) =~= lines_of(text@));
    while start < n
        invariant
            start <= n == text@.len(),
            lines_of(text@) == done + lines_of(text@.subrange(start as int, n as int)),
            forall|i: int| 0 <= i < done.len() ==> #[trigger] done[i].contains(TAB),
            entries_view(entries@) == done.map_values(|line: Seq<u8>| entry_of_line(line)),
        decreases n - start,
    {
        let ghost rest = text@.subrange(start as int, n as int);
        let nl = find_byte(text, start, n, NEWLINE);
        proof {
            lemma_index_of(rest, NEWLINE, nl - start);
        }
        let mut end = nl;
        if nl < n && nl > start && text[nl - 1] == CARRIAGE_RETURN {
            end = nl - 1;
        }
        let next = if nl < n {
            nl + 1
        } else {
            n
        };
        let ghost line = text@.subrange(start as int, end as int);
        proof {
            if nl < n {
                let k = nl - start;
                assert(rest.take(k) =~= text@.subrange(start as int, nl as int));
                if nl > start && text@[nl - 1] == CARRIAGE_RETURN {
                    assert(rest.take(k).drop_last() =~= line);
                }
                assert(rest.skip(k + 1) =~= text@.subrange(next as int, n as int));
            } else {
                assert(rest =~= line);
                assert(text@.subrange(next as int, n as int) =~= Seq::<u8>::empty());
            }
            assert(lines_of(rest) =~= seq![line] + lines_of(
                text@.subrange(next as int, n as int),
            ));
            assert(lines_of(text@) =~= done.push(line) + lines_of(
                text@.subrange(next as int, n as int),
            ));
        }
        match parse_line(text, start, end) {
            None => {
                proof {
                    assert(lines_of(text@)[done.len() as int] == line);
                    assert(!lines_of(text@)[done.len() as int].contains(TAB));
                }
                return Err(PatchFailure::Network);
            },
            Some(e) => {
                let ghost before = entries@;
                entries.push(e);
                proof {
                    assert(entries@ =~= before.push(e));
                    assert(entries_view(entries@) =~= entries_view(before).push(e@));
                }
            },
        }
        proof {
            let ghost before = done;
            done = done.push(line);
            assert(done.map_values(|line: Seq<u8>| entry_of_line(line)) =~= before.map_values(
                |line: Seq<u8>| entry_of_line(line),
            ).push(entry_of_line(line)));
        }
        start = next;
    }
    proof {
        assert(text@.subrange(start as int, n as int) =~= Seq::<u8>::empty());
        assert(lines_of(text@) =~= done);
    }
    Ok(entries)
}

} // verus!
