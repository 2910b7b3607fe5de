//! The decisions behind zipping a directory for upload: entry names and
//! whether the archive needs ZIP64.

use vstd::prelude::*;

verus! {

/// Where a directory was zipped to, and the size of the archive.
#[derive(Debug)]
pub struct ZipDirectoryResult {
    pub path: String,
    pub size: u64,
}

/// The ZIP64 threshold of the `zip` crate: sizes from here on need ZIP64.
pub open spec fn zip64_threshold_value() -> int {
    0xFFFF_FFFF
}

/// `zip::ZIP64_BYTES_THR`. Trusted: the crate defines it as `u32::MAX as u64`.
#[verifier::external_body]
fn zip64_threshold() -> (t: u64)
    ensures
        t == zip64_threshold_value(),
{
    zip::ZIP64_BYTES_THR
}

/// The parts of a path joined by `/`.
pub open spec fn join_with_slash(parts: Seq<Seq<char>>) -> Seq<char>
    decreases parts.len(),
{
    if parts.len() == 0 {
        Seq::empty()
    } else if parts.len() == 1 {
        parts[0]
    } else {
        join_with_slash(parts.drop_last()) + "/"@ + parts.last()
    }
}

/// The path components that are valid Unicode (the others are `None`), in
/// order.
pub open spec fn unicode_components(components: Seq<Option<String>>) -> Seq<Seq<char>>
    decreases components.len(),
{
    if components.len() == 0 {
        Seq::empty()
    } else {
        let rest = unicode_components(components.drop_last());
        match components.last() {
            Some(c) => rest.push(c@),
            None => rest,
        }
    }
}

/// The name of a zip entry for a path relative to the archive's base: its
/// components that are valid Unicode (`None` marks the others, which are
/// left out), joined by `/`.
pub fn zip_entry_name(components: &Vec<Option<String>>) -> (name: String)
    ensures
        name@ == join_with_slash(unicode_components(components@)),
{
    let mut name = String::new();
    let ghost mut parts: Seq<Seq<char>> = Seq::empty();
    let mut count: usize = 0;
    let mut i: usize = 0;
    while i < components.len()
        invariant
            i <= components.len(),
            parts == unicode_components(components@.take(i as int)),
            count == parts.len(),
            count <= i,
            name@ == join_with_slash(parts),
        decreases components.len() - i,
    {
        assert(components@.take(i + 1).drop_last() =~= components@.take(i as int));
        assert(components@.take(i + 1).last() == components@[i as int]);
        match &components[i] {
            Some(c) => {
                if count == 0 {
                    name = c.clone();
                } else {
                    name.append("/");
                    name.append(c.as_str());
                }
                proof {
                    assert(parts.push(c@).drop_last() =~= parts);
                    parts = parts.push(c@);
                }
                count = count + 1;
            },
            None => {},
        }
        i = i + 1;
    }
    assert(components@.take(i as int) =~= components@);
    name
}

/// The sum of some sizes.
pub open spec fn total_size(sizes: Seq<u64>) -> int
    decreases sizes.len(),
{
    if sizes.len() == 0 {
        0
    } else {
        total_size(sizes.drop_last()) + sizes.last()
    }
}

/// A value capped at `u64::MAX`.
pub open spec fn capped(x: int) -> int {
    if x > u64::MAX {
        u64::MAX as int
    } else {
        x
    }
}

/// Whether entries of these sizes need ZIP64: their total size plus 256
/// bytes for each entry, each capped at `u64::MAX`, reaches the threshold.
pub open spec fn requires_zip64(sizes: Seq<u64>) -> bool {
    capped(total_size(sizes)) + capped(256 * (sizes.len() as int)) >= zip64_threshold_value()
}

/// The total size of two runs of entries is the sum of their totals.
pub proof fn lemma_total_size_concat(a: Seq<u64>, b: Seq<u64>)
    ensures
        total_size(a + b) == total_size(a) + total_size(b),
        total_size(b) >= 0,
    decreases b.len(),
{
    if b.len() == 0 {
        assert(a + b =~= a);
    } else {
        lemma_total_size_concat(a, b.drop_last());
        assert((a + b).drop_last() =~= a + b.drop_last());
        assert((a + b).last() == b.last());
    }
}

/// Adding entries to a tree, wherever they stand in the walk, never turns a
/// ZIP64 decision from needed to not needed.
pub proof fn law_zip64_is_monotone(before: Seq<u64>, added: Seq<u64>, after: Seq<u64>)
    requires
        requires_zip64(before + after),
    ensures
        requires_zip64(before + added + after),
{
    lemma_total_size_concat(before, after);
    lemma_total_size_concat(before + added, after);
    lemma_total_size_concat(before, added);
    lemma_total_size_concat(Seq::<u64>::empty(), before);
    assert(Seq::<u64>::empty() + before =~= before);
    lemma_total_size_concat(Seq::<u64>::empty(), after);
    assert(Seq::<u64>::empty() + after =~= after);
    assert((before + added + after).len() >= (before + after).len());
}

/// Whether an archive of a directory needs ZIP64: the sizes of its files
/// (capped at `u64::MAX`) plus 256 bytes of overhead for each entry (capped
/// likewise) reach the ZIP64 threshold. `entry_sizes` has one item for each
/// file and directory in the tree, the root included (0 for directories);
/// symbolic links are not counted.
pub fn directory_requires_zip64(entry_sizes: &Vec<u64>) -> (r: bool)
    ensures
        r == requires_zip64(entry_sizes@),
{
    let mut size: u64 = 0;
    let mut entries: u64 = 0;
    let mut i: usize = 0;
    while i < entry_sizes.len()
        invariant
            i <= entry_sizes.len(),
            size == capped(total_size(entry_sizes@.take(i as int))),
            entries == i,
            total_size(entry_sizes@.take(i as int)) >= 0,
        decreases entry_sizes.len() - i,
    {
        assert(entry_sizes@.take(i + 1).drop_last() =~= entry_sizes@.take(i as int));
        assert(entry_sizes@.take(i + 1).last() == entry_sizes@[i as int]);
        entries = entries + 1;
        size = size.saturating_add(entry_sizes[i]);
        i = i + 1;
    }
    assert(entry_sizes@.take(i as int) =~= entry_sizes@);
    let overhead = match entries.checked_mul(256) {
        Some(v) => v,
        None => u64::MAX,
    };
    let threshold = zip64_threshold();
    size.saturating_add(overhead) >= threshold
}

/// Whether one file entry is written with ZIP64 fields: when the whole
/// archive needs ZIP64, or when the file alone reaches the threshold.
pub fn file_requires_zip64(archive_requires_zip64: bool, file_size: u64) -> (r: bool)
    ensures
        r == (archive_requires_zip64 || file_size >= zip64_threshold_value()),
{
    archive_requires_zip64 || file_size >= zip64_threshold()
}

} // verus!
