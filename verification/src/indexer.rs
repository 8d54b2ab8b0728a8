//! Workspace indexer: classifies one folder's raw directory listing into a
//! batch of identified entries for the UI tree.
//!
//! The caller enumerates the folder and probes each kept candidate file
//! (filesystem size, page count through the document collaborator); this
//! module holds every decision: which entries are kept, which probe outcomes
//! drop an entry silently, and the stable identity of every entry.
use crate::file_utils::{ext_of, get_extension_from_filename, str_eq};
use crate::hashing::{calculate_hash, hash_chars};
use vstd::prelude::*;

verus! {

/// One raw directory entry, as enumerated by the caller.
#[derive(Clone, Debug)]
pub struct RawEntry {
    pub name: String,
    pub path: String,
    pub is_dir: bool,
}

/// Outcome of probing one kept candidate file.
#[derive(Clone, Debug)]
pub enum FileProbe {
    /// The file's metadata could not be read; the entry is dropped silently.
    NoMetadata,
    /// The document collaborator could not open the file; dropped silently.
    NoDocument,
    /// The file was opened; `pages` is the reported page count, if any.
    Available { size: u64, pages: Option<i32> },
}

/// A document entry of the workspace tree.
#[derive(Clone, Debug)]
pub struct PdfDetails {
    pub name: String,
    pub path: String,
    pub pages: i32,
    pub size: u64,
    pub parent: Option<u64>,
    pub id: u64,
}

/// A directory entry of the workspace tree.
#[derive(Clone, Debug)]
pub struct DirEntry {
    pub name: String,
    pub parent: Option<u64>,
    pub path: String,
    pub id: u64,
}

/// One classified entry of a scan batch.
#[derive(Clone, Debug)]
pub enum Entry {
    PdfDetails(PdfDetails),
    DirEntry(DirEntry),
}

/// One scan batch: the scanned folder plus all entries kept from it.
#[derive(Clone, Debug)]
pub struct FolderProcessedPayload {
    pub folder: String,
    pub entries: Vec<Entry>,
}

/// A directory is kept unless its extension-like suffix marks it as another
/// application's document bundle.
pub open spec fn dir_is_kept(name: Seq<char>) -> bool {
    !(ext_of(name) == Some("pages"@) || ext_of(name) == Some("numbers"@) || ext_of(name) == Some(
        "key"@,
    ))
}

/// A regular file is kept exactly when its extension is the target document
/// type.
pub open spec fn file_is_kept(name: Seq<char>) -> bool {
    ext_of(name) == Some("pdf"@)
}

/// Whether a directory with this name belongs in a scan batch.
pub fn dir_entry_kept(name: &str) -> (r: bool)
    ensures
        r == dir_is_kept(name@),
{
    match get_extension_from_filename(name) {
        Some(e) => !(str_eq(e, "pages") || str_eq(e, "numbers") || str_eq(e, "key")),
        None => true,
    }
}

/// Whether a regular file with this name belongs in a scan batch.
pub fn file_entry_kept(name: &str) -> (r: bool)
    ensures
        r == file_is_kept(name@),
{
    match get_extension_from_filename(name) {
        Some(e) => str_eq(e, "pdf"),
        None => false,
    }
}

/// The directory entry produced for a kept directory.
pub open spec fn dir_entry_of(e: RawEntry, parent: u64) -> Entry {
    Entry::DirEntry(
        DirEntry { name: e.name, parent: Some(parent), path: e.path, id: hash_chars(e.path@) },
    )
}

/// A failed page-count read is reported as zero pages, as the UI treats an
/// unreadable count and an empty document alike.
pub open spec fn page_count_or_zero(p: Option<i32>) -> i32 {
    match p {
        Some(n) => n,
        None => 0,
    }
}

/// The document entry produced for a kept file, given its probe outcome;
/// `None` when the probe failed and the entry is dropped.
pub open spec fn probe_entry_of(e: RawEntry, p: FileProbe, parent: u64) -> Option<Entry> {
    match p {
        FileProbe::NoMetadata => None,
        FileProbe::NoDocument => None,
        FileProbe::Available { size, pages } => Some(
            Entry::PdfDetails(
                PdfDetails {
                    name: e.name,
                    path: e.path,
                    pages: page_count_or_zero(pages),
                    size: size,
                    parent: Some(parent),
                    id: hash_chars(e.path@),
                },
            ),
        ),
    }
}

/// The exact batch a scan produces: listing order is preserved, kept
/// directories always appear, kept files appear when their probe (consumed in
/// listing order) succeeded, everything else is dropped.
pub open spec fn scan_spec(listing: Seq<RawEntry>, probes: Seq<FileProbe>, parent: u64) -> Seq<
    Entry,
>
    decreases listing.len(),
{
    if listing.len() == 0 {
        Seq::empty()
    } else {
        let e = listing[0];
        let rest = listing.drop_first();
        if e.is_dir && dir_is_kept(e.name@) {
            seq![dir_entry_of(e, parent)] + scan_spec(rest, probes, parent)
        } else if !e.is_dir && file_is_kept(e.name@) {
            if probes.len() > 0 {
                match probe_entry_of(e, probes[0], parent) {
                    Some(en) => seq![en] + scan_spec(rest, probes.drop_first(), parent),
                    None => scan_spec(rest, probes.drop_first(), parent),
                }
            } else {
                scan_spec(rest, probes, parent)
            }
        } else {
            scan_spec(rest, probes, parent)
        }
    }
}

pub open spec fn entry_path(e: Entry) -> Seq<char> {
    match e {
        Entry::PdfDetails(p) => p.path@,
        Entry::DirEntry(d) => d.path@,
    }
}

pub open spec fn entry_parent(e: Entry) -> Option<u64> {
    match e {
        Entry::PdfDetails(p) => p.parent,
        Entry::DirEntry(d) => d.parent,
    }
}

pub open spec fn entry_id(e: Entry) -> u64 {
    match e {
        Entry::PdfDetails(p) => p.id,
        Entry::DirEntry(d) => d.id,
    }
}

/// Whether the inclusion rule admits this entry.
pub open spec fn entry_kept(e: Entry) -> bool {
    match e {
        Entry::PdfDetails(p) => file_is_kept(p.name@),
        Entry::DirEntry(d) => dir_is_kept(d.name@),
    }
}

/// The identity invariant of a scan batch entry: it is admitted by the
/// inclusion rule, its parent identity is the scanned folder's hash, and its
/// own identity is its path's hash.
pub open spec fn entry_well_identified(e: Entry, parent: u64) -> bool {
    entry_kept(e) && entry_parent(e) == Some(parent) && entry_id(e) == hash_chars(entry_path(e))
}

/// Every entry of a scan batch is admitted by the inclusion rule, carries the
/// scanned folder's hash as its parent identity, and its own path's hash as
/// its identity.
pub proof fn lemma_scan_entries_classified(
    listing: Seq<RawEntry>,
    probes: Seq<FileProbe>,
    parent: u64,
)
    ensures
        forall|i: int|
            0 <= i < scan_spec(listing, probes, parent).len() ==> entry_well_identified(
                #[trigger] scan_spec(listing, probes, parent)[i],
                parent,
            ),
    decreases listing.len(),
{
    if listing.len() > 0 {
        let e = listing[0];
        let rest = listing.drop_first();
        let whole = scan_spec(listing, probes, parent);
        if e.is_dir && dir_is_kept(e.name@) {
            lemma_scan_entries_classified(rest, probes, parent);
            let tail = scan_spec(rest, probes, parent);
            assert forall|i: int| 0 <= i < whole.len() implies entry_well_identified(
                #[trigger] whole[i],
                parent,
            ) by {
                if i == 0 {
                    assert(entry_well_identified(dir_entry_of(e, parent), parent));
                } else {
                    assert(whole[i] == tail[i - 1]);
                }
            }
        } else if !e.is_dir && file_is_kept(e.name@) {
            if probes.len() > 0 {
                lemma_scan_entries_classified(rest, probes.drop_first(), parent);
                let tail = scan_spec(rest, probes.drop_first(), parent);
                match probe_entry_of(e, probes[0], parent) {
                    Some(en) => {
                        assert forall|i: int| 0 <= i < whole.len() implies entry_well_identified(
                            #[trigger] whole[i],
                            parent,
                        ) by {
                            if i == 0 {
                                assert(entry_well_identified(en, parent));
                            } else {
                                assert(whole[i] == tail[i - 1]);
                            }
                        }
                    },
                    None => {
                        assert forall|i: int| 0 <= i < whole.len() implies entry_well_identified(
                            #[trigger] whole[i],
                            parent,
                        ) by {
                            assert(whole[i] == tail[i]);
                        }
                    },
                }
            } else {
                lemma_scan_entries_classified(rest, probes, parent);
                let tail = scan_spec(rest, probes, parent);
                assert forall|i: int| 0 <= i < whole.len() implies entry_well_identified(
                    #[trigger] whole[i],
                    parent,
                ) by {
                    assert(whole[i] == tail[i]);
                }
            }
        } else {
            lemma_scan_entries_classified(rest, probes, parent);
            let tail = scan_spec(rest, probes, parent);
            assert forall|i: int| 0 <= i < whole.len() implies entry_well_identified(
                #[trigger] whole[i],
                parent,
            ) by {
                assert(whole[i] == tail[i]);
            }
        }
    }
}

/// Scanning the same folder twice yields batches whose entries agree,
/// path for path, on both identities, whatever each scan's probe outcomes
/// were.
pub proof fn lemma_scan_identity_stable(
    listing: Seq<RawEntry>,
    probes1: Seq<FileProbe>,
    probes2: Seq<FileProbe>,
    parent: u64,
)
    ensures
        forall|i: int, j: int|
            0 <= i < scan_spec(listing, probes1, parent).len() && 0 <= j < scan_spec(
                listing,
                probes2,
                parent,
            ).len() && entry_path(#[trigger] scan_spec(listing, probes1, parent)[i]) == entry_path(
                #[trigger] scan_spec(listing, probes2, parent)[j],
            ) ==> {
                let a = scan_spec(listing, probes1, parent)[i];
                let b = scan_spec(listing, probes2, parent)[j];
                entry_id(a) == entry_id(b) && entry_parent(a) == entry_parent(b)
            },
{
    lemma_scan_entries_classified(listing, probes1, parent);
    lemma_scan_entries_classified(listing, probes2, parent);
}

/// Scan one folder's listing into a batch of identified entries.
///
/// `probes` holds, in listing order, the probe outcome of each kept candidate
/// file; a listing position whose probe is missing is dropped, and surplus
/// probes are ignored.
pub fn process_folder(folder: &str, listing: &Vec<RawEntry>, probes: &Vec<FileProbe>) -> (r:
    FolderProcessedPayload)
    ensures
        r.folder@ == folder@,
        r.entries@ == scan_spec(listing@, probes@, hash_chars(folder@)),
        forall|i: int|
            0 <= i < r.entries@.len() ==> entry_well_identified(
                #[trigger] r.entries@[i],
                hash_chars(folder@),
            ),
{
    let parent: u64 = calculate_hash(folder);
    let mut entries: Vec<Entry> = Vec::new();
    let mut k: usize = 0;
    let mut i: usize = 0;
    proof {
        assert(listing@.skip(0) =~= listing@);
        assert(probes@.skip(0) =~= probes@);
        assert(Seq::<Entry>::empty() + scan_spec(listing@, probes@, parent) =~= scan_spec(
            listing@,
            probes@,
            parent,
        ));
    }
    while i < listing.len()
        invariant
            parent == hash_chars(folder@),
            i <= listing@.len(),
            k <= probes@.len(),
            entries@ + scan_spec(listing@.skip(i as int), probes@.skip(k as int), parent)
                == scan_spec(listing@, probes@, parent),
        decreases listing@.len() - i,
    {
        let ghost i0 = i as int;
        let ghost k0 = k as int;
        proof {
            assert(listing@.skip(i0)[0] == listing@[i0]);
            assert(listing@.skip(i0).drop_first() =~= listing@.skip(i0 + 1));
        }
        let e = &listing[i];
        if e.is_dir {
            if dir_entry_kept(&e.name) {
                let entry = Entry::DirEntry(
                    DirEntry {
                        name: e.name.clone(),
                        parent: Some(parent),
                        path: e.path.clone(),
                        id: calculate_hash(e.path.as_str()),
                    },
                );
                proof {
                    assert(entry == dir_entry_of(listing@[i0], parent));
                    assert(entries@.push(entry) =~= entries@ + seq![entry]);
                    assert((entries@ + seq![entry]) + scan_spec(
                        listing@.skip(i0 + 1),
                        probes@.skip(k0),
                        parent,
                    ) =~= entries@ + (seq![entry] + scan_spec(
                        listing@.skip(i0 + 1),
                        probes@.skip(k0),
                        parent,
                    )));
                }
                entries.push(entry);
            }
        } else {
            if file_entry_kept(&e.name) {
                if k < probes.len() {
                    proof {
                        assert(probes@.skip(k0)[0] == probes@[k0]);
                        assert(probes@.skip(k0).drop_first() =~= probes@.skip(k0 + 1));
                    }
                    match &probes[k] {
                        FileProbe::Available { size, pages } => {
                            let pg: i32 = match pages {
                                Some(n) => *n,
                                None => 0,
                            };
                            let entry = Entry::PdfDetails(
                                PdfDetails {
                                    name: e.name.clone(),
                                    path: e.path.clone(),
                                    pages: pg,
                                    size: *size,
                                    parent: Some(parent),
                                    id: calculate_hash(e.path.as_str()),
                                },
                            );
                            proof {
                                assert(Some(entry) == probe_entry_of(
                                    listing@[i0],
                                    probes@[k0],
                                    parent,
                                ));
                                assert(entries@.push(entry) =~= entries@ + seq![entry]);
                                assert((entries@ + seq![entry]) + scan_spec(
                                    listing@.skip(i0 + 1),
                                    probes@.skip(k0 + 1),
                                    parent,
                                ) =~= entries@ + (seq![entry] + scan_spec(
                                    listing@.skip(i0 + 1),
                                    probes@.skip(k0 + 1),
                                    parent,
                                )));
                            }
                            entries.push(entry);
                        },
                        FileProbe::NoMetadata => {
                        },
                        FileProbe::NoDocument => {
                        },
                    }
                    k = k + 1;
                } else {
                    proof {
                        assert(probes@.skip(k0).len() == 0);
                    }
                }
            }
        }
        i = i + 1;
    }
    proof {
        assert(listing@.skip(listing@.len() as int) =~= Seq::<RawEntry>::empty());
        assert(entries@ + Seq::<Entry>::empty() =~= entries@);
        lemma_scan_entries_classified(listing@, probes@, parent);
    }
    FolderProcessedPayload { folder: folder.to_owned(), entries }
}

} // verus!
