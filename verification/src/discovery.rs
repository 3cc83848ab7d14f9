//! Discovery: what kind of source a run reads, and what of the things found in it are
//! candidates for sorting.
//!
//! A directory is walked with all that lies below it, and every regular file is a
//! candidate under its own name. An archive is unpacked to temporary files, and every
//! entry is a candidate under the file name that it has in the archive. What cannot be
//! read is left out with a warning and never keeps the rest from being discovered.

use vstd::prelude::*;
use vstd::string::*;
use crate::date::CaptureDate;
use crate::path::{file_name, file_name_of};
use crate::photo::{Photo, PhotoView};
use crate::text::{chars_of, opt_text, texts};

verus! {

/// The two kinds of source.
#[derive(Clone, Copy, Debug, PartialEq, Eq, Structural)]
pub enum SourceKind {
    /// An archive, whose entries are unpacked to temporary files.
    Archive,
    /// A directory, which is walked with all that lies below it.
    Directory,
}

/// Whether a source is named as an archive: its name ends in `.zip`.
pub open spec fn is_archive_name(source: Seq<char>) -> bool {
    let n = source.len() as int;
    n >= 4 && source[n - 4] == '.' && source[n - 3] == 'z' && source[n - 2] == 'i' && source[n
        - 1] == 'p'
}

/// Tells an archive from a directory by the source's name.
pub fn source_kind(source: &str) -> (kind: SourceKind)
    ensures
        kind is Archive <==> is_archive_name(source@),
{
    let chars = chars_of(source);
    let n = chars.len();
    if n >= 4 && chars[n - 4] == '.' && chars[n - 3] == 'z' && chars[n - 2] == 'i' && chars[n
        - 1] == 'p' {
        SourceKind::Archive
    } else {
        SourceKind::Directory
    }
}

/// One thing that the listing of a directory shows.
#[derive(Debug, PartialEq, Eq)]
pub enum Entry {
    /// A regular file, by its path.
    File(String),
    /// A directory, by its path.
    Directory(String),
    /// Something that is neither, by its path.
    Other(String),
    /// An entry that could not be read, with the reason.
    Unreadable(String),
}

/// One thing that the listing of a directory shows, as plain values.
pub enum EntryView {
    File(Seq<char>),
    Directory(Seq<char>),
    Other(Seq<char>),
    Unreadable(Seq<char>),
}

impl View for Entry {
    type V = EntryView;

    open spec fn view(&self) -> EntryView {
        match self {
            Entry::File(path) => EntryView::File(path@),
            Entry::Directory(path) => EntryView::Directory(path@),
            Entry::Other(path) => EntryView::Other(path@),
            Entry::Unreadable(reason) => EntryView::Unreadable(reason@),
        }
    }
}

/// One entry of an archive, unpacked to a temporary file.
#[derive(Debug, PartialEq, Eq)]
pub struct Unpacked {
    /// The temporary file that holds the entry's bytes.
    pub path: String,
    /// The path of the entry inside the archive.
    pub entry: String,
}

/// One unpacked entry of an archive, as plain values.
pub struct UnpackedView {
    pub path: Seq<char>,
    pub entry: Seq<char>,
}

impl View for Unpacked {
    type V = UnpackedView;

    open spec fn view(&self) -> UnpackedView {
        UnpackedView { path: self.path@, entry: self.entry@ }
    }
}

/// A media file that was discovered and waits for its capture date.
#[derive(Debug, PartialEq, Eq)]
pub struct Candidate {
    /// Where the file's bytes are read from.
    pub path: String,
    /// The name that the file had in its archive, if it came from one.
    pub original_name: Option<String>,
}

/// A candidate as plain values.
pub struct CandidateView {
    pub path: Seq<char>,
    pub original_name: Option<Seq<char>>,
}

impl View for Candidate {
    type V = CandidateView;

    open spec fn view(&self) -> CandidateView {
        CandidateView { path: self.path@, original_name: opt_text(self.original_name) }
    }
}

/// What each of the entries is.
pub open spec fn entry_views(entries: Seq<Entry>) -> Seq<EntryView> {
    Seq::new(entries.len(), |i: int| entries[i]@)
}

/// What each of the unpacked entries is.
pub open spec fn unpacked_views(unpacked: Seq<Unpacked>) -> Seq<UnpackedView> {
    Seq::new(unpacked.len(), |i: int| unpacked[i]@)
}

/// What each of the candidates is.
pub open spec fn candidate_views(candidates: Seq<Candidate>) -> Seq<CandidateView> {
    Seq::new(candidates.len(), |i: int| candidates[i]@)
}

/// The candidates among the entries of a directory: its regular files, in their order, each
/// under its own path.
pub open spec fn files_in(entries: Seq<EntryView>) -> Seq<CandidateView>
    decreases entries.len(),
{
    if entries.len() == 0 {
        Seq::empty()
    } else {
        let before = files_in(entries.drop_last());
        match entries.last() {
            EntryView::File(path) => before.push(CandidateView { path, original_name: None }),
            _ => before,
        }
    }
}

/// The directories among the entries of a directory, in their order.
pub open spec fn dirs_in(entries: Seq<EntryView>) -> Seq<Seq<char>>
    decreases entries.len(),
{
    if entries.len() == 0 {
        Seq::empty()
    } else {
        let before = dirs_in(entries.drop_last());
        match entries.last() {
            EntryView::Directory(path) => before.push(path),
            _ => before,
        }
    }
}

/// Why the entries of a directory that could not be read could not, in their order.
pub open spec fn unreadable_in(entries: Seq<EntryView>) -> Seq<Seq<char>>
    decreases entries.len(),
{
    if entries.len() == 0 {
        Seq::empty()
    } else {
        let before = unreadable_in(entries.drop_last());
        match entries.last() {
            EntryView::Unreadable(reason) => before.push(reason),
            _ => before,
        }
    }
}

/// The candidate that an unpacked entry gives, under the file name of the entry. An entry
/// without a file name gives none.
pub open spec fn named(unpacked: UnpackedView) -> Option<CandidateView> {
    match file_name_of(unpacked.entry) {
        Some(name) => Some(CandidateView { path: unpacked.path, original_name: Some(name) }),
        None => None,
    }
}

/// What is said of an archive entry that has no file name.
pub open spec fn nameless_message(entry: Seq<char>) -> Seq<char> {
    "No file name in archive entry "@ + entry
}

/// The candidates among the unpacked entries of an archive, in their order.
pub open spec fn named_in(unpacked: Seq<UnpackedView>) -> Seq<CandidateView>
    decreases unpacked.len(),
{
    if unpacked.len() == 0 {
        Seq::empty()
    } else {
        let before = named_in(unpacked.drop_last());
        match named(unpacked.last()) {
            Some(candidate) => before.push(candidate),
            None => before,
        }
    }
}

/// What is said of the unpacked entries that have no file name, in their order.
pub open spec fn nameless_in(unpacked: Seq<UnpackedView>) -> Seq<Seq<char>>
    decreases unpacked.len(),
{
    if unpacked.len() == 0 {
        Seq::empty()
    } else {
        let before = nameless_in(unpacked.drop_last());
        match named(unpacked.last()) {
            Some(_) => before,
            None => before.push(nameless_message(unpacked.last().entry)),
        }
    }
}

/// The photo that a candidate becomes once its capture date is known, or known to be
/// missing.
pub open spec fn photo_view(candidate: CandidateView, date: Option<CaptureDate>) -> PhotoView {
    PhotoView {
        path: candidate.path,
        original_name: candidate.original_name,
        date,
        new_path: None,
    }
}

/// Sorts the entries of a directory: its regular files become candidates, its directories
/// wait to be listed, and what could not be read becomes a warning. Anything else is left
/// out.
pub fn sort_entries(
    entries: &Vec<Entry>,
    candidates: &mut Vec<Candidate>,
    pending: &mut Vec<String>,
    warnings: &mut Vec<String>,
)
    ensures
        candidate_views(final(candidates)@) == candidate_views(old(candidates)@) + files_in(
            entry_views(entries@),
        ),
        texts(final(pending)@) == texts(old(pending)@) + dirs_in(entry_views(entries@)),
        texts(final(warnings)@) == texts(old(warnings)@) + unreadable_in(entry_views(entries@)),
{
    let ghost all = entry_views(entries@);
    let mut i: usize = 0;
    while i < entries.len()
        invariant
            i <= entries.len(),
            all == entry_views(entries@),
            candidate_views(candidates@) == candidate_views(old(candidates)@) + files_in(
                all.take(i as int),
            ),
            texts(pending@) == texts(old(pending)@) + dirs_in(all.take(i as int)),
            texts(warnings@) == texts(old(warnings)@) + unreadable_in(all.take(i as int)),
        decreases entries.len() - i,
    {
        proof {
            assert(all.take(i + 1).drop_last() =~= all.take(i as int));
        }
        let ghost candidates_before = candidates@;
        let ghost pending_before = pending@;
        let ghost warnings_before = warnings@;
        match &entries[i] {
            Entry::File(path) => {
                candidates.push(Candidate { path: path.clone(), original_name: None });
                assert(candidate_views(candidates@) =~= candidate_views(candidates_before).push(
                    CandidateView { path: path@, original_name: None },
                ));
            },
            Entry::Directory(path) => {
                pending.push(path.clone());
                assert(texts(pending@) =~= texts(pending_before).push(path@));
            },
            Entry::Other(_) => {},
            Entry::Unreadable(reason) => {
                warnings.push(reason.clone());
                assert(texts(warnings@) =~= texts(warnings_before).push(reason@));
            },
        }
        i = i + 1;
    }
    assert(all.take(entries.len() as int) =~= all);
}

/// Sorts the unpacked entries of an archive: each becomes a candidate under the file name
/// that it has in the archive, and an entry without a file name becomes a warning.
pub fn sort_unpacked(
    unpacked: &Vec<Unpacked>,
    candidates: &mut Vec<Candidate>,
    warnings: &mut Vec<String>,
)
    ensures
        candidate_views(final(candidates)@) == candidate_views(old(candidates)@) + named_in(
            unpacked_views(unpacked@),
        ),
        texts(final(warnings)@) == texts(old(warnings)@) + nameless_in(unpacked_views(unpacked@)),
{
    let ghost all = unpacked_views(unpacked@);
    let mut i: usize = 0;
    while i < unpacked.len()
        invariant
            i <= unpacked.len(),
            all == unpacked_views(unpacked@),
            candidate_views(candidates@) == candidate_views(old(candidates)@) + named_in(
                all.take(i as int),
            ),
            texts(warnings@) == texts(old(warnings)@) + nameless_in(all.take(i as int)),
        decreases unpacked.len() - i,
    {
        proof {
            assert(all.take(i + 1).drop_last() =~= all.take(i as int));
        }
        let ghost candidates_before = candidates@;
        let ghost warnings_before = warnings@;
        let one = &unpacked[i];
        match file_name(one.entry.as_str()) {
            Some(name) => {
                candidates.push(Candidate { path: one.path.clone(), original_name: Some(name) });
                assert(candidate_views(candidates@) =~= candidate_views(candidates_before).push(
                    CandidateView { path: one.path@, original_name: Some(name@) },
                ));
            },
            None => {
                let mut message = String::from_str("No file name in archive entry ");
                message.append(one.entry.as_str());
                warnings.push(message);
                assert(texts(warnings@) =~= texts(warnings_before).push(
                    nameless_message(one.entry@),
                ));
            },
        }
        i = i + 1;
    }
    assert(all.take(unpacked.len() as int) =~= all);
}

/// The photo that a candidate becomes once its capture date is known, or known to be
/// missing.
pub fn photo_of(candidate: &Candidate, date: Option<CaptureDate>) -> (photo: Photo)
    ensures
        photo@ == photo_view(candidate@, date),
{
    match &candidate.original_name {
        Some(name) => Photo::from_archive(candidate.path.clone(), name.clone(), date),
        None => Photo::new(candidate.path.clone(), date),
    }
}

/// Every regular file that a listing shows is a candidate under its own path and no other
/// name, and every candidate of a listing is one of its regular files.
pub proof fn lemma_files_are_the_candidates(entries: Seq<EntryView>)
    ensures
        forall|i: int|
            0 <= i < entries.len() ==> ((#[trigger] entries[i]) matches EntryView::File(path)
                ==> files_in(entries).contains(CandidateView { path, original_name: None })),
        forall|k: int|
            0 <= k < files_in(entries).len() ==> (#[trigger] files_in(entries)[k]).original_name
                is None && entries.contains(EntryView::File(files_in(entries)[k].path)),
        files_in(entries).len() <= entries.len(),
    decreases entries.len(),
{
    if entries.len() > 0 {
        let before = entries.drop_last();
        lemma_files_are_the_candidates(before);
        let found = files_in(entries);
        assert forall|i: int| 0 <= i < entries.len() implies ((#[trigger] entries[i]) matches EntryView::File(
            path,
        ) ==> found.contains(CandidateView { path, original_name: None })) by {
            if let EntryView::File(path) = entries[i] {
                let candidate = CandidateView { path, original_name: None };
                if i < before.len() {
                    assert(before[i] == entries[i]);
                    let k = choose|k: int|
                        0 <= k < files_in(before).len() && files_in(before)[k] == candidate;
                    assert(found[k] == candidate);
                } else {
                    assert(found[found.len() - 1] == candidate);
                }
            }
        }
        assert forall|k: int| 0 <= k < found.len() implies (#[trigger] found[k]).original_name
            is None && entries.contains(EntryView::File(found[k].path)) by {
            if k < files_in(before).len() {
                let i = choose|i: int|
                    0 <= i < before.len() && before[i] == EntryView::File(found[k].path);
                assert(entries[i] == before[i]);
            } else {
                assert(entries[entries.len() - 1] == EntryView::File(found[k].path));
            }
        }
    }
}

/// An archive entry is a candidate exactly when it has a file name, and then it is filed
/// under that name, whatever directories led to it in the archive and whatever its
/// temporary file is called.
pub proof fn lemma_entry_keeps_its_name(unpacked: UnpackedView)
    ensures
        named(unpacked) is Some <==> file_name_of(unpacked.entry) is Some,
        named(unpacked) matches Some(candidate) ==> candidate.path == unpacked.path
            && candidate.original_name == file_name_of(unpacked.entry),
{
}

} // verus!
