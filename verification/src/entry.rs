use vstd::prelude::*;

verus! {

/// What kind of file a directory entry is, where it is known.
#[derive(Clone, Copy, Debug)]
pub enum EntryKind {
    Directory,
    File,
    Other,
}

/// What must be read to tell whether an entry is empty.
#[derive(Clone, Copy, Debug)]
pub enum EntryProbe {
    /// Open the directory and ask for its first entry.
    ListDirectory,
    /// Read the file's metadata for its length.
    ReadLength,
    /// Nothing: the entry does not count as empty.
    Nothing,
}

/// What was read of an entry.
#[derive(Clone, Copy, Debug)]
pub enum EntryContents {
    /// The directory listing: `Some(has_entry)` where the directory could be opened, with
    /// whether the listing yielded anything (an unreadable entry counts), `None` where it
    /// could not be opened.
    Listing(Option<bool>),
    /// The file length where the metadata could be read, `None` where it could not.
    Length(Option<u64>),
    /// Nothing was read.
    Unread,
}

/// The probe that the kind of an entry calls for.
pub open spec fn probe_for(kind: Option<EntryKind>) -> EntryProbe {
    match kind {
        Some(EntryKind::Directory) => EntryProbe::ListDirectory,
        Some(EntryKind::File) => EntryProbe::ReadLength,
        _ => EntryProbe::Nothing,
    }
}

/// Whether an entry counts as empty: a directory whose listing could be opened and yields
/// nothing, or a file whose length could be read and is zero. Anything else is not empty.
pub open spec fn entry_is_empty(kind: Option<EntryKind>, contents: EntryContents) -> bool {
    match kind {
        Some(EntryKind::Directory) => contents == EntryContents::Listing(Some(false)),
        Some(EntryKind::File) => contents == EntryContents::Length(Some(0)),
        _ => false,
    }
}

/// Whether `contents` is what `probe` reads.
pub open spec fn answers(contents: EntryContents, probe: EntryProbe) -> bool {
    match probe {
        EntryProbe::ListDirectory => contents is Listing,
        EntryProbe::ReadLength => contents is Length,
        EntryProbe::Nothing => contents is Unread,
    }
}

/// Tells what has to be read of an entry of the given kind before [`is_empty`] can decide.
pub fn emptiness_probe(kind: Option<EntryKind>) -> (res: EntryProbe)
    ensures
        res == probe_for(kind),
{
    match kind {
        Some(EntryKind::Directory) => EntryProbe::ListDirectory,
        Some(EntryKind::File) => EntryProbe::ReadLength,
        _ => EntryProbe::Nothing,
    }
}

/// Whether an entry is empty, from its kind and what was read of it.
pub fn is_empty(kind: Option<EntryKind>, contents: EntryContents) -> (res: bool)
    ensures
        res == entry_is_empty(kind, contents),
        kind == Some(EntryKind::File) ==> (contents matches EntryContents::Length(Some(n)) ==> (res
            <==> n == 0)),
        kind == Some(EntryKind::Directory) ==> (contents matches EntryContents::Listing(
            Some(has_entry),
        ) ==> (res <==> !has_entry)),
        res ==> (kind == Some(EntryKind::File) && contents == EntryContents::Length(Some(0))) || (
        kind == Some(EntryKind::Directory) && contents == EntryContents::Listing(Some(false))),
{
    match kind {
        Some(EntryKind::Directory) => match contents {
            EntryContents::Listing(Some(has_entry)) => !has_entry,
            _ => false,
        },
        Some(EntryKind::File) => match contents {
            EntryContents::Length(Some(len)) => len == 0,
            _ => false,
        },
        _ => false,
    }
}

/// A file counts as empty exactly when its length could be read and is zero; a directory
/// exactly when it could be listed and the listing yields nothing; nothing else is empty.
pub proof fn lemma_empty_means_nothing_inside(
    kind: Option<EntryKind>,
    contents: EntryContents,
    length: u64,
    has_entry: bool,
)
    ensures
        entry_is_empty(Some(EntryKind::File), EntryContents::Length(Some(length))) <==> length
            == 0,
        entry_is_empty(Some(EntryKind::Directory), EntryContents::Listing(Some(has_entry)))
            <==> !has_entry,
        entry_is_empty(kind, contents) ==> (kind == Some(EntryKind::File) && contents
            == EntryContents::Length(Some(0))) || (kind == Some(EntryKind::Directory) && contents
            == EntryContents::Listing(Some(false))),
{
}

/// An entry only counts as empty on the strength of what its probe reads: where the
/// contents are not the answer to the probe that its kind calls for, it is not empty.
pub proof fn lemma_empty_only_from_its_probe(kind: Option<EntryKind>, contents: EntryContents)
    ensures
        entry_is_empty(kind, contents) ==> answers(contents, probe_for(kind)),
        probe_for(kind) is Nothing ==> !entry_is_empty(kind, contents),
{
}

} // verus!
