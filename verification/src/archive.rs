//! The archive extractor: reads a ZIP package that lies in memory and plans
//! what is to be written where.
//!
//! The package is parsed and decompressed by the `zip` crate. Which entries
//! are written, in which order and as what, is decided here; the caller
//! carries the plan out below the destination directory.

use std::io::Cursor;
use vstd::prelude::*;
use vstd::string::*;
use zip::result::ZipError;
use zip::ZipArchive;

use crate::error::{AppError, ErrorKind};

verus! {

/// `zip::ZipArchive`, an open package, as a type whose inside is not looked at.
#[verifier::external_type_specification]
#[verifier::external_body]
#[verifier::reject_recursive_types(R)]
pub struct ExZipArchive<R>(ZipArchive<R>);

/// `std::io::Cursor`, the reader over bytes in memory, as a type whose
/// inside is not looked at.
#[verifier::external_type_specification]
#[verifier::external_body]
#[verifier::reject_recursive_types(T)]
pub struct ExCursor<T>(Cursor<T>);

/// `zip::result::ZipError`, as a type whose inside is not looked at.
#[verifier::external_type_specification]
#[verifier::external_body]
pub struct ExZipError(ZipError);

/// What the central directory of a package says of one entry.
#[derive(Debug, PartialEq, Eq)]
pub struct EntryHead {
    /// The stored path as a path below the destination, a root or drive at
    /// its start left out; `None` where the stored path climbs out of the
    /// destination, names a root or drive after its start, or holds a NUL.
    /// The names of the path are joined by the separator of the platform
    /// that the library runs on.
    pub enclosed: Option<String>,
    /// Whether the entry is a directory.
    pub is_dir: bool,
    /// The Unix file mode that was stored with the entry, if one was.
    pub unix_mode: Option<u32>,
}

/// What an [`EntryHead`] stands for in contracts.
pub struct HeadView {
    pub enclosed: Option<Seq<char>>,
    pub is_dir: bool,
    pub unix_mode: Option<u32>,
}

impl DeepView for EntryHead {
    type V = HeadView;

    open spec fn deep_view(&self) -> HeadView {
        HeadView {
            enclosed: self.enclosed.deep_view(),
            is_dir: self.is_dir,
            unix_mode: self.unix_mode,
        }
    }
}

/// One entry of a package: its head and, for a file that is to be written,
/// its decompressed bytes.
#[derive(Debug, PartialEq, Eq)]
pub struct ArchiveEntry {
    pub head: EntryHead,
    pub data: Vec<u8>,
}

/// What an [`ArchiveEntry`] stands for in contracts.
pub struct EntryView {
    pub head: HeadView,
    pub data: Seq<u8>,
}

impl DeepView for ArchiveEntry {
    type V = EntryView;

    open spec fn deep_view(&self) -> EntryView {
        EntryView { head: self.head.deep_view(), data: self.data@ }
    }
}

/// One step of an extraction. Paths are relative to the destination.
#[derive(Debug, PartialEq, Eq)]
pub enum ExtractStep {
    /// Create the directory, with the directories above it.
    CreateDirectory { path: String },
    /// Make sure that the directory of the file exists, write the bytes to
    /// the file and, where the platform knows file modes, apply the mode.
    WriteFile { path: String, data: Vec<u8>, unix_mode: Option<u32> },
}

/// What an [`ExtractStep`] stands for in contracts.
pub enum StepView {
    CreateDirectory { path: Seq<char> },
    WriteFile { path: Seq<char>, data: Seq<u8>, unix_mode: Option<u32> },
}

impl DeepView for ExtractStep {
    type V = StepView;

    open spec fn deep_view(&self) -> StepView {
        match self {
            ExtractStep::CreateDirectory { path } => StepView::CreateDirectory { path: path@ },
            ExtractStep::WriteFile { path, data, unix_mode } => StepView::WriteFile {
                path: path@,
                data: data@,
                unix_mode: *unix_mode,
            },
        }
    }
}

/// What a `zip::ZipArchive` over bytes in memory holds: the heads of its
/// entries, in stored order. The safe path of a head is written with the
/// separator of the platform that the library runs on.
pub uninterp spec fn archive_heads(archive: ZipArchive<Cursor<Vec<u8>>>) -> Seq<HeadView>;

/// What a `zip::ZipArchive` over bytes in memory holds besides the heads:
/// for each entry, in stored order, the bytes that `by_index` and a read to
/// the end give for it, or `None` where the entry does not open or its
/// bytes do not decompress to their end.
pub uninterp spec fn archive_contents(archive: ZipArchive<Cursor<Vec<u8>>>) -> Seq<
    Option<Seq<u8>>,
>;

/// What `ZipArchive::new` makes of `bytes`: the heads of the entries of the
/// package, in stored order, or `None` where the bytes do not open as a
/// package. The safe path of a head is written with the separator of the
/// platform that the library runs on.
pub uninterp spec fn package_heads(bytes: Seq<u8>) -> Option<Seq<HeadView>>;

/// The contents of the entries of the package that `ZipArchive::new` makes
/// of `bytes`, as [`archive_contents`] gives them for the open package.
pub uninterp spec fn package_contents(bytes: Seq<u8>) -> Seq<Option<Seq<u8>>>;

/// The bytes of the entry are needed: it is a file with a safe path.
pub open spec fn is_written(head: HeadView) -> bool {
    head.enclosed is Some && !head.is_dir
}

/// The step for one entry: none for an entry without a safe path, the
/// creation of a directory for a directory, the writing of a file otherwise.
pub open spec fn step_for(entry: EntryView) -> Option<StepView> {
    match entry.head.enclosed {
        None => None,
        Some(path) => if entry.head.is_dir {
            Some(StepView::CreateDirectory { path })
        } else {
            Some(
                StepView::WriteFile { path, data: entry.data, unix_mode: entry.head.unix_mode },
            )
        },
    }
}

/// The steps for the entries `entries`: the step of each entry that has
/// one, in stored order.
pub open spec fn planned(entries: Seq<EntryView>) -> Seq<StepView>
    decreases entries.len(),
{
    if entries.len() == 0 {
        Seq::empty()
    } else {
        match step_for(entries.last()) {
            Some(step) => planned(entries.drop_last()).push(step),
            None => planned(entries.drop_last()),
        }
    }
}

/// Calls `ZipArchive::new` on a cursor over `bytes`. Whether the package
/// opens, and with which entries and contents, is a function of the bytes
/// alone, named [`package_heads`] and [`package_contents`].
#[verifier::external_body]
fn open_archive(bytes: Vec<u8>) -> (opened: Result<ZipArchive<Cursor<Vec<u8>>>, ZipError>)
    ensures
        match opened {
            Ok(archive) => {
                &&& package_heads(bytes@) == Some(archive_heads(archive))
                &&& package_contents(bytes@) == archive_contents(archive)
            },
            Err(_) => package_heads(bytes@) is None,
        },
{
    ZipArchive::new(Cursor::new(bytes))
}

/// Calls `ZipArchive::len`: the number of entries of the package.
#[verifier::external_body]
fn entry_count(archive: &ZipArchive<Cursor<Vec<u8>>>) -> (count: usize)
    ensures
        count == archive_heads(*archive).len(),
{
    archive.len()
}

/// Calls `ZipArchive::by_index_data` and reads the head of the entry off
/// what comes back: the stored path as `enclosed_name` gives it, `is_dir`
/// and `unix_mode`. An index below the number of entries gives the head of
/// that entry; any other index is an error.
#[verifier::external_body]
fn entry_head(archive: &ZipArchive<Cursor<Vec<u8>>>, index: usize) -> (head: Result<
    EntryHead,
    ZipError,
>)
    ensures
        match head {
            Ok(h) => index < archive_heads(*archive).len() && h.deep_view() == archive_heads(
                *archive,
            )[index as int],
            Err(_) => index >= archive_heads(*archive).len(),
        },
{
    let entry = archive.by_index_data(index)?;
    Ok(
        EntryHead {
            enclosed: entry.enclosed_name().map(|path| path.to_string_lossy().into_owned()),
            is_dir: entry.is_dir(),
            unix_mode: entry.unix_mode(),
        },
    )
}

/// Calls `ZipArchive::by_index` and reads what comes back to its end; a
/// failure of the read comes back as the `ZipError` that `zip` makes of it.
/// What comes of the call depends on the package and the index alone: the
/// bytes are those that [`archive_contents`] names for the entry, and a
/// failure means that there is no such entry or that it has no contents.
/// The package holds the same entries and contents afterwards.
#[verifier::external_body]
fn entry_bytes(archive: &mut ZipArchive<Cursor<Vec<u8>>>, index: usize) -> (data: Result<
    Vec<u8>,
    ZipError,
>)
    ensures
        archive_heads(*final(archive)) == archive_heads(*old(archive)),
        archive_contents(*final(archive)) == archive_contents(*old(archive)),
        match data {
            Ok(bytes) => archive_contents(*old(archive))[index as int] == Some(bytes@),
            Err(_) => index >= archive_heads(*old(archive)).len() || archive_contents(
                *old(archive),
            )[index as int] is None,
        },
{
    let mut file = archive.by_index(index)?;
    let mut data = Vec::new();
    std::io::Read::read_to_end(&mut file, &mut data)?;
    Ok(data)
}

/// Calls `to_string` on the error: the text under which it is displayed.
#[verifier::external_body]
fn zip_error_text(error: &ZipError) -> (text: String) {
    error.to_string()
}

/// Every file of the package that is to be written has contents.
pub open spec fn is_extractable(heads: Seq<HeadView>, contents: Seq<Option<Seq<u8>>>) -> bool {
    forall|i: int| 0 <= i < heads.len() && is_written(#[trigger] heads[i]) ==> contents[i] is Some
}

/// The entry that is handed out for a head: with its contents where it is
/// a file that is to be written, with no bytes otherwise.
pub open spec fn entry_of(head: HeadView, content: Option<Seq<u8>>) -> EntryView {
    EntryView {
        head,
        data: match content {
            Some(bytes) => if is_written(head) {
                bytes
            } else {
                Seq::empty()
            },
            None => Seq::empty(),
        },
    }
}

/// The entries of a package with the heads `heads` and the contents
/// `contents`, in stored order.
pub open spec fn entries_of(heads: Seq<HeadView>, contents: Seq<Option<Seq<u8>>>) -> Seq<
    EntryView,
> {
    Seq::new(heads.len(), |i: int| entry_of(heads[i], contents[i]))
}

/// What the reading of the package that `bytes` hold comes to: its entries
/// where it opens and every file that is to be written has contents, and
/// `None` otherwise.
pub open spec fn package_entries(bytes: Seq<u8>) -> Option<Seq<EntryView>> {
    match package_heads(bytes) {
        Some(heads) => if is_extractable(heads, package_contents(bytes)) {
            Some(entries_of(heads, package_contents(bytes)))
        } else {
            None
        },
        None => None,
    }
}

/// Opens the package that `bytes` hold and reads its entries in stored
/// order. The reading succeeds exactly where the package opens and every
/// file that is to be written has contents; a package without entries is
/// read as no entries. The bytes of an entry are decompressed only where
/// they are to be written: an entry without a safe path is never read, so
/// that it cannot fail the others. Every failure is one of the archive: a
/// package that does not open, an entry that cannot be opened, bytes that
/// do not decompress to their end.
pub fn read_entries(bytes: Vec<u8>) -> (outcome: Result<Vec<ArchiveEntry>, AppError>)
    ensures
        match outcome {
            Ok(entries) => package_entries(bytes@) == Some(entries.deep_view()),
            Err(error) => package_entries(bytes@) is None && error@.kind == ErrorKind::Archive,
        },
{
    let mut archive = match open_archive(bytes) {
        Ok(archive) => archive,
        Err(error) => {
            return Err(AppError::Zip(zip_error_text(&error)));
        },
    };
    let ghost heads = archive_heads(archive);
    let ghost contents = archive_contents(archive);
    let count = entry_count(&archive);
    let mut entries: Vec<ArchiveEntry> = Vec::new();
    let mut index: usize = 0;
    assert(entries.deep_view() =~= entries_of(heads, contents).take(0));
    while index < count
        invariant
            index <= count,
            count == heads.len(),
            archive_heads(archive) == heads,
            archive_contents(archive) == contents,
            package_heads(bytes@) == Some(heads),
            package_contents(bytes@) == contents,
            entries.len() == index,
            entries.deep_view() == entries_of(heads, contents).take(index as int),
            forall|i: int| 0 <= i < index && is_written(#[trigger] heads[i]) ==> contents[i] is Some,
        decreases count - index,
    {
        let head = match entry_head(&archive, index) {
            Ok(head) => head,
            Err(error) => {
                return Err(AppError::Zip(zip_error_text(&error)));
            },
        };
        let wanted = head.enclosed.is_some() && !head.is_dir;
        assert(wanted == is_written(heads[index as int]));
        let data = if wanted {
            match entry_bytes(&mut archive, index) {
                Ok(data) => data,
                Err(error) => {
                    return Err(AppError::Zip(zip_error_text(&error)));
                },
            }
        } else {
            Vec::new()
        };
        let ghost before = entries.deep_view();
        let entry = ArchiveEntry { head, data };
        entries.push(entry);
        proof {
            assert(entry.deep_view() == entry_of(heads[index as int], contents[index as int]));
            assert(entries.deep_view() =~= before.push(entry.deep_view()));
            assert(entries.deep_view() =~= entries_of(heads, contents).take(index + 1));
        }
        index += 1;
    }
    assert(entries_of(heads, contents).take(count as int) =~= entries_of(heads, contents));
    Ok(entries)
}

/// Plans the extraction of `entries`: each entry with a safe path gets its
/// step, in stored order; an entry without one is passed over.
pub fn plan_extraction(entries: Vec<ArchiveEntry>) -> (steps: Vec<ExtractStep>)
    ensures
        steps.deep_view() == planned(entries.deep_view()),
{
    let ghost all = entries.deep_view();
    let mut steps: Vec<ExtractStep> = Vec::new();
    for entry in it: entries
        invariant
            it.seq() == entries@,
            all == entries.deep_view(),
            steps.deep_view() == planned(all.take(it.index())),
    {
        let ghost at = it.index();
        proof {
            assert(all.take(at + 1).drop_last() =~= all.take(at));
        }
        let ArchiveEntry { head, data } = entry;
        let EntryHead { enclosed, is_dir, unix_mode } = head;
        match enclosed {
            None => {},
            Some(path) => {
                let step = if is_dir {
                    ExtractStep::CreateDirectory { path }
                } else {
                    ExtractStep::WriteFile { path, data, unix_mode }
                };
                steps.push(step);
            },
        }
    }
    assert(all.take(all.len() as int) =~= all);
    steps
}

/// Reads the package that `archive` holds and plans its extraction. The
/// extraction is planned exactly where the package opens and every file
/// that is to be written has contents, and then the plan is the one that
/// [`planned`] gives for the entries of the package: a package without
/// entries has the empty plan. Every failure is one of the archive.
pub fn extract_zip(archive: Vec<u8>) -> (outcome: Result<Vec<ExtractStep>, AppError>)
    ensures
        match outcome {
            Ok(steps) => match package_entries(archive@) {
                Some(entries) => steps.deep_view() == planned(entries),
                None => false,
            },
            Err(error) => package_entries(archive@) is None && error@.kind == ErrorKind::Archive,
        },
{
    match read_entries(archive) {
        Ok(entries) => Ok(plan_extraction(entries)),
        Err(error) => Err(error),
    }
}

/// A package that opens with no entries is read, and its plan is empty.
pub proof fn law_empty_package_has_the_empty_plan(bytes: Seq<u8>)
    ensures
        package_heads(bytes) == Some(Seq::<HeadView>::empty()) ==> package_entries(bytes) == Some(
            Seq::<EntryView>::empty(),
        ),
        planned(Seq::<EntryView>::empty()) == Seq::<StepView>::empty(),
{
    assert(entries_of(Seq::<HeadView>::empty(), package_contents(bytes)) =~= Seq::<
        EntryView,
    >::empty());
}

/// Where a package is read, each file that is to be written is handed out
/// with the contents of its entry, byte for byte, and every other entry
/// with no bytes; an entry that is not to be written never stands in the
/// way of the reading.
pub proof fn law_entries_carry_their_contents(
    heads: Seq<HeadView>,
    contents: Seq<Option<Seq<u8>>>,
    i: int,
)
    requires
        0 <= i < heads.len(),
        is_extractable(heads, contents),
    ensures
        entries_of(heads, contents)[i].head == heads[i],
        is_written(heads[i]) ==> contents[i] == Some(entries_of(heads, contents)[i].data),
        !is_written(heads[i]) ==> entries_of(heads, contents)[i].data.len() == 0,
{
}

/// An entry without a safe path contributes nothing to the plan and takes
/// nothing from it: the plan is that of the other entries alone.
pub proof fn law_unsafe_entries_are_skipped(entries: Seq<EntryView>, at: int)
    requires
        0 <= at < entries.len(),
        entries[at].head.enclosed is None,
    ensures
        planned(entries) == planned(entries.remove(at)),
    decreases entries.len(),
{
    if at == entries.len() - 1 {
        assert(entries.remove(at) =~= entries.drop_last());
    } else {
        law_unsafe_entries_are_skipped(entries.drop_last(), at);
        assert(entries.remove(at).drop_last() =~= entries.drop_last().remove(at));
    }
}

/// Every entry with a safe path has its step in the plan, and the steps
/// stand in the order of their entries: the plan for a package is the plan
/// for its first part followed by the plan for the rest.
pub proof fn law_plan_keeps_stored_order(first: Seq<EntryView>, rest: Seq<EntryView>)
    ensures
        planned(first + rest) == planned(first) + planned(rest),
    decreases rest.len(),
{
    if rest.len() == 0 {
        assert(planned(first) + planned(rest) =~= planned(first));
    } else {
        law_plan_keeps_stored_order(first, rest.drop_last());
        assert((first + rest).drop_last() =~= first + rest.drop_last());
    }
}

/// A file that is written is written with the bytes of its entry, under
/// the safe path of its entry, with the mode of its entry.
pub proof fn law_files_keep_their_bytes(entry: EntryView)
    requires
        is_written(entry.head),
    ensures
        planned(seq![entry]) == seq![
            StepView::WriteFile {
                path: entry.head.enclosed->0,
                data: entry.data,
                unix_mode: entry.head.unix_mode,
            },
        ],
{
    assert(planned(seq![entry].drop_last()) =~= Seq::<StepView>::empty());
}

} // verus!
