//! The container as an archive: its entries by name.
use vstd::prelude::*;
use crate::error::{UnzipError, UnzipResult};

verus! {

#[verifier::external_type_specification]
#[verifier::external_body]
#[verifier::reject_recursive_types(R)]
pub struct ExZipArchive<R>(zip::ZipArchive<R>);

/// One entry of an archive: its name and its decompressed content.
#[derive(Debug, Clone)]
pub struct ArchiveFile {
    pub name: String,
    pub data: Vec<u8>,
}

impl View for ArchiveFile {
    type V = (Seq<char>, Seq<u8>);

    open spec fn view(&self) -> (Seq<char>, Seq<u8>) {
        (self.name@, self.data@)
    }
}

/// The entries of an archive as plain values: of each its name and content.
pub type Entries = Seq<(Seq<char>, Seq<u8>)>;

/// The entries of a list as plain values.
pub open spec fn listing(files: Seq<ArchiveFile>) -> Entries {
    Seq::new(files.len(), |i: int| files[i]@)
}

/// What an open archive holds: for each index of its directory the name and
/// content of the entry, or the error with which reading the entry fails.
pub uninterp spec fn archive_entries(archive: zip::ZipArchive<std::io::Cursor<Vec<u8>>>) -> Seq<
    Result<(Seq<char>, Seq<u8>), zip::result::ZipError>,
>;

/// What the archive reader finds in a container: the entries of its
/// directory, or the error with which it refuses the container.
pub uninterp spec fn zip_directory(data: Seq<u8>) -> Result<
    Seq<Result<(Seq<char>, Seq<u8>), zip::result::ZipError>>,
    zip::result::ZipError,
>;

/// `zip::ZipArchive::new` on an in-memory copy of `data`. The contract names
/// the outcome `zip_directory`; it promises nothing about which containers
/// are accepted.
#[verifier::external_body]
fn open_archive(data: &[u8]) -> (r: Result<
    zip::ZipArchive<std::io::Cursor<Vec<u8>>>,
    zip::result::ZipError,
>)
    ensures
        match r {
            Ok(archive) => zip_directory(data@) == Ok::<
                Seq<Result<(Seq<char>, Seq<u8>), zip::result::ZipError>>,
                zip::result::ZipError,
            >(archive_entries(archive)),
            Err(e) => zip_directory(data@) == Err::<
                Seq<Result<(Seq<char>, Seq<u8>), zip::result::ZipError>>,
                zip::result::ZipError,
            >(e),
        },
{
    zip::ZipArchive::new(std::io::Cursor::new(data.to_vec()))
}

/// `zip::ZipArchive::len`: the number of entries in the directory.
#[verifier::external_body]
fn entry_count(archive: &zip::ZipArchive<std::io::Cursor<Vec<u8>>>) -> (n: usize)
    ensures
        n == archive_entries(*archive).len(),
{
    archive.len()
}

/// `zip::ZipArchive::by_index`, then the entry's content through
/// `std::io::Read::read_to_end` and its name through `name`. The contract
/// claims that the archive holds the same entries afterwards, that an index
/// outside the directory fails, and that an index inside it gives what
/// `archive_entries` has there: the entry, or the error.
#[verifier::external_body]
fn read_entry(archive: &mut zip::ZipArchive<std::io::Cursor<Vec<u8>>>, index: usize) -> (r: Result<
    ArchiveFile,
    zip::result::ZipError,
>)
    ensures
        archive_entries(*final(archive)) == archive_entries(*old(archive)),
        index >= archive_entries(*old(archive)).len() ==> r is Err,
        index < archive_entries(*old(archive)).len() ==> match r {
            Ok(file) => archive_entries(*old(archive))[index as int] == Ok::<
                (Seq<char>, Seq<u8>),
                zip::result::ZipError,
            >(file@),
            Err(e) => archive_entries(*old(archive))[index as int] == Err::<
                (Seq<char>, Seq<u8>),
                zip::result::ZipError,
            >(e),
        },
{
    let mut file = archive.by_index(index)?;
    let mut data = Vec::new();
    std::io::Read::read_to_end(&mut file, &mut data).map_err(zip::result::ZipError::Io)?;
    let name = file.name()?.into_owned();
    Ok(ArchiveFile { name, data })
}

/// The first `n` entries of a directory, read in order, or the error of the
/// first among them that cannot be read.
pub open spec fn read_first(
    entries: Seq<Result<(Seq<char>, Seq<u8>), zip::result::ZipError>>,
    n: nat,
) -> Result<Entries, zip::result::ZipError>
    decreases n,
{
    if n == 0 {
        Ok(Seq::empty())
    } else {
        match read_first(entries, (n - 1) as nat) {
            Err(e) => Err(e),
            Ok(head) => match entries[n - 1] {
                Ok(entry) => Ok(head.push(entry)),
                Err(e) => Err(e),
            },
        }
    }
}

/// Once reading the first `m` entries fails, reading more of them fails with
/// the same error.
proof fn lemma_first_error_stays(
    entries: Seq<Result<(Seq<char>, Seq<u8>), zip::result::ZipError>>,
    m: nat,
    n: nat,
)
    requires
        m <= n,
        read_first(entries, m) is Err,
    ensures
        read_first(entries, n) == read_first(entries, m),
    decreases n,
{
    if m < n {
        lemma_first_error_stays(entries, m, (n - 1) as nat);
    }
}

/// The entries of a container in the order of its directory, or the error
/// with which the container, or the first entry that cannot be read, is
/// refused.
pub open spec fn unzipped(data: Seq<u8>) -> Result<Entries, zip::result::ZipError> {
    match zip_directory(data) {
        Ok(entries) => read_first(entries, entries.len()),
        Err(e) => Err(e),
    }
}

/// Reads every entry of a container into memory.
pub fn unzip(file_data: &[u8]) -> (r: UnzipResult<Vec<ArchiveFile>>)
    ensures
        match unzipped(file_data@) {
            Ok(entries) => r is Ok && listing(r->Ok_0@) == entries,
            Err(e) => r == Err::<Vec<ArchiveFile>, UnzipError>(UnzipError::Unzip(e)),
        },
{
    let mut archive = match open_archive(file_data) {
        Ok(a) => a,
        Err(e) => {
            return Err(UnzipError::Unzip(e));
        },
    };
    let ghost entries = archive_entries(archive);
    let n = entry_count(&archive);
    let mut files: Vec<ArchiveFile> = Vec::new();
    let mut i: usize = 0;
    assert(listing(files@) =~= Seq::empty());
    while i < n
        invariant
            i <= n,
            n == entries.len(),
            archive_entries(archive) == entries,
            zip_directory(file_data@) == Ok::<
                Seq<Result<(Seq<char>, Seq<u8>), zip::result::ZipError>>,
                zip::result::ZipError,
            >(entries),
            read_first(entries, i as nat) == Ok::<Entries, zip::result::ZipError>(
                listing(files@),
            ),
        decreases n - i,
    {
        let ghost before = listing(files@);
        match read_entry(&mut archive, i) {
            Ok(f) => {
                files.push(f);
                assert(listing(files@) =~= before.push(f@));
            },
            Err(e) => {
                proof {
                    lemma_first_error_stays(entries, (i + 1) as nat, n as nat);
                }
                return Err(UnzipError::Unzip(e));
            },
        }
        i = i + 1;
    }
    Ok(files)
}

/// The content of the entry called `name`: that of the last such entry,
/// since a later entry replaces an earlier one of the same name.
pub open spec fn find_file(files: Entries, name: Seq<char>) -> Option<Seq<u8>>
    decreases files.len(),
{
    if files.len() == 0 {
        None
    } else if files.last().0 == name {
        Some(files.last().1)
    } else {
        find_file(files.drop_last(), name)
    }
}

/// Finds the content of the entry called `name`.
pub fn find<'a>(files: &'a Vec<ArchiveFile>, name: &String) -> (r: Option<&'a Vec<u8>>)
    ensures
        match find_file(listing(files@), name@) {
            Some(data) => r is Some && r->Some_0@ == data,
            None => r is None,
        },
{
    let ghost all = listing(files@);
    let mut i: usize = files.len();
    assert(all.subrange(0, i as int) =~= all);
    while i > 0
        invariant
            i <= files.len(),
            all == listing(files@),
            find_file(all, name@) == find_file(all.subrange(0, i as int), name@),
        decreases i,
    {
        let ghost head = all.subrange(0, i as int);
        assert(head.last() == files@[i - 1]@);
        assert(head.drop_last() =~= all.subrange(0, i - 1));
        if files[i - 1].name == *name {
            return Some(&files[i - 1].data);
        }
        i = i - 1;
    }
    assert(all.subrange(0, 0).len() == 0);
    None
}

} // verus!
