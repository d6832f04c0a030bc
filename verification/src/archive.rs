//! The release archive: a zip file with the rclone binary somewhere inside.
use std::io::Cursor;
use std::io::Read;

use vstd::prelude::*;
use vstd::string::*;

use crate::error::{labelled, Error};
use crate::text::{chars_of, decimal_text, ends_with};

verus! {

/// `std::io::Cursor`, the reader over bytes in memory that the archive reads from.
#[verifier::external_type_specification]
#[verifier::external_body]
#[verifier::reject_recursive_types(T)]
pub struct ExCursor<T>(std::io::Cursor<T>);

/// `zip::ZipArchive`, an opened zip file.
#[verifier::external_type_specification]
#[verifier::external_body]
#[verifier::reject_recursive_types(R)]
pub struct ExZipArchive<R>(zip::ZipArchive<R>);

/// The bytes that an archive was opened on.
pub uninterp spec fn archive_bytes(archive: zip::ZipArchive<Cursor<Vec<u8>>>) -> Seq<u8>;

/// What opening `data` as a zip file gives: the number of entries, or the reason why
/// it is no zip file that can be read.
pub uninterp spec fn zip_directory(data: Seq<u8>) -> Result<nat, Seq<char>>;

/// What looking up entry `index` of the zip file `data` gives: its name, or the
/// reason why it cannot be read.
pub uninterp spec fn zip_entry_name(data: Seq<u8>, index: nat) -> Result<Seq<char>, Seq<char>>;

/// What unpacking entry `index` of the zip file `data` gives: its contents, or the
/// reason why it cannot be unpacked.
pub uninterp spec fn zip_entry_contents(data: Seq<u8>, index: nat) -> Result<Seq<u8>, Seq<char>>;

/// `name` is the name of a directory in a zip file.
pub open spec fn names_directory(name: Seq<char>) -> bool {
    name.len() > 0 && (name.last() == '/' || name.last() == '\\')
}

/// What is known of an entry before it is unpacked.
#[derive(Debug)]
pub struct Entry {
    pub name: String,
    pub is_dir: bool,
}

/// An [`Entry`] with its name as a character sequence.
pub struct EntryView {
    pub name: Seq<char>,
    pub is_dir: bool,
}

/// The view of one looked-up entry.
pub open spec fn entry_view(entry: Result<Entry, String>) -> Result<EntryView, Seq<char>> {
    match entry {
        Ok(e) => Ok(EntryView { name: e.name@, is_dir: e.is_dir }),
        Err(reason) => Err(reason@),
    }
}

/// The entry that a looked-up name belongs to.
pub open spec fn entry_named(name: Result<Seq<char>, Seq<char>>) -> Result<EntryView, Seq<char>> {
    match name {
        Ok(name) => Ok(EntryView { name, is_dir: names_directory(name) }),
        Err(reason) => Err(reason),
    }
}

/// The view of what unpacking an entry gives.
pub open spec fn contents_view(contents: Result<Vec<u8>, String>) -> Result<Seq<u8>, Seq<char>> {
    match contents {
        Ok(bytes) => Ok(bytes@),
        Err(reason) => Err(reason@),
    }
}

/// The view of a number of entries.
pub open spec fn count_view(count: usize) -> Result<nat, Seq<char>> {
    Ok(count as nat)
}

/// `zip::ZipArchive::new` opens a zip file by its central directory. The contract
/// names the outcome, which is determined by the bytes.
#[verifier::external_body]
fn open_archive(data: Vec<u8>) -> (archive: Result<zip::ZipArchive<Cursor<Vec<u8>>>, String>)
    ensures
        archive matches Ok(a) ==> archive_bytes(a) == data@ && zip_directory(data@) is Ok,
        archive matches Err(reason) ==> zip_directory(data@) is Err && zip_directory(data@)->Err_0
            == reason@,
{
    match zip::ZipArchive::new(Cursor::new(data)) {
        Ok(archive) => Ok(archive),
        Err(e) => Err(e.to_string()),
    }
}

/// `zip::ZipArchive::len` counts the entries of an opened zip file.
#[verifier::external_body]
fn archive_len(archive: &zip::ZipArchive<Cursor<Vec<u8>>>) -> (count: usize)
    ensures
        zip_directory(archive_bytes(*archive)) == count_view(count),
{
    archive.len()
}

/// `zip::ZipArchive::by_index` looks an entry up, and `ZipFile::name` and
/// `ZipFile::is_dir` describe it. The contract names the outcome, which is determined
/// by the bytes and the index, and says which names are those of directories.
#[verifier::external_body]
fn entry_at(archive: &mut zip::ZipArchive<Cursor<Vec<u8>>>, index: usize) -> (entry: Result<
    Entry,
    String,
>)
    ensures
        archive_bytes(*final(archive)) == archive_bytes(*old(archive)),
        entry_view(entry) == entry_named(
            zip_entry_name(archive_bytes(*old(archive)), index as nat),
        ),
{
    match archive.by_index(index) {
        Ok(file) => Ok(Entry { name: file.name().to_string(), is_dir: file.is_dir() }),
        Err(e) => Err(e.to_string()),
    }
}

/// `zip::ZipArchive::by_index` looks an entry up and `read_to_end` on it unpacks the
/// whole of it. The contract names the outcome, which is determined by the bytes and
/// the index.
#[verifier::external_body]
fn contents_at(archive: &mut zip::ZipArchive<Cursor<Vec<u8>>>, index: usize) -> (contents: Result<
    Vec<u8>,
    String,
>)
    ensures
        archive_bytes(*final(archive)) == archive_bytes(*old(archive)),
        contents_view(contents) == zip_entry_contents(archive_bytes(*old(archive)), index as nat),
{
    let mut contents = Vec::new();
    let mut file = match archive.by_index(index) {
        Ok(file) => file,
        Err(e) => return Err(e.to_string()),
    };
    match file.read_to_end(&mut contents) {
        Ok(_) => Ok(contents),
        Err(e) => Err(e.to_string()),
    }
}

/// The entries of the zip file `data`, as they are looked up in order.
pub open spec fn zip_entries(data: Seq<u8>) -> Seq<Result<EntryView, Seq<char>>>
    recommends
        zip_directory(data) is Ok,
{
    Seq::new(zip_directory(data)->Ok_0, |i: int| entry_named(zip_entry_name(data, i as nat)))
}

/// The entry is a file whose path ends in `binary`.
pub open spec fn is_binary(entry: EntryView, binary: Seq<char>) -> bool {
    binary.is_suffix_of(entry.name) && !entry.is_dir
}

/// The first entry from `from` on that is the binary. An entry that cannot be read
/// before it is found ends the search.
pub open spec fn binary_entry(
    entries: Seq<Result<EntryView, Seq<char>>>,
    binary: Seq<char>,
    from: nat,
) -> Result<nat, crate::error::ErrorView>
    decreases entries.len() - from,
{
    if from >= entries.len() {
        Err(
            crate::error::ErrorView::Provision(
                "rclone binary '"@ + binary + "' not found in zip"@,
            ),
        )
    } else {
        match entries[from as int] {
            Err(reason) => Err(
                crate::error::ErrorView::Provision(
                    "zip entry "@ + crate::text::decimal(from) + ": "@ + reason,
                ),
            ),
            Ok(entry) => if is_binary(entry, binary) {
                Ok(from)
            } else {
                binary_entry(entries, binary, from + 1)
            },
        }
    }
}

/// The file `binary` out of the zip file `data`.
pub open spec fn binary_in(data: Seq<u8>, binary: Seq<char>) -> Result<
    Seq<u8>,
    crate::error::ErrorView,
> {
    match zip_directory(data) {
        Err(reason) => Err(crate::error::ErrorView::Provision("read zip: "@ + reason)),
        Ok(_) => match binary_entry(zip_entries(data), binary, 0) {
            Err(e) => Err(e),
            Ok(index) => match zip_entry_contents(data, index) {
                Ok(contents) => Ok(contents),
                Err(reason) => Err(
                    crate::error::ErrorView::Provision("extract binary: "@ + reason),
                ),
            },
        },
    }
}

/// The views of a list of looked-up entries.
pub open spec fn entries_view(entries: Seq<Result<Entry, String>>) -> Seq<
    Result<EntryView, Seq<char>>,
> {
    Seq::new(entries.len(), |i: int| entry_view(entries[i]))
}

/// Looks all entries of an archive up, in order.
fn list_entries(archive: &mut zip::ZipArchive<Cursor<Vec<u8>>>) -> (entries: Vec<
    Result<Entry, String>,
>)
    ensures
        archive_bytes(*final(archive)) == archive_bytes(*old(archive)),
        entries_view(entries@) == zip_entries(archive_bytes(*old(archive))),
{
    let ghost data = archive_bytes(*archive);
    let count = archive_len(archive);
    let mut entries: Vec<Result<Entry, String>> = Vec::new();
    let mut i: usize = 0;
    while i < count
        invariant
            i <= count,
            archive_bytes(*archive) == data,
            zip_directory(data) == count_view(count),
            entries@.len() == i,
            forall|j: int|
                0 <= j < i ==> entry_view(#[trigger] entries@[j]) == entry_named(
                    zip_entry_name(data, j as nat),
                ),
        decreases count - i,
    {
        let entry = entry_at(archive, i);
        entries.push(entry);
        i = i + 1;
    }
    assert(entries_view(entries@) =~= zip_entries(data));
    entries
}

/// Finds the entry that is the binary: the first file whose path ends in `binary`.
pub fn find_binary(entries: &Vec<Result<Entry, String>>, binary: &str) -> (found: Result<
    usize,
    Error,
>)
    ensures
        found matches Ok(i) ==> i < entries@.len() && binary_entry(
            entries_view(entries@),
            binary@,
            0,
        ) == Ok::<nat, crate::error::ErrorView>(i as nat),
        found matches Err(e) ==> binary_entry(entries_view(entries@), binary@, 0) == Err::<nat, _>(
            e@,
        ),
{
    let wanted = chars_of(binary);
    let ghost all = entries_view(entries@);
    let mut i: usize = 0;
    while i < entries.len()
        invariant
            i <= entries@.len(),
            wanted@ == binary@,
            all == entries_view(entries@),
            binary_entry(all, binary@, i as nat) == binary_entry(all, binary@, 0),
        decreases entries@.len() - i,
    {
        assert(all[i as int] == entry_view(entries@[i as int]));
        match &entries[i] {
            Err(reason) => {
                let mut message = labelled("zip entry ", decimal_text(i as u64).as_str());
                message.append(": ");
                message.append(reason.as_str());
                return Err(Error::Provision(message));
            },
            Ok(entry) => {
                let name = chars_of(entry.name.as_str());
                if ends_with(name.as_slice(), wanted.as_slice()) && !entry.is_dir {
                    return Ok(i);
                }
            },
        }
        i = i + 1;
    }
    let mut message = labelled("rclone binary '", binary);
    message.append("' not found in zip");
    Err(Error::Provision(message))
}

/// Extract the rclone binary from the downloaded zip archive.
/// rclone releases ship as `rclone-v<ver>-<os>-<arch>/rclone[.exe]` inside a zip.
pub fn extract_binary(data: Vec<u8>, binary: &str) -> (contents: Result<Vec<u8>, Error>)
    ensures
        contents matches Ok(c) ==> binary_in(data@, binary@) == Ok::<
            _,
            crate::error::ErrorView,
        >(c@),
        contents matches Err(e) ==> binary_in(data@, binary@) == Err::<Seq<u8>, _>(e@),
{
    match open_archive(data) {
        Err(reason) => Err(Error::Provision(labelled("read zip: ", reason.as_str()))),
        Ok(opened) => {
            let mut archive = opened;
            let entries = list_entries(&mut archive);
            match find_binary(&entries, binary) {
                Err(e) => Err(e),
                Ok(index) => match contents_at(&mut archive, index) {
                    Ok(contents) => Ok(contents),
                    Err(reason) => Err(
                        Error::Provision(labelled("extract binary: ", reason.as_str())),
                    ),
                },
            }
        },
    }
}

/// The entry that is extracted is the first that is the binary: no entry before it is,
/// and every entry before it could be read.
pub proof fn extracted_entry_is_first(
    entries: Seq<Result<EntryView, Seq<char>>>,
    binary: Seq<char>,
    from: nat,
)
    ensures
        binary_entry(entries, binary, from) matches Ok(index) ==> {
            &&& from <= index < entries.len()
            &&& entries[index as int] matches Ok(entry) && is_binary(entry, binary)
            &&& forall|j: int|
                from <= j < index ==> (#[trigger] entries[j] matches Ok(entry) && !is_binary(
                    entry,
                    binary,
                ))
        },
    decreases entries.len() - from,
{
    if from < entries.len() {
        extracted_entry_is_first(entries, binary, from + 1);
    }
}

/// The search comes up empty just where every entry can be read and none is the binary.
pub proof fn search_is_complete(entries: Seq<Result<EntryView, Seq<char>>>, binary: Seq<char>, from: nat)
    requires
        forall|j: int|
            from <= j < entries.len() ==> (#[trigger] entries[j] matches Ok(entry) && !is_binary(
                entry,
                binary,
            )),
    ensures
        binary_entry(entries, binary, from) == Err::<nat, _>(
            crate::error::ErrorView::Provision(
                "rclone binary '"@ + binary + "' not found in zip"@,
            ),
        ),
    decreases entries.len() - from,
{
    if from < entries.len() {
        search_is_complete(entries, binary, from + 1);
    }
}

/// A text ends in another just where it is something and the other behind it.
proof fn suffix_stands_behind(name: Seq<char>, suffix: Seq<char>)
    ensures
        suffix.is_suffix_of(name) <==> exists|dir: Seq<char>| name == #[trigger] (dir + suffix),
{
    if suffix.is_suffix_of(name) {
        let dir = name.take(name.len() - suffix.len());
        assert(name.subrange(name.len() - suffix.len(), name.len() as int) =~= suffix);
        assert(name =~= dir + suffix) by {
            assert(name.skip(name.len() - suffix.len()) =~= suffix);
        }
    }
    if exists|dir: Seq<char>| name == #[trigger] (dir + suffix) {
        let dir = choose|dir: Seq<char>| name == #[trigger] (dir + suffix);
        assert(name.subrange(name.len() - suffix.len(), name.len() as int) =~= suffix);
    }
}

/// The search goes past readable entries that are directories or whose names do not end in
/// the wanted file name.
proof fn search_goes_past(
    entries: Seq<Result<EntryView, Seq<char>>>,
    binary: Seq<char>,
    from: nat,
    to: nat,
)
    requires
        from <= to <= entries.len(),
        forall|j: int|
            from <= j < to ==> (#[trigger] entries[j] matches Ok(e) && (e.is_dir || forall|
                dir: Seq<char>,
            |
                e.name != #[trigger] (dir + binary))),
    ensures
        binary_entry(entries, binary, from) == binary_entry(entries, binary, to),
    decreases to - from,
{
    if from < to {
        suffix_stands_behind(entries[from as int]->Ok_0.name, binary);
        search_goes_past(entries, binary, from + 1, to);
    }
}

/// The search stops at the first entry that is a file whose name ends in the wanted file
/// name, whatever stands before that in the name; or at the first that cannot be read, which
/// it reports with its index; or at the end, with the wanted name.
pub proof fn search_stops_at_the_first(
    entries: Seq<Result<EntryView, Seq<char>>>,
    binary: Seq<char>,
    at: nat,
)
    requires
        at <= entries.len(),
        forall|j: int|
            0 <= j < at ==> (#[trigger] entries[j] matches Ok(e) && (e.is_dir || forall|
                dir: Seq<char>,
            |
                e.name != #[trigger] (dir + binary))),
    ensures
        at < entries.len() ==> (entries[at as int] matches Ok(e) && !e.is_dir && (exists|
            dir: Seq<char>,
        |
            e.name == #[trigger] (dir + binary)) ==> binary_entry(entries, binary, 0) == Ok::<
            nat,
            crate::error::ErrorView,
        >(at)),
        at < entries.len() ==> (entries[at as int] matches Err(reason) ==> binary_entry(
            entries,
            binary,
            0,
        ) == Err::<nat, _>(
            crate::error::ErrorView::Provision(
                "zip entry "@ + crate::text::decimal(at) + ": "@ + reason,
            ),
        )),
        at == entries.len() ==> binary_entry(entries, binary, 0) == Err::<nat, _>(
            crate::error::ErrorView::Provision(
                "rclone binary '"@ + binary + "' not found in zip"@,
            ),
        ),
{
    search_goes_past(entries, binary, 0, at);
    if at < entries.len() {
        if let Ok(e) = entries[at as int] {
            suffix_stands_behind(e.name, binary);
        }
    }
}

/// Where every entry can be read and some entry is a file whose name ends in the wanted file
/// name, the search succeeds, with the least index of such an entry.
pub proof fn search_succeeds(
    entries: Seq<Result<EntryView, Seq<char>>>,
    binary: Seq<char>,
    at: nat,
    dir: Seq<char>,
)
    requires
        forall|j: int| 0 <= j < entries.len() ==> #[trigger] entries[j] is Ok,
        at < entries.len(),
        entries[at as int] matches Ok(e) && !e.is_dir && e.name == dir + binary,
    ensures
        binary_entry(entries, binary, 0) matches Ok(found) && {
            &&& found <= at
            &&& !entries[found as int]->Ok_0.is_dir
            &&& exists|d: Seq<char>| entries[found as int]->Ok_0.name == #[trigger] (d + binary)
            &&& forall|j: int|
                0 <= j < found ==> (#[trigger] entries[j])->Ok_0.is_dir || forall|d: Seq<char>|
                    entries[j]->Ok_0.name != #[trigger] (d + binary)
        },
{
    least_index(entries, binary, at, 0);
}

/// The search from `from` on finds the least index, where there is one.
proof fn least_index(
    entries: Seq<Result<EntryView, Seq<char>>>,
    binary: Seq<char>,
    at: nat,
    from: nat,
)
    requires
        forall|j: int| 0 <= j < entries.len() ==> #[trigger] entries[j] is Ok,
        from <= at < entries.len(),
        !entries[at as int]->Ok_0.is_dir,
        exists|d: Seq<char>| entries[at as int]->Ok_0.name == #[trigger] (d + binary),
    ensures
        binary_entry(entries, binary, from) matches Ok(found) && {
            &&& from <= found <= at
            &&& !entries[found as int]->Ok_0.is_dir
            &&& exists|d: Seq<char>| entries[found as int]->Ok_0.name == #[trigger] (d + binary)
            &&& forall|j: int|
                from <= j < found ==> (#[trigger] entries[j])->Ok_0.is_dir || forall|d: Seq<char>|
                    entries[j]->Ok_0.name != #[trigger] (d + binary)
        },
    decreases at - from,
{
    let here = entries[from as int]->Ok_0;
    assert(entries[from as int] is Ok);
    suffix_stands_behind(here.name, binary);
    if !(binary.is_suffix_of(here.name) && !here.is_dir) {
        assert(from != at);
        least_index(entries, binary, at, from + 1);
    }
}

/// The binary of a release is extracted: where the first entry whose name ends in the
/// wanted file name stands at `at`, in whatever directory, its contents come out, or the
/// reason why they cannot be unpacked.
pub proof fn release_binary_is_extracted(
    data: Seq<u8>,
    count: nat,
    at: nat,
    dir: Seq<char>,
    binary: Seq<char>,
)
    requires
        zip_directory(data) == Ok::<nat, Seq<char>>(count),
        at < count,
        forall|j: nat|
            j < at ==> (#[trigger] zip_entry_name(data, j) matches Ok(name) && forall|d: Seq<char>|
                name != #[trigger] (d + binary)),
        zip_entry_name(data, at) == Ok::<Seq<char>, Seq<char>>(dir + binary),
        binary.len() > 0,
        binary.last() != '/',
        binary.last() != '\\',
    ensures
        zip_entry_contents(data, at) matches Ok(contents) ==> binary_in(data, binary) == Ok::<
            Seq<u8>,
            crate::error::ErrorView,
        >(contents),
        zip_entry_contents(data, at) matches Err(reason) ==> binary_in(data, binary) == Err::<
            Seq<u8>,
            _,
        >(crate::error::ErrorView::Provision("extract binary: "@ + reason)),
{
    let entries = zip_entries(data);
    assert((dir + binary).last() == binary.last());
    assert(entries[at as int] == entry_named(zip_entry_name(data, at)));
    assert forall|j: int| 0 <= j < at implies (#[trigger] entries[j] matches Ok(e) && (e.is_dir
        || forall|d: Seq<char>| e.name != #[trigger] (d + binary))) by {
        assert(entries[j] == entry_named(zip_entry_name(data, j as nat)));
    }
    search_stops_at_the_first(entries, binary, at);
}

/// A file that is no zip file is reported with the reason.
pub proof fn unreadable_archives_are_reported(data: Seq<u8>, binary: Seq<char>, reason: Seq<char>)
    requires
        zip_directory(data) == Err::<nat, Seq<char>>(reason),
    ensures
        binary_in(data, binary) == Err::<Seq<u8>, _>(
            crate::error::ErrorView::Provision("read zip: "@ + reason),
        ),
{
}

/// Views of entries keep what they are views of.
pub proof fn entries_are_viewed_whole(
    entries: Seq<Result<Entry, String>>,
    contents: Result<Vec<u8>, String>,
    i: int,
)
    ensures
        entries_view(entries).len() == entries.len(),
        0 <= i < entries.len() ==> match entries[i] {
            Ok(e) => entries_view(entries)[i] == Ok::<EntryView, Seq<char>>(
                EntryView { name: e.name@, is_dir: e.is_dir },
            ),
            Err(reason) => entries_view(entries)[i] == Err::<EntryView, _>(reason@),
        },
        match contents {
            Ok(bytes) => contents_view(contents) == Ok::<Seq<u8>, Seq<char>>(bytes@),
            Err(reason) => contents_view(contents) == Err::<Seq<u8>, _>(reason@),
        },
{
}

/// The entries of a zip file are those that it has, by their names; an entry is a directory
/// just where its name ends in a separator.
pub proof fn directories_end_in_a_separator(data: Seq<u8>, name: Seq<char>, reason: Seq<char>, i: int)
    ensures
        entry_named(Ok(name)) == Ok::<EntryView, Seq<char>>(
            EntryView {
                name,
                is_dir: name.len() > 0 && (name.last() == '/' || name.last() == '\\'),
            },
        ),
        entry_named(Err(reason)) == Err::<EntryView, _>(reason),
        zip_directory(data) matches Ok(count) ==> zip_entries(data).len() == count && (0 <= i
            < count ==> zip_entries(data)[i] == entry_named(zip_entry_name(data, i as nat))),
{
}

} // verus!
