//! Unpacking the ffmpeg download: xz decompression, and the search for the
//! ffmpeg program among the entries of a zip or tar archive.
use vstd::prelude::*;

use crate::text::{chars_of, opt_string_view, owned, str_equals};

verus! {

#[verifier::external_type_specification]
#[verifier::external_body]
#[verifier::reject_recursive_types(T)]
pub struct ExCursor<T>(std::io::Cursor<T>);

#[verifier::external_type_specification]
#[verifier::external_body]
#[verifier::reject_recursive_types(R)]
pub struct ExZipArchive<R>(zip::ZipArchive<R>);

/// An in-memory zip archive.
pub type MemoryZip = zip::ZipArchive<std::io::Cursor<Vec<u8>>>;

/// What xz2's `XzDecoder` gives when all of `compressed` is read through it:
/// the decompressed bytes, or the text of the error it stopped on.
pub uninterp spec fn xz_decoded(compressed: Seq<u8>) -> Result<Seq<u8>, Seq<char>>;

/// What `zip::ZipArchive::new` gives for the bytes of a zip file: the names
/// of the entries it indexes, by index (a name that occurs more than once in
/// the central directory keeps one index, where it first occurred), or the
/// text of its error.
pub uninterp spec fn zip_listing(bytes: Seq<u8>) -> Result<Seq<Seq<char>>, Seq<char>>;

/// What `ZipArchive::by_index(i)` followed by `ZipFile::name` gives on the
/// archive opened from `bytes`: the entry's name, or the text of the error.
pub uninterp spec fn zip_entry_read(bytes: Seq<u8>, i: usize) -> Result<Seq<char>, Seq<char>>;

/// The names of the entries of an opened zip archive, in its order.
pub uninterp spec fn zip_entry_names(archive: MemoryZip) -> Seq<Seq<char>>;

/// The bytes an opened zip archive was read from.
pub uninterp spec fn zip_source(archive: MemoryZip) -> Seq<u8>;

/// Decompresses `compressed` with xz2's `read::XzDecoder`, reading it to the
/// end. The contract claims that the outcome is the named
/// `xz_decoded(compressed)`, the error as its display text.
#[verifier::external_body]
fn xz_read_all(compressed: &[u8]) -> (r: Result<Vec<u8>, String>)
    ensures
        match r {
            Ok(v) => xz_decoded(compressed@) == Ok::<Seq<u8>, Seq<char>>(v@),
            Err(e) => xz_decoded(compressed@) == Err::<Seq<u8>, Seq<char>>(e@),
        },
{
    let mut decoder = xz2::read::XzDecoder::new(compressed);
    let mut out = Vec::new();
    match std::io::Read::read_to_end(&mut decoder, &mut out) {
        Ok(_) => Ok(out),
        Err(e) => Err(e.to_string()),
    }
}

/// Opens a zip archive held in memory with `zip::ZipArchive::new`. The
/// contract claims that the outcome is the named `zip_listing(bytes)`: on
/// success an archive read from `bytes` whose entry names are the listing,
/// else the error's display text.
#[verifier::external_body]
fn zip_open(bytes: Vec<u8>) -> (r: Result<MemoryZip, String>)
    ensures
        match r {
            Ok(a) => zip_listing(bytes@) == Ok::<Seq<Seq<char>>, Seq<char>>(zip_entry_names(a))
                && zip_source(a) == bytes@,
            Err(e) => zip_listing(bytes@) == Err::<Seq<Seq<char>>, Seq<char>>(e@),
        },
{
    zip::ZipArchive::new(std::io::Cursor::new(bytes)).map_err(|e| e.to_string())
}

/// `zip::ZipArchive::len`: the number of entries.
#[verifier::external_body]
fn zip_len(archive: &MemoryZip) -> (r: usize)
    ensures
        r == zip_entry_names(*archive).len(),
{
    archive.len()
}

/// `zip::ZipArchive::by_index` followed by `ZipFile::name`: the name of
/// entry `i`. The contract claims that the outcome is the named
/// `zip_entry_read` of the archive's bytes and `i`; that reading an entry
/// changes neither the entries nor the bytes they come from; that an index
/// past the end fails; and that a success gives the entry's listed name.
/// Which entries inside the range fail (an encrypted entry, or one
/// compressed with a method this build does not read) is left to the name.
#[verifier::external_body]
fn zip_entry_name(archive: &mut MemoryZip, i: usize) -> (r: Result<String, String>)
    ensures
        zip_entry_names(*final(archive)) == zip_entry_names(*old(archive)),
        zip_source(*final(archive)) == zip_source(*old(archive)),
        match r {
            Ok(n) => zip_entry_read(zip_source(*old(archive)), i) == Ok::<Seq<char>, Seq<char>>(
                n@,
            ),
            Err(e) => zip_entry_read(zip_source(*old(archive)), i) == Err::<Seq<char>, Seq<char>>(
                e@,
            ),
        },
        i >= zip_entry_names(*old(archive)).len() ==> r is Err,
        r matches Ok(n) ==> i < zip_entry_names(*old(archive)).len() && n@ == zip_entry_names(
            *old(archive),
        )[i as int],
{
    match archive.by_index(i) {
        Ok(file) => Ok(file.name().to_string()),
        Err(e) => Err(e.to_string()),
    }
}

/// The message a failed decompression of the ffmpeg archive gives.
pub open spec fn decompress_error(m: Seq<char>) -> Seq<char> {
    "failed to decompress the ffmpeg archive: "@ + m
}

/// The outcome of decompressing the ffmpeg archive, from what the decoder
/// gave: its bytes, or its error text behind an explanation.
pub fn decompression_outcome(raw: Result<Vec<u8>, String>) -> (r: Result<Vec<u8>, String>)
    ensures
        match raw {
            Ok(v) => r matches Ok(w) && w@ == v@,
            Err(m) => r matches Err(e) && e@ == decompress_error(m@),
        },
{
    match raw {
        Ok(v) => Ok(v),
        Err(m) => {
            let mut e = owned("failed to decompress the ffmpeg archive: ");
            e.append(m.as_str());
            Err(e)
        },
    }
}

/// Decompresses the `.tar.xz` ffmpeg download.
pub fn xz_decode(compressed: &[u8]) -> (r: Result<Vec<u8>, String>)
    ensures
        match xz_decoded(compressed@) {
            Ok(d) => r matches Ok(w) && w@ == d,
            Err(m) => r matches Err(e) && e@ == decompress_error(m),
        },
{
    decompression_outcome(xz_read_all(compressed))
}

/// The zip entries taken for the ffmpeg program: names that end in
/// `ffmpeg.exe` or `/ffmpeg`, and the bare name `ffmpeg` of a program at the
/// root of the archive.
pub open spec fn is_ffmpeg_zip_name(name: Seq<char>) -> bool {
    ||| (name.len() >= "ffmpeg.exe"@.len() && name.skip(name.len() - "ffmpeg.exe"@.len())
        == "ffmpeg.exe"@)
    ||| (name.len() >= "/ffmpeg"@.len() && name.skip(name.len() - "/ffmpeg"@.len())
        == "/ffmpeg"@)
    ||| name == "ffmpeg"@
}

fn ends_with_text(v: &Vec<char>, lit: &str) -> (r: bool)
    ensures
        r == (v@.len() >= lit@.len() && v@.skip(v@.len() - lit@.len()) == lit@),
{
    let n = lit.unicode_len();
    if n > v.len() {
        return false;
    }
    let r = crate::text::range_equals(v, v.len() - n, v.len(), lit);
    assert(v@.skip(v@.len() - n) =~= v@.subrange(v@.len() - n, v@.len() as int));
    r
}

/// Whether a zip entry of this name is the ffmpeg program.
pub fn is_ffmpeg_zip_entry(name: &str) -> (r: bool)
    ensures
        r == is_ffmpeg_zip_name(name@),
        r == (name@ == "ffmpeg"@ || (name@.len() >= "ffmpeg.exe"@.len() && name@.skip(
            name@.len() - "ffmpeg.exe"@.len(),
        ) == "ffmpeg.exe"@) || (name@.len() >= "/ffmpeg"@.len() && name@.skip(
            name@.len() - "/ffmpeg"@.len(),
        ) == "/ffmpeg"@)),
{
    let v = chars_of(name);
    ends_with_text(&v, "ffmpeg.exe") || ends_with_text(&v, "/ffmpeg") || str_equals(name, "ffmpeg")
}

/// Whether a tar entry whose path has this final component is the ffmpeg
/// program: exactly `ffmpeg`.
pub fn is_ffmpeg_tar_entry(file_name: Option<&str>) -> (r: bool)
    ensures
        r == (match file_name {
            Some(n) => n@ == "ffmpeg"@,
            None => false,
        }),
{
    match file_name {
        Some(n) => str_equals(n, "ffmpeg"),
        None => false,
    }
}

/// The search for ffmpeg among the entries `i..n` of the zip read from
/// `bytes`: entries are read in order; the first that cannot be read ends
/// the search with its error, the first that is ffmpeg ends it with its
/// index, and none is found when neither happens.
pub open spec fn zip_search(bytes: Seq<u8>, n: nat, i: nat) -> Result<Option<usize>, Seq<char>>
    decreases n - i,
{
    if i >= n {
        Ok(None)
    } else {
        match zip_entry_read(bytes, i as usize) {
            Err(e) => Err(e),
            Ok(name) => if is_ffmpeg_zip_name(name) {
                Ok(Some(i as usize))
            } else {
                zip_search(bytes, n, i + 1)
            },
        }
    }
}

/// Opens the zip ffmpeg download and finds the first entry that is the
/// ffmpeg program. Gives the opened archive back with that entry's index,
/// or with none when no entry is. Entries are read in order and the search
/// stops at the first that cannot be read, with its error.
pub fn find_ffmpeg_in_zip(bytes: Vec<u8>) -> (r: Result<(MemoryZip, Option<usize>), String>)
    ensures
        match zip_listing(bytes@) {
            Err(m) => r matches Err(e) && e@ == m,
            Ok(names) => match zip_search(bytes@, names.len(), 0) {
                Err(m) => r matches Err(e) && e@ == m,
                Ok(found) => r matches Ok((a, f)) && f == found && zip_entry_names(a) == names
                    && zip_source(a) == bytes@,
            },
        },
        r matches Ok((a, found)) ==> match found {
            Some(i) => i < zip_entry_names(a).len() && is_ffmpeg_zip_name(zip_entry_names(a)[i as int])
                && forall|j: int| 0 <= j < i ==> !is_ffmpeg_zip_name(#[trigger] zip_entry_names(a)[j]),
            None => forall|j: int|
                0 <= j < zip_entry_names(a).len() ==> !is_ffmpeg_zip_name(#[trigger] zip_entry_names(a)[j]),
        },
{
    let ghost contents = bytes@;
    let mut archive = match zip_open(bytes) {
        Ok(a) => a,
        Err(e) => return Err(e),
    };
    let ghost names = zip_entry_names(archive);
    let n = zip_len(&archive);
    let mut i: usize = 0;
    while i < n
        invariant
            n == names.len(),
            i <= n,
            contents == bytes@,
            zip_listing(contents) == Ok::<Seq<Seq<char>>, Seq<char>>(names),
            zip_entry_names(archive) == names,
            zip_source(archive) == contents,
            zip_search(contents, n as nat, 0) == zip_search(contents, n as nat, i as nat),
            forall|j: int| 0 <= j < i ==> !is_ffmpeg_zip_name(#[trigger] names[j]),
        decreases n - i,
    {
        let name = match zip_entry_name(&mut archive, i) {
            Ok(name) => name,
            Err(e) => return Err(e),
        };
        if is_ffmpeg_zip_entry(name.as_str()) {
            return Ok((archive, Some(i)));
        }
        i = i + 1;
    }
    Ok((archive, None))
}

/// What the `tar` crate reads from the bytes of a tar archive: the final
/// path component of each entry (`Path::file_name`, as text) in order, up to
/// the first entry or path that cannot be read, and that error's text if
/// there is one.
pub uninterp spec fn tar_file_names(bytes: Seq<u8>) -> (Seq<Option<Seq<char>>>, Option<Seq<char>>);

/// The views of a list of optional names.
pub open spec fn opt_names_view(v: Seq<Option<String>>) -> Seq<Option<Seq<char>>> {
    Seq::new(v.len(), |i: int| opt_string_view(v[i]))
}

/// Reads the entries of the tar archive in `bytes` with `tar::Archive::new`,
/// `Archive::entries`, the entries iterator and `Entry::path`, and gives the
/// final component of each entry's path (`Path::file_name`, as text), up to
/// the first error. The contract claims that the outcome is the named
/// `tar_file_names(bytes)`.
#[verifier::external_body]
fn tar_entry_file_names(bytes: &[u8]) -> (r: (Vec<Option<String>>, Option<String>))
    ensures
        (opt_names_view(r.0@), opt_string_view(r.1)) == tar_file_names(bytes@),
{
    let mut archive = tar::Archive::new(bytes);
    let mut names = Vec::new();
    let entries = match archive.entries() { Ok(it) => it, Err(e) => return (names, Some(e.to_string())) };
    for entry in entries {
        let entry = match entry { Ok(en) => en, Err(e) => return (names, Some(e.to_string())) };
        let path = match entry.path() { Ok(p) => p, Err(e) => return (names, Some(e.to_string())) };
        names.push(match path.file_name() { Some(n) => Some(n.to_string_lossy().into_owned()), None => None });
    }
    (names, None)
}

/// Whether the final path component of a tar entry names the ffmpeg program.
pub open spec fn is_ffmpeg_tar_name(name: Option<Seq<char>>) -> bool {
    name == Some("ffmpeg"@)
}

/// Finds, in the decompressed `.tar` ffmpeg download, the first entry whose
/// file name is `ffmpeg`. Entries are read in order; an entry or path that
/// cannot be read before ffmpeg is found ends the search with its error,
/// and none is found when the archive ends first.
pub fn find_ffmpeg_in_tar(bytes: &[u8]) -> (r: Result<Option<usize>, String>)
    ensures
        ({
            let (names, err) = tar_file_names(bytes@);
            match r {
                Ok(Some(i)) => i < names.len() && is_ffmpeg_tar_name(names[i as int])
                    && forall|j: int| 0 <= j < i ==> !is_ffmpeg_tar_name(#[trigger] names[j]),
                Ok(None) => err is None && forall|j: int|
                    0 <= j < names.len() ==> !is_ffmpeg_tar_name(#[trigger] names[j]),
                Err(e) => err == Some(e@) && forall|j: int|
                    0 <= j < names.len() ==> !is_ffmpeg_tar_name(#[trigger] names[j]),
            }
        }),
{
    let (names, err) = tar_entry_file_names(bytes);
    let ghost listed = tar_file_names(bytes@).0;
    let mut i: usize = 0;
    while i < names.len()
        invariant
            i <= names@.len(),
            opt_names_view(names@) == listed,
            (opt_names_view(names@), opt_string_view(err)) == tar_file_names(bytes@),
            forall|j: int| 0 <= j < i ==> !is_ffmpeg_tar_name(#[trigger] listed[j]),
        decreases names@.len() - i,
    {
        let name: Option<&str> = match &names[i] {
            Some(n) => Some(n.as_str()),
            None => None,
        };
        if is_ffmpeg_tar_entry(name) {
            assert(listed[i as int] == opt_string_view(names@[i as int]));
            return Ok(Some(i));
        }
        assert(listed[i as int] == opt_string_view(names@[i as int]));
        i = i + 1;
    }
    match err {
        Some(e) => Err(e),
        None => Ok(None),
    }
}

/// What reading all the data of entry `i` of the zip archive in `bytes`
/// gives (`ZipArchive::by_index`, then reading the entry to its end): the
/// entry's decompressed bytes, or the text of the error.
pub uninterp spec fn zip_entry_data(bytes: Seq<u8>, i: usize) -> Result<Seq<u8>, Seq<char>>;

/// What reading all the data of entry `i` of the tar archive in `bytes`
/// gives (`Archive::entries`, the entries iterator's `nth(i)`, then reading
/// the entry to its end): none when the entries end first, else the entry's
/// bytes or the text of the error.
pub uninterp spec fn tar_entry_data(bytes: Seq<u8>, i: usize) -> Option<Result<Seq<u8>, Seq<char>>>;

/// Reads all the data of entry `i` with `zip::ZipArchive::by_index` and
/// `std::io::Read::read_to_end` on the entry. The contract claims that the
/// outcome is the named `zip_entry_data` of the archive's bytes and `i`, and
/// that reading changes neither the entries nor the bytes they come from.
#[verifier::external_body]
fn zip_entry_contents(archive: &mut MemoryZip, i: usize) -> (r: Result<Vec<u8>, String>)
    ensures
        zip_entry_names(*final(archive)) == zip_entry_names(*old(archive)),
        zip_source(*final(archive)) == zip_source(*old(archive)),
        match r {
            Ok(v) => zip_entry_data(zip_source(*old(archive)), i) == Ok::<Seq<u8>, Seq<char>>(v@),
            Err(e) => zip_entry_data(zip_source(*old(archive)), i) == Err::<Seq<u8>, Seq<char>>(e@),
        },
{
    let mut file = match archive.by_index(i) { Ok(f) => f, Err(e) => return Err(e.to_string()) };
    let mut out = Vec::new();
    match std::io::Read::read_to_end(&mut file, &mut out) {
        Ok(_) => Ok(out),
        Err(e) => Err(e.to_string()),
    }
}

/// Reads all the data of entry `i` of the tar archive in `bytes` with
/// `tar::Archive::new`, `Archive::entries`, the iterator's `nth(i)` and
/// `std::io::Read::read_to_end` on the entry. The contract claims that the
/// outcome is the named `tar_entry_data(bytes, i)`, and that an entry whose
/// file name `tar_entry_file_names` could read is there to be read: entries
/// before the first failure are yielded the same way by a second pass.
#[verifier::external_body]
fn tar_entry_contents(bytes: &[u8], i: usize) -> (r: Option<Result<Vec<u8>, String>>)
    ensures
        match r {
            Some(Ok(v)) => tar_entry_data(bytes@, i) == Some(Ok::<Seq<u8>, Seq<char>>(v@)),
            Some(Err(e)) => tar_entry_data(bytes@, i) == Some(Err::<Seq<u8>, Seq<char>>(e@)),
            None => tar_entry_data(bytes@, i) is None,
        },
        i < tar_file_names(bytes@).0.len() ==> r is Some,
{
    let mut archive = tar::Archive::new(bytes);
    let mut entries = match archive.entries() { Ok(it) => it, Err(e) => return Some(Err(e.to_string())) };
    let mut entry = match entries.nth(i) { Some(Ok(en)) => en, Some(Err(e)) => return Some(Err(e.to_string())), None => return None };
    let mut out = Vec::new();
    match std::io::Read::read_to_end(&mut entry, &mut out) {
        Ok(_) => Some(Ok(out)),
        Err(e) => Some(Err(e.to_string())),
    }
}

/// Opens the zip ffmpeg download, finds the ffmpeg program in it as
/// `find_ffmpeg_in_zip` does, and reads that entry's data. Gives none when
/// the archive holds no ffmpeg entry.
pub fn extract_ffmpeg_from_zip(bytes: Vec<u8>) -> (r: Result<Option<Vec<u8>>, String>)
    ensures
        match zip_listing(bytes@) {
            Err(m) => r matches Err(e) && e@ == m,
            Ok(names) => match zip_search(bytes@, names.len(), 0) {
                Err(m) => r matches Err(e) && e@ == m,
                Ok(None) => r matches Ok(None),
                Ok(Some(i)) => match zip_entry_data(bytes@, i) {
                    Ok(d) => r matches Ok(Some(v)) && v@ == d,
                    Err(m) => r matches Err(e) && e@ == m,
                },
            },
        },
{
    match find_ffmpeg_in_zip(bytes) {
        Err(e) => Err(e),
        Ok((mut archive, found)) => match found {
            None => Ok(None),
            Some(i) => match zip_entry_contents(&mut archive, i) {
                Ok(data) => Ok(Some(data)),
                Err(e) => Err(e),
            },
        },
    }
}

/// `i` is the first entry named `ffmpeg` among the tar file names.
pub open spec fn first_ffmpeg_tar_index(names: Seq<Option<Seq<char>>>, i: int) -> bool {
    0 <= i < names.len() && is_ffmpeg_tar_name(names[i]) && forall|j: int|
        0 <= j < i ==> !is_ffmpeg_tar_name(#[trigger] names[j])
}

/// Finds the ffmpeg program in the decompressed `.tar` ffmpeg download as
/// `find_ffmpeg_in_tar` does, and reads that entry's data. Gives none when
/// the archive ends without an ffmpeg entry.
pub fn extract_ffmpeg_from_tar(bytes: &[u8]) -> (r: Result<Option<Vec<u8>>, String>)
    ensures
        ({
            let (names, err) = tar_file_names(bytes@);
            let no_match = forall|j: int| 0 <= j < names.len() ==> !is_ffmpeg_tar_name(#[trigger] names[j]);
            match r {
                Ok(Some(v)) => exists|i: int| #[trigger] first_ffmpeg_tar_index(names, i)
                    && tar_entry_data(bytes@, i as usize) == Some(Ok::<Seq<u8>, Seq<char>>(v@)),
                Ok(None) => no_match && err is None,
                Err(e) => (no_match && err == Some(e@)) || exists|i: int| #[trigger] first_ffmpeg_tar_index(names, i)
                    && tar_entry_data(bytes@, i as usize) == Some(Err::<Seq<u8>, Seq<char>>(e@)),
            }
        }),
{
    match find_ffmpeg_in_tar(bytes) {
        Err(e) => Err(e),
        Ok(None) => Ok(None),
        Ok(Some(i)) => {
            let data = tar_entry_contents(bytes, i);
            assert(first_ffmpeg_tar_index(tar_file_names(bytes@).0, i as int));
            match data {
                Some(Ok(d)) => Ok(Some(d)),
                Some(Err(e)) => Err(e),
                None => {
                    proof {
                        assert(false);
                    }
                    Ok(None)
                },
            }
        },
    }
}

/// The data to install as ffmpeg, from what the archive search found: the
/// entry's bytes, or an error where the archive holds no ffmpeg program.
pub fn ffmpeg_payload(found: Option<Vec<u8>>) -> (r: Result<Vec<u8>, String>)
    ensures
        match found {
            Some(d) => r matches Ok(v) && v@ == d@,
            None => r matches Err(e) && e@ == "ffmpeg was not found in the downloaded archive"@,
        },
{
    match found {
        Some(d) => Ok(d),
        None => Err(owned("ffmpeg was not found in the downloaded archive")),
    }
}

/// Whatever folder it stands in, an entry named `ffmpeg` or `ffmpeg.exe`
/// is taken for the ffmpeg program, and so is `ffmpeg` at the archive's
/// root; a name ending in anything but `ffmpeg` or `ffmpeg.exe` never is.
pub proof fn law_zip_ffmpeg_in_any_folder(folder: Seq<char>, name: Seq<char>)
    ensures
        is_ffmpeg_zip_name(folder + "/ffmpeg"@),
        is_ffmpeg_zip_name(folder + "ffmpeg.exe"@),
        is_ffmpeg_zip_name("ffmpeg"@),
        is_ffmpeg_zip_name(name) ==> name.len() >= "ffmpeg"@.len() && (name.skip(
            name.len() - "ffmpeg"@.len(),
        ) == "ffmpeg"@ || name.skip(name.len() - "ffmpeg.exe"@.len()) == "ffmpeg.exe"@),
{
    let a = folder + "/ffmpeg"@;
    assert(a.skip(a.len() - "/ffmpeg"@.len()) =~= "/ffmpeg"@);
    let b = folder + "ffmpeg.exe"@;
    assert(b.skip(b.len() - "ffmpeg.exe"@.len()) =~= "ffmpeg.exe"@);
    if is_ffmpeg_zip_name(name) {
        reveal_strlit("ffmpeg");
        reveal_strlit("/ffmpeg");
        reveal_strlit("ffmpeg.exe");
        if name.len() >= 7 && name.skip(name.len() - 7) == "/ffmpeg"@ {
            assert(name.skip(name.len() - 6) =~= name.skip(name.len() - 7).skip(1));
            assert("/ffmpeg"@.skip(1) =~= "ffmpeg"@);
        }
        if name == "ffmpeg"@ {
            assert(name.skip(0) =~= name);
        }
    }
}

} // verus!
