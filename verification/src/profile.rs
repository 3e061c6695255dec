//! Packing the files of a browser profile into the archive that the
//! capabilities carry.
use vstd::prelude::*;
use vstd::string::*;
use crate::text::same_text;
use crate::{SError, SErrorView, SResult};

verus! {

/// A zip archive in the making, held in memory. Every archive comes from
/// `archive_new` or from a step that succeeded: a step that fails gives no
/// archive back.
#[verifier::external_body]
pub struct Archive {
    writer: zip::ZipWriter<std::io::Cursor<Vec<u8>>>,
}

/// The files that an archive in the making holds, in the order in which
/// they were started: each with its name, its permissions and its content.
pub uninterp spec fn archive_files(a: Archive) -> Seq<(Seq<char>, int, Seq<u8>)>;

/// Whether an archive that holds `files` takes a new file called `name`.
pub uninterp spec fn start_takes(files: Seq<(Seq<char>, int, Seq<u8>)>, name: Seq<char>) -> bool;

/// Whether an archive that holds `files` takes `data` behind the content of
/// its last file.
pub uninterp spec fn write_takes(files: Seq<(Seq<char>, int, Seq<u8>)>, data: Seq<u8>) -> bool;

/// The bytes of the finished archive of `files`, stored without
/// compression, and nothing where an archive of these files cannot be
/// finished.
pub uninterp spec fn packed(files: Seq<(Seq<char>, int, Seq<u8>)>) -> Option<Seq<u8>>;

/// Whether one of `files` is called `name`.
pub open spec fn holds_name(files: Seq<(Seq<char>, int, Seq<u8>)>, name: Seq<char>) -> bool {
    exists|i: int| 0 <= i < files.len() && (#[trigger] files[i]).0 == name
}

/// Trusted: `zip::ZipWriter::new` on an empty cursor, which starts an archive
/// without files.
#[verifier::external_body]
fn archive_new() -> (a: Archive)
    ensures
        archive_files(a) == Seq::<(Seq<char>, int, Seq<u8>)>::empty(),
{
    Archive { writer: zip::ZipWriter::new(std::io::Cursor::new(Vec::new())) }
}

/// Trusted: `zip::ZipWriter::start_file` with the method `Stored`, the given
/// permissions, the fixed date that zip calls its default and the system
/// `Unix`. On success it starts a new, empty file behind those already
/// there. Whether it succeeds depends on the files that are there and on
/// the name, and has a name of its own; the source shows that a name which
/// the archive holds already is refused.
#[verifier::external_body]
fn archive_start(a: Archive, name: &str, mode: u32) -> (r: Result<Archive, String>)
    requires
        mode <= 0o777,
    ensures
        r is Ok <==> start_takes(archive_files(a), name@),
        r is Ok ==> archive_files(r->Ok_0) == archive_files(a).push(
            (name@, mode as int, Seq::empty()),
        ),
        holds_name(archive_files(a), name@) ==> r is Err,
{
    let mut a = a;
    let options = zip::write::SimpleFileOptions::default().compression_method(
        zip::CompressionMethod::Stored,
    ).unix_permissions(mode).last_modified_time(zip::DateTime::DEFAULT).system(zip::System::Unix);
    match a.writer.start_file(name, options) {
        Ok(_) => Ok(a),
        Err(e) => Err(e.to_string()),
    }
}

/// Trusted: `write_all` on a `zip::ZipWriter`, which on success appends the
/// data to the file that was started last. Whether it succeeds depends on
/// the files that are there and on the data, and has a name of its own.
#[verifier::external_body]
fn archive_write(a: Archive, data: &[u8]) -> (r: Result<Archive, String>)
    ensures
        r is Ok <==> write_takes(archive_files(a), data@),
        r is Ok && archive_files(a).len() > 0 ==> archive_files(r->Ok_0) == archive_files(
            a,
        ).update(
            archive_files(a).len() - 1,
            (
                archive_files(a).last().0,
                archive_files(a).last().1,
                archive_files(a).last().2 + data@,
            ),
        ),
{
    let mut a = a;
    match std::io::Write::write_all(&mut a.writer, data) {
        Ok(_) => Ok(a),
        Err(e) => Err(e.to_string()),
    }
}

/// Trusted: `zip::ZipWriter::finish`, which on success gives the bytes of the
/// archive. Whether it succeeds, and the bytes, depend on the files alone,
/// since every file is started with the same date and system; the contract
/// gives the outcome a name.
#[verifier::external_body]
fn archive_finish(a: Archive) -> (r: Result<Vec<u8>, String>)
    ensures
        match r {
            Ok(bytes) => packed(archive_files(a)) == Some(bytes@),
            Err(_) => packed(archive_files(a)) is None,
        },
{
    a.writer.finish().map(|cursor| cursor.into_inner()).map_err(|e| e.to_string())
}

/// The permissions that the files of a profile are archived with.
pub const PROFILE_MODE: u32 = 0o755;

/// Whether a file of a profile directory stays out of the archive: the two
/// lock files at its top, and what lies in the cache of the extensions.
pub open spec fn is_left_out(name: Seq<char>) -> bool {
    name == ".parentlock"@ || name == "parent.lock"@ || ("extensions.cache/"@).is_prefix_of(name)
}

/// The files of `files` that go into the archive, in their order, each with
/// the permissions of a profile.
pub open spec fn archived(files: Seq<(Seq<char>, Seq<u8>)>) -> Seq<(Seq<char>, int, Seq<u8>)>
    decreases files.len(),
{
    if files.len() == 0 {
        Seq::empty()
    } else if is_left_out(files.last().0) {
        archived(files.drop_last())
    } else {
        archived(files.drop_last()).push((files.last().0, PROFILE_MODE as int, files.last().1))
    }
}

/// Whether the archiver takes the file at place `i` of `files` behind those
/// before it: its name, and then its content.
pub open spec fn takes_file(files: Seq<(Seq<char>, int, Seq<u8>)>, i: int) -> bool {
    &&& start_takes(files.take(i), files[i].0)
    &&& write_takes(files.take(i).push((files[i].0, files[i].1, Seq::empty())), files[i].2)
}

/// Whether the archiver takes `files`: every file in its turn, and then the
/// end of the archive.
pub open spec fn takes(files: Seq<(Seq<char>, int, Seq<u8>)>) -> bool {
    &&& forall|i: int| 0 <= i < files.len() ==> #[trigger] takes_file(files, i)
    &&& packed(files) is Some
}

/// The contents of a list of files.
pub open spec fn file_views(files: Seq<(String, Vec<u8>)>) -> Seq<(Seq<char>, Seq<u8>)> {
    Seq::new(files.len(), |i: int| (files[i].0@, files[i].1@))
}

/// What goes into the archive of the first files of a list is the beginning
/// of what goes into the archive of all of them.
pub proof fn archived_grows(files: Seq<(Seq<char>, Seq<u8>)>, n: int)
    requires
        0 <= n <= files.len(),
    ensures
        archived(files.take(n)).len() <= archived(files).len(),
        archived(files).take(archived(files.take(n)).len() as int) == archived(files.take(n)),
    decreases files.len() - n,
{
    if n == files.len() {
        assert(files.take(n) =~= files);
        assert(archived(files).take(archived(files).len() as int) =~= archived(files));
    } else {
        archived_grows(files, n + 1);
        let next = files.take(n + 1);
        assert(next.drop_last() =~= files.take(n));
        let short = archived(files.take(n));
        assert(archived(next).take(short.len() as int) =~= short);
        assert(archived(files).take(short.len() as int) =~= archived(files).take(
            archived(next).len() as int,
        ).take(short.len() as int));
    }
}

/// Whether the file at place `i` of `files` has a name that none before it
/// has.
pub open spec fn is_new_name(files: Seq<(Seq<char>, int, Seq<u8>)>, i: int) -> bool {
    !holds_name(files.take(i), files[i].0)
}

/// Whether no two of `files` have the same name.
pub open spec fn names_differ(files: Seq<(Seq<char>, int, Seq<u8>)>) -> bool {
    forall|i: int, j: int|
        0 <= i < j < files.len() ==> (#[trigger] files[i]).0 != (#[trigger] files[j]).0
}

/// Whether `text` begins with `prefix`.
pub fn starts_with(text: &str, prefix: &str) -> (r: bool)
    ensures
        r == prefix@.is_prefix_of(text@),
{
    let n = prefix.unicode_len();
    if text.unicode_len() < n {
        return false;
    }
    let mut i: usize = 0;
    while i < n
        invariant
            n == prefix@.len(),
            n <= text@.len(),
            i <= n,
            forall|k: int| 0 <= k < i ==> text@[k] == prefix@[k],
        decreases n - i,
    {
        if text.get_char(i) != prefix.get_char(i) {
            assert(text@.subrange(0, n as int)[i as int] != prefix@[i as int]);
            return false;
        }
        i += 1;
    }
    assert(text@.subrange(0, n as int) =~= prefix@);
    true
}

/// Whether a file of a profile directory stays out of the archive.
pub fn leaves_out(name: &str) -> (r: bool)
    ensures
        r == is_left_out(name@),
{
    same_text(name, ".parentlock") || same_text(name, "parent.lock") || starts_with(
        name,
        "extensions.cache/",
    )
}

/// Packs the files of a profile directory into a zip archive. `files` holds
/// each file with its path below the directory and its content.
///
/// The lock files and the cache of the extensions are left out. The archive
/// is given exactly when the archiver takes every file that goes into it;
/// otherwise the error is of the `Message` kind.
pub fn pack(files: &Vec<(String, Vec<u8>)>) -> (r: SResult<Vec<u8>>)
    ensures
        r is Ok <==> takes(archived(file_views(files@))),
        r is Ok ==> names_differ(archived(file_views(files@))),
        match r {
            Ok(bytes) => packed(archived(file_views(files@))) == Some(bytes@),
            Err(e) => e@ is Message,
        },
{
    let ghost all = file_views(files@);
    let ghost goal = archived(all);
    let mut archive = archive_new();
    let mut i: usize = 0;
    assert(all.take(0) =~= Seq::empty());
    while i < files.len()
        invariant
            i <= files.len(),
            all == file_views(files@),
            goal == archived(all),
            archive_files(archive) == archived(all.take(i as int)),
            forall|k: int|
                0 <= k < archived(all.take(i as int)).len() ==> #[trigger] takes_file(goal, k),
            forall|k: int|
                0 <= k < archived(all.take(i as int)).len() ==> #[trigger] is_new_name(goal, k),
        decreases files.len() - i,
    {
        let ghost before = archived(all.take(i as int));
        proof {
            assert(all.take(i as int + 1).drop_last() =~= all.take(i as int));
            assert(all.take(i as int + 1).last() == all[i as int]);
            archived_grows(all, i as int);
            archived_grows(all, i as int + 1);
        }
        if !leaves_out(files[i].0.as_str()) {
            let ghost at = before.len() as int;
            let ghost entry = (files[i as int].0@, PROFILE_MODE as int, files[i as int].1@);
            proof {
                assert(archived(all.take(i as int + 1)) == before.push(entry));
                assert(goal.take(at + 1)[at] == entry);
                assert(goal[at] == entry);
                assert(goal.take(at) =~= before);
            }
            archive = match archive_start(archive, files[i].0.as_str(), PROFILE_MODE) {
                Ok(started) => started,
                Err(reason) => {
                    assert(!takes_file(goal, at));
                    return Err(SError::Message(reason));
                },
            };
            archive = match archive_write(archive, files[i].1.as_slice()) {
                Ok(written) => written,
                Err(reason) => {
                    assert(!takes_file(goal, at));
                    return Err(SError::Message(reason));
                },
            };
            assert(archive_files(archive) =~= before.push(entry));
            assert(takes_file(goal, at));
            assert(is_new_name(goal, at));
        }
        i += 1;
    }
    assert(all.take(i as int) =~= all);
    proof {
        assert forall|a: int, b: int| 0 <= a < b < goal.len() implies (#[trigger] goal[a]).0 != (
        #[trigger] goal[b]).0 by {
            assert(is_new_name(goal, b));
            assert(goal.take(b)[a] == goal[a]);
        }
    }
    match archive_finish(archive) {
        Ok(bytes) => Ok(bytes),
        Err(reason) => Err(SError::Message(reason)),
    }
}

} // verus!
