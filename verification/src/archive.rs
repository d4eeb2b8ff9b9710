//! The source archiver: one compressed directory-tree archive per run.
//!
//! The surrounding process walks the local directory tree and hands the
//! entries over as plain values, in walk order, each with its path as a
//! list of name segments.  This module decides which entries enter the
//! archive — a path with a prefix in the fixed ignore set is skipped
//! together with its whole subtree, and an entry that is neither a regular
//! file nor a directory fails explicitly — and then encodes the survivors
//! into a tar container compressed with gzip, through the `tar` and
//! `flate2` crates.  The archiver builds the byte buffer at most once per
//! run: every later call receives the same bytes without a second walk.

use crate::errors::ArchiveError;
use vstd::prelude::*;
use vstd::string::StringExecFns;

verus! {

/// What kind of filesystem object an entry is.
#[derive(Clone, Copy, Debug, PartialEq, Eq, Structural)]
pub enum EntryKind {
    /// A regular file.
    File,
    /// A directory.
    Dir,
    /// Anything else — a symlink, a device, a socket.  Not defined
    /// behavior for the archiver: it must fail explicitly rather than
    /// silently skip or follow such an entry.
    Special,
}

/// One entry of the directory walk: its path as name segments relative to
/// the root, its kind, and — for a regular file — its contents.
#[derive(Clone, Debug)]
pub struct RawEntry {
    pub path: Vec<String>,
    pub kind: EntryKind,
    pub data: Vec<u8>,
}

/// The fixed ignore set: version-control metadata and the build-output
/// directory, matched as root-level names.
pub open spec fn spec_ignored_name(name: Seq<char>) -> bool {
    name == ".git"@ || name == ".gitignore"@ || name == "target"@
}

/// Whether this path is itself a member of the ignore set: a single
/// root-level segment carrying an ignored name.
pub open spec fn spec_matches_ignore(path: Seq<String>) -> bool {
    path.len() == 1 && spec_ignored_name(path[0]@)
}

/// Whether some prefix of this path is a member of the ignore set — the
/// path is then either an ignored entry itself or lies in its subtree, at
/// whatever depth, and must not enter the archive.
pub open spec fn spec_under_ignore(path: Seq<String>) -> bool {
    exists|k: int| 0 < k <= path.len() && spec_matches_ignore(#[trigger] path.take(k))
}

/// Since every member of the ignore set is a single root-level name, a
/// path falls under the ignore set exactly when its first segment carries
/// an ignored name.
pub proof fn lemma_under_ignore_iff(path: Seq<String>)
    ensures
        spec_under_ignore(path) <==> (path.len() > 0 && spec_ignored_name(path[0]@)),
{
    if path.len() > 0 && spec_ignored_name(path[0]@) {
        assert(path.take(1)[0] == path[0]);
        assert(spec_matches_ignore(path.take(1)));
    }
    if spec_under_ignore(path) {
        let k = choose|k: int| 0 < k <= path.len() && spec_matches_ignore(path.take(k));
        assert(path.take(k)[0] == path[0]);
    }
}

/// Decides whether a name is in the ignore set.
pub fn is_ignored_name(name: &String) -> (b: bool)
    ensures
        b == spec_ignored_name(name@),
{
    let git: String = String::from_str(".git");
    let gitignore: String = String::from_str(".gitignore");
    let target_dir: String = String::from_str("target");
    *name == git || *name == gitignore || *name == target_dir
}

/// Decides whether a path falls under the ignore set.
pub fn is_under_ignore(path: &Vec<String>) -> (b: bool)
    ensures
        b == spec_under_ignore(path@),
{
    proof {
        lemma_under_ignore_iff(path@);
    }
    if path.len() == 0 {
        false
    } else {
        is_ignored_name(&path[0])
    }
}

/// The segments of a path joined with `/`, as the archive names the entry.
pub open spec fn spec_join_path(path: Seq<String>) -> Seq<char>
    decreases path.len(),
{
    if path.len() == 0 {
        Seq::empty()
    } else if path.len() == 1 {
        path[0]@
    } else {
        spec_join_path(path.drop_last()) + seq!['/'] + path.last()@
    }
}

/// Joins a path's segments with `/`.
pub fn join_path(path: &Vec<String>) -> (joined: String)
    ensures
        joined@ == spec_join_path(path@),
{
    let mut joined = String::new();
    let n = path.len();
    let mut i: usize = 0;
    proof {
        assert(path@.take(0) =~= Seq::<String>::empty());
    }
    while i < n
        invariant
            0 <= i <= n,
            n == path@.len(),
            joined@ == spec_join_path(path@.take(i as int)),
        decreases n - i,
    {
        if i > 0 {
            joined.append("/");
            proof {
                reveal_strlit("/");
                assert("/"@ =~= seq!['/']);
            }
        }
        joined.append(path[i].as_str());
        proof {
            assert(path@.take(i + 1).drop_last() =~= path@.take(i as int));
            assert(path@.take(i + 1).last() == path@[i as int]);
        }
        i = i + 1;
    }
    proof {
        assert(path@.take(n as int) =~= path@);
    }
    joined
}

/// What the walk plans to archive: for each surviving entry, its path
/// segments, whether it is a directory, and its contents.
pub open spec fn spec_plan(raw: Seq<RawEntry>) -> Result<
    Seq<(Seq<String>, bool, Seq<u8>)>,
    ArchiveError,
>
    decreases raw.len(),
{
    if raw.len() == 0 {
        Ok(Seq::empty())
    } else {
        let e = raw[0];
        if spec_under_ignore(e.path@) {
            spec_plan(raw.skip(1))
        } else {
            match e.kind {
                EntryKind::Special => Err(ArchiveError::UnsupportedEntry),
                EntryKind::Dir => match spec_plan(raw.skip(1)) {
                    Ok(rest) => Ok(seq![(e.path@, true, Seq::<u8>::empty())] + rest),
                    Err(err) => Err(err),
                },
                EntryKind::File => match spec_plan(raw.skip(1)) {
                    Ok(rest) => Ok(seq![(e.path@, false, e.data@)] + rest),
                    Err(err) => Err(err),
                },
            }
        }
    }
}

/// Nothing under the ignore set survives the walk: every planned entry's
/// path has no prefix in the ignore set, so an ignored path is absent from
/// the archive together with its entire subtree, at whatever depth.
pub proof fn lemma_ignore_set_absent(raw: Seq<RawEntry>, items: Seq<(Seq<String>, bool, Seq<u8>)>)
    requires
        spec_plan(raw) == Ok::<Seq<(Seq<String>, bool, Seq<u8>)>, ArchiveError>(items),
    ensures
        forall|i: int| 0 <= i < items.len() ==> !spec_under_ignore(#[trigger] items[i].0),
    decreases raw.len(),
{
    if raw.len() == 0 {
    } else {
        let e = raw[0];
        if spec_under_ignore(e.path@) {
            lemma_ignore_set_absent(raw.skip(1), items);
        } else {
            match e.kind {
                EntryKind::Special => {},
                EntryKind::Dir => {
                    let rest = spec_plan(raw.skip(1))->Ok_0;
                    lemma_ignore_set_absent(raw.skip(1), rest);
                    assert(forall|i: int|
                        0 < i < items.len() ==> items[i] == rest[i - 1]);
                },
                EntryKind::File => {
                    let rest = spec_plan(raw.skip(1))->Ok_0;
                    lemma_ignore_set_absent(raw.skip(1), rest);
                    assert(forall|i: int|
                        0 < i < items.len() ==> items[i] == rest[i - 1]);
                },
            }
        }
    }
}

/// The planned entries as the tar container sees them: joined path,
/// directory flag, contents.
pub open spec fn spec_tar_views(items: Seq<(Seq<String>, bool, Seq<u8>)>) -> Seq<
    (Seq<char>, bool, Seq<u8>),
> {
    items.map_values(|it: (Seq<String>, bool, Seq<u8>)| (spec_join_path(it.0), it.1, it.2))
}

/// How the whole walk-and-encode pass ends, as a total function of the
/// entries: in walk order, the first entry to decide settles it — a
/// surviving special entry, or a surviving entry whose joined path the
/// container rejects — and otherwise the surviving entries come out in
/// order.  This refines [`spec_plan`] by the container's path acceptance,
/// which is the one further way the pass can fail.
pub open spec fn spec_build_outcome(raw: Seq<RawEntry>) -> Result<
    Seq<(Seq<String>, bool, Seq<u8>)>,
    ArchiveError,
>
    decreases raw.len(),
{
    if raw.len() == 0 {
        Ok(Seq::empty())
    } else {
        let e = raw[0];
        if spec_under_ignore(e.path@) {
            spec_build_outcome(raw.skip(1))
        } else {
            match e.kind {
                EntryKind::Special => Err(ArchiveError::UnsupportedEntry),
                EntryKind::Dir => if !tar_path_ok(spec_join_path(e.path@)) {
                    Err(ArchiveError::Append)
                } else {
                    match spec_build_outcome(raw.skip(1)) {
                        Ok(rest) => Ok(seq![(e.path@, true, Seq::<u8>::empty())] + rest),
                        Err(err) => Err(err),
                    }
                },
                EntryKind::File => if !tar_path_ok(spec_join_path(e.path@)) {
                    Err(ArchiveError::Append)
                } else {
                    match spec_build_outcome(raw.skip(1)) {
                        Ok(rest) => Ok(seq![(e.path@, false, e.data@)] + rest),
                        Err(err) => Err(err),
                    }
                },
            }
        }
    }
}

/// A successful pass archives exactly the planned entries: whenever the
/// walk-and-encode pass succeeds, its entries are the plan's, so what is
/// proved of the plan — in particular that nothing under the ignore set
/// survives — holds of what the archive holds.
pub proof fn lemma_build_agrees_with_plan(raw: Seq<RawEntry>)
    ensures
        spec_build_outcome(raw) matches Ok(items) ==> spec_plan(raw) == Ok::<
            Seq<(Seq<String>, bool, Seq<u8>)>,
            ArchiveError,
        >(items),
    decreases raw.len(),
{
    if raw.len() == 0 {
    } else {
        lemma_build_agrees_with_plan(raw.skip(1));
    }
}

/// The archive bytes owed for a walk: the gzip stream of the tar container
/// of the surviving entries, or the first deciding entry's error.
pub open spec fn spec_archive_bytes(raw: Seq<RawEntry>) -> Result<Seq<u8>, ArchiveError> {
    match spec_build_outcome(raw) {
        Ok(items) => Ok(gzip_of(tar_bytes_of(spec_tar_views(items)))),
        Err(err) => Err(err),
    }
}

/// A tar container under construction, over an in-memory byte buffer.
/// Opaque to the verifier: what it holds is spoken of only through
/// [`tar_contents`].  (Verus refuses to declare `tar::Builder` itself: its
/// type parameter is bound by a trait the verifier does not know.)
#[verifier::external_body]
pub struct TarSink {
    builder: tar::Builder<Vec<u8>>,
}

/// The entries appended so far to a tar sink: for each, its path, whether
/// it is a directory, and its contents.
pub uninterp spec fn tar_contents(sink: TarSink) -> Seq<(Seq<char>, bool, Seq<u8>)>;

/// The bytes of the finished tar container holding these entries.  The
/// container is a function of the entries alone: every header field the
/// builder writes is fixed here (type, mode, zero mtime, zero owner).
pub uninterp spec fn tar_bytes_of(entries: Seq<(Seq<char>, bool, Seq<u8>)>) -> Seq<u8>;

/// The gzip stream for these bytes.  The stream is a function of the input
/// alone: `flate2`'s encoder writes a fixed header — zero mtime and the
/// unknown-operating-system byte — and deflates with its pure-Rust backend
/// at the fixed default level.
pub uninterp spec fn gzip_of(bytes: Seq<u8>) -> Seq<u8>;

/// Whether the container accepts this path for an entry.  Acceptance is a
/// function of the path alone: tar::Builder::append_data rejects an empty
/// path, an absolute path, one containing `..` or a NUL byte, and accepts
/// the rest, writing over-long names through its deterministic long-name
/// extension.  Both push wrappers rely on that one function, so they share
/// this one name.
pub uninterp spec fn tar_path_ok(path: Seq<char>) -> bool;

/// Relies on tar::Builder::new over an empty buffer: a fresh builder holds
/// no entries.
#[verifier::external_body]
fn tar_new() -> (sink: TarSink)
    ensures
        tar_contents(sink) == Seq::<(Seq<char>, bool, Seq<u8>)>::empty(),
{
    TarSink { builder: tar::Builder::new(Vec::new()) }
}

/// Relies on tar::Builder::append_data with a directory header whose every
/// field is set here: it succeeds exactly when the container accepts the
/// path — its writes go to the in-memory buffer and cannot fail — and on
/// success the directory joins the appended entries, in order.
#[verifier::external_body]
fn tar_push_dir(sink: &mut TarSink, path: &String) -> (r: Result<(), ()>)
    ensures
        r is Ok <==> tar_path_ok(path@),
        r is Ok ==> tar_contents(*final(sink)) == tar_contents(*old(sink)).push(
            (path@, true, Seq::<u8>::empty()),
        ),
{
    let mut header = tar::Header::new_gnu();
    header.set_entry_type(tar::EntryType::dir());
    header.set_mode(0o755);
    header.set_size(0);
    sink.builder.append_data(&mut header, path.as_str(), std::io::empty()).map_err(|_| ())
}

/// Relies on tar::Builder::append_data with a regular-file header whose
/// every field is set here: it succeeds exactly when the container accepts
/// the path — its writes go to the in-memory buffer and cannot fail — and
/// on success the file and its contents join the appended entries, in
/// order.
#[verifier::external_body]
fn tar_push_file(sink: &mut TarSink, path: &String, data: &Vec<u8>) -> (r: Result<(), ()>)
    ensures
        r is Ok <==> tar_path_ok(path@),
        r is Ok ==> tar_contents(*final(sink)) == tar_contents(*old(sink)).push(
            (path@, false, data@),
        ),
{
    let mut header = tar::Header::new_gnu();
    header.set_entry_type(tar::EntryType::file());
    header.set_mode(0o644);
    header.set_size(data.len() as u64);
    sink.builder.append_data(&mut header, path.as_str(), data.as_slice()).map_err(|_| ())
}

/// Relies on tar::Builder::into_inner: it writes the termination blocks
/// and hands back the buffer, whose bytes are a function of the appended
/// entries alone.  The sink is an in-memory buffer, whose writes cannot
/// fail, so the call always succeeds.
#[verifier::external_body]
fn tar_finish(sink: TarSink) -> (r: Result<Vec<u8>, ()>)
    ensures
        r is Ok,
        r matches Ok(bytes) ==> bytes@ == tar_bytes_of(tar_contents(sink)),
{
    sink.builder.into_inner().map_err(|_| ())
}

/// Relies on flate2::write::GzEncoder at the default compression level:
/// its header is fixed (zero mtime, unknown-OS byte) and its deflate
/// backend is pure, so the stream is a function of the input bytes alone.
/// It writes to an in-memory buffer, whose writes cannot fail, and the
/// encoder reports no error of its own on a well-formed stream, so the
/// call always succeeds.
#[verifier::external_body]
fn gzip_compress(data: &Vec<u8>) -> (r: Result<Vec<u8>, ()>)
    ensures
        r is Ok,
        r matches Ok(bytes) ==> bytes@ == gzip_of(data@),
{
    let mut encoder = flate2::write::GzEncoder::new(Vec::new(), flate2::Compression::default());
    if std::io::Write::write_all(&mut encoder, data.as_slice()).is_err() {
        return Err(());
    }
    encoder.finish().map_err(|_| ())
}

/// Walks the entries once and encodes the survivors: skips everything
/// under the ignore set, fails explicitly on a special entry or on a path
/// the container rejects, and appends each surviving directory or file to
/// the tar container, which is then gzip-compressed.  The whole outcome is
/// pinned: success is owed exactly when no entry settles the walk with an
/// error, and then yields exactly the archive bytes owed for this walk; a
/// failure carries the first deciding entry's error.
pub fn build_archive(raw: &Vec<RawEntry>) -> (r: Result<Vec<u8>, ArchiveError>)
    ensures
        spec_build_outcome(raw@) matches Ok(items) ==> (r matches Ok(bytes) && bytes@ == gzip_of(
            tar_bytes_of(spec_tar_views(items)),
        )),
        spec_build_outcome(raw@) matches Err(err) ==> r == Err::<Vec<u8>, ArchiveError>(err),
{
    let mut sink = tar_new();
    let ghost mut items: Seq<(Seq<String>, bool, Seq<u8>)> = Seq::empty();
    let n = raw.len();
    let mut i: usize = 0;
    proof {
        assert(raw@.skip(0) =~= raw@);
        assert(spec_tar_views(items) =~= Seq::<(Seq<char>, bool, Seq<u8>)>::empty());
    }
    while i < n
        invariant
            0 <= i <= n,
            n == raw@.len(),
            tar_contents(sink) == spec_tar_views(items),
            spec_build_outcome(raw@) == (match spec_build_outcome(raw@.skip(i as int)) {
                Ok(rest) => Ok::<Seq<(Seq<String>, bool, Seq<u8>)>, ArchiveError>(items + rest),
                Err(err) => Err(err),
            }),
        decreases n - i,
    {
        let e = &raw[i];
        proof {
            assert(raw@.skip(i as int)[0] == raw@[i as int]);
            assert(raw@.skip(i as int).skip(1) =~= raw@.skip(i + 1));
        }
        if is_under_ignore(&e.path) {
            i = i + 1;
            continue ;
        }
        match e.kind {
            EntryKind::Special => {
                return Err(ArchiveError::UnsupportedEntry);
            },
            EntryKind::Dir => {
                let joined = join_path(&e.path);
                if tar_push_dir(&mut sink, &joined).is_err() {
                    return Err(ArchiveError::Append);
                }
                proof {
                    let it = (e.path@, true, Seq::<u8>::empty());
                    lemma_build_step(raw@, items, it, i as int);
                    assert(spec_tar_views(items + seq![it]) =~= spec_tar_views(items).push(
                        (spec_join_path(it.0), it.1, it.2),
                    ));
                    items = items + seq![it];
                }
            },
            EntryKind::File => {
                let joined = join_path(&e.path);
                if tar_push_file(&mut sink, &joined, &e.data).is_err() {
                    return Err(ArchiveError::Append);
                }
                proof {
                    let it = (e.path@, false, e.data@);
                    lemma_build_step(raw@, items, it, i as int);
                    assert(spec_tar_views(items + seq![it]) =~= spec_tar_views(items).push(
                        (spec_join_path(it.0), it.1, it.2),
                    ));
                    items = items + seq![it];
                }
            },
        }
        i = i + 1;
    }
    proof {
        assert(raw@.skip(n as int) =~= Seq::<RawEntry>::empty());
        assert(items + Seq::<(Seq<String>, bool, Seq<u8>)>::empty() =~= items);
    }
    let tar_bytes = match tar_finish(sink) {
        Ok(bytes) => bytes,
        Err(()) => {
            return Err(ArchiveError::Finalize);
        },
    };
    match gzip_compress(&tar_bytes) {
        Ok(bytes) => Ok(bytes),
        Err(()) => Err(ArchiveError::Finalize),
    }
}

/// One step of the walk invariant: when the entry at `i` survives the
/// filter, its path is accepted, and it encodes as `it`, appending it
/// moves the outcome equation from the suffix at `i` to the suffix at
/// `i + 1`.
proof fn lemma_build_step(
    raw: Seq<RawEntry>,
    items: Seq<(Seq<String>, bool, Seq<u8>)>,
    it: (Seq<String>, bool, Seq<u8>),
    i: int,
)
    requires
        0 <= i < raw.len(),
        !spec_under_ignore(raw[i].path@),
        raw[i].kind == EntryKind::Dir || raw[i].kind == EntryKind::File,
        tar_path_ok(spec_join_path(raw[i].path@)),
        it == (if raw[i].kind == EntryKind::Dir {
            (raw[i].path@, true, Seq::<u8>::empty())
        } else {
            (raw[i].path@, false, raw[i].data@)
        }),
        spec_build_outcome(raw) == (match spec_build_outcome(raw.skip(i)) {
            Ok(rest) => Ok::<Seq<(Seq<String>, bool, Seq<u8>)>, ArchiveError>(items + rest),
            Err(err) => Err(err),
        }),
    ensures
        spec_build_outcome(raw) == (match spec_build_outcome(raw.skip(i + 1)) {
            Ok(rest) => Ok::<Seq<(Seq<String>, bool, Seq<u8>)>, ArchiveError>(
                (items + seq![it]) + rest,
            ),
            Err(err) => Err(err),
        }),
{
    assert(raw.skip(i)[0] == raw[i]);
    assert(raw.skip(i).skip(1) =~= raw.skip(i + 1));
    match spec_build_outcome(raw.skip(i + 1)) {
        Ok(rest) => {
            assert(spec_build_outcome(raw.skip(i)) == Ok::<
                Seq<(Seq<String>, bool, Seq<u8>)>,
                ArchiveError,
            >(seq![it] + rest));
            assert(items + (seq![it] + rest) =~= (items + seq![it]) + rest);
        },
        Err(_) => {},
    }
}

/// Copies a byte buffer.
fn copy_bytes(src: &Vec<u8>) -> (dst: Vec<u8>)
    ensures
        dst@ == src@,
{
    let mut dst: Vec<u8> = Vec::new();
    let n = src.len();
    let mut i: usize = 0;
    while i < n
        invariant
            0 <= i <= n,
            n == src@.len(),
            dst@ == src@.take(i as int),
        decreases n - i,
    {
        dst.push(src[i]);
        proof {
            assert(src@.take(i + 1) =~= src@.take(i as int).push(src@[i as int]));
        }
        i = i + 1;
    }
    proof {
        assert(src@.take(n as int) =~= src@);
    }
    dst
}

/// The run's archive, built at most once.  The first call pays for the
/// walk and the encoding; every later call — whatever entries it offers —
/// receives the same bytes again, with the walk count untouched.
pub struct SourceArchiver {
    pub built: Option<Vec<u8>>,
    pub walks: u64,
}

impl SourceArchiver {
    /// A fresh archiver: nothing built, no walks performed.
    pub fn new() -> (archiver: SourceArchiver)
        ensures
            archiver.built is None,
            archiver.walks == 0,
    {
        SourceArchiver { built: None, walks: 0 }
    }

    /// How many walks this archiver has performed.
    pub fn walk_count(&self) -> (count: u64)
        ensures
            count == self.walks,
    {
        self.walks
    }

    /// Returns the run's archive bytes, building them only if no earlier
    /// call has: a call that finds the buffer built returns a
    /// byte-identical copy and performs no walk, and a call that builds
    /// performs exactly one walk and is settled by the walk alone —
    /// success owed, with exactly the bytes owed, whenever no entry
    /// settles the walk with an error, and otherwise the first deciding
    /// entry's error.  A failed build leaves the archiver unbuilt, as if
    /// the call had not happened — except for the walk it spent.
    pub fn get_archive(&mut self, raw: &Vec<RawEntry>) -> (r: Result<Vec<u8>, ArchiveError>)
        requires
            old(self).walks < u64::MAX,
        ensures
            old(self).built matches Some(built) ==> ({
                &&& r matches Ok(bytes) && bytes@ == built@
                &&& final(self).built == old(self).built
                &&& final(self).walks == old(self).walks
            }),
            old(self).built is None ==> final(self).walks == old(self).walks + 1,
            old(self).built is None ==> (spec_build_outcome(raw@) matches Ok(items) ==> (r matches
                Ok(bytes) && bytes@ == gzip_of(tar_bytes_of(spec_tar_views(items))))),
            old(self).built is None ==> (r matches Ok(bytes) ==> (final(self).built matches Some(
                kept,
            ) && kept@ == bytes@)),
            old(self).built is None ==> (spec_build_outcome(raw@) matches Err(err) ==> ({
                &&& r == Err::<Vec<u8>, ArchiveError>(err)
                &&& final(self).built is None
            })),
    {
        if self.built.is_some() {
            let bytes = match &self.built {
                Some(built) => copy_bytes(built),
                None => Vec::new(),
            };
            return Ok(bytes);
        }
        self.walks = self.walks + 1;
        match build_archive(raw) {
            Ok(bytes) => {
                self.built = Some(copy_bytes(&bytes));
                Ok(bytes)
            },
            Err(err) => Err(err),
        }
    }
}

} // verus!
