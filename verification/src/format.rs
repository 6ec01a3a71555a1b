//! The two archive format backends: gzip-compressed tar streams, read by
//! one forward pass, and zip containers, read through their central
//! directory. Both hold the container's full byte contents and satisfy the
//! [`ArchiveFile`] contract.

use std::borrow::Cow;
use std::io::Read;

use flate2::read::GzDecoder;
use tar::Archive;
use vstd::prelude::*;
use vstd::string::StringExecFns;

use crate::encoding::{fallback_view, DecoderExt};
use crate::{
    has_match, is_first_match, join, member_text, node_for, single_extraction, ArchiveError,
    ArchiveFile, Entry, ExtractDest, FsNode, MemberKind, MemberModel,
};

verus! {

/// One record read off a tar stream: its raw path bytes, its content (the
/// link target, for a symbolic link), its kind, and its permission mode.
pub struct TarMember {
    pub name_raw: Vec<u8>,
    pub content: Vec<u8>,
    pub kind: MemberKind,
    pub mode: u32,
}

impl View for TarMember {
    type V = MemberModel;

    open spec fn view(&self) -> MemberModel {
        MemberModel {
            name: self.name_raw@,
            content: self.content@,
            kind: self.kind,
            mode: self.mode,
        }
    }
}

/// The members a forward pass over a gzip-compressed tar stream yields, in
/// stream order, as far as records could be read.
pub uninterp spec fn tgz_members(data: Seq<u8>) -> Seq<MemberModel>;

/// Whether such a pass ends early on a record (or compressed byte) that
/// cannot be read, instead of at the archive's end marker.
pub uninterp spec fn tgz_truncated(data: Seq<u8>) -> bool;

/// Assemble one scanned tar record. A symbolic link's model content is its
/// stored link target; every other record keeps the bytes read from the
/// stream. A mode of 0 stands for a record that carried no readable mode.
fn tar_member(
    name_raw: Vec<u8>,
    content: Vec<u8>,
    link: Option<Vec<u8>>,
    dir: bool,
    symlink: bool,
    mode: u32,
) -> (m: TarMember)
    ensures
        m.name_raw@ == name_raw@,
        m.mode == mode,
        m.kind == (if dir {
            MemberKind::Dir
        } else if symlink {
            MemberKind::Symlink
        } else {
            MemberKind::File
        }),
        !symlink ==> m.content@ == content@,
        symlink ==> (link matches Some(l) ==> m.content@ == l@),
        symlink && link is None ==> m.content@ =~= Seq::<u8>::empty(),
{
    let kind = if dir {
        MemberKind::Dir
    } else if symlink {
        MemberKind::Symlink
    } else {
        MemberKind::File
    };
    let content = if symlink {
        match link {
            Some(l) => l,
            None => Vec::new(),
        }
    } else {
        content
    };
    TarMember { name_raw, content, kind, mode }
}

/// Relies on flate2's `GzDecoder` and tar's `Archive`/`Entries`: one
/// forward pass over the decompressed stream, taking from each record its
/// raw path bytes (`path_bytes`), its content and link target, its entry
/// type, and its mode. The pass is a function of the bytes alone; a record
/// that cannot be read ends it, which the second component reports.
#[verifier::external_body]
fn tgz_scan(data: &[u8]) -> (r: (Vec<TarMember>, bool))
    ensures
        r.0@.map_values(|m: TarMember| m@) == tgz_members(data@),
        r.1 == tgz_truncated(data@),
{
    let mut v = Vec::new();
    let mut scan = || {
        let mut ar = Archive::new(GzDecoder::new(data));
        for e in ar.entries().ok()? {
            let mut e = e.ok()?;
            let name = e.path_bytes().into_owned();
            let et = e.header().entry_type();
            let link = e.link_name_bytes().map(Cow::into_owned);
            let mut c = Vec::new();
            e.read_to_end(&mut c).ok()?;
            v.push(tar_member(name, c, link, et.is_dir(), et.is_symlink(), e.header().mode().unwrap_or(0)));
        }
        Some(())
    };
    let t = scan().is_none(); (v, t)
}

/// A handle on a gzip-compressed tar container. The format is forward-only
/// and has no upfront index; malformed data surfaces only while scanning.
///
/// The handle owns the container's full bytes rather than a partially
/// consumed operating-system stream, so every operation makes a fresh scan
/// from their start: re-listing yields the whole archive again without
/// reopening, and no operation consumes the handle. This is the resolved
/// reading of the forward-only design — each call behaves as if the
/// container had just been reopened.
pub struct TgzFile {
    data: Vec<u8>,
    fallback: Option<&'static encoding_rs::Encoding>,
}

impl TgzFile {
    /// Open a container given its full byte contents and the fallback
    /// encoding for entry-name resolution. Nothing is parsed upfront:
    /// format errors surface lazily, during the operations.
    pub fn open(data: Vec<u8>, fallback: Option<&'static encoding_rs::Encoding>) -> (r: Self)
        ensures
            r.wf(),
            r.members() == tgz_members(data@),
            r.complete() == !tgz_truncated(data@),
            r.fallback_spec() == fallback_view(fallback),
    {
        TgzFile { data, fallback }
    }
}

impl ArchiveFile for TgzFile {
    closed spec fn members(&self) -> Seq<MemberModel> {
        tgz_members(self.data@)
    }

    closed spec fn complete(&self) -> bool {
        !tgz_truncated(self.data@)
    }

    closed spec fn fallback_spec(&self) -> Option<encoding_rs::Encoding> {
        fallback_view(self.fallback)
    }

    closed spec fn wf(&self) -> bool {
        true
    }

    closed spec fn member_readable(&self, i: int) -> bool {
        true
    }

    fn entries(&mut self) -> (r: Result<Vec<Result<Entry, ArchiveError>>, ArchiveError>) {
        let (members, truncated) = tgz_scan(self.data.as_slice());
        let ghost ms = tgz_members(self.data@);
        let mut out: Vec<Result<Entry, ArchiveError>> = Vec::new();
        let mut i: usize = 0;
        while i < members.len()
            invariant
                ms == tgz_members(self.data@),
                members@.map_values(|m: TarMember| m@) == ms,
                i <= members@.len(),
                out@.len() == i,
                forall|j: int|
                    0 <= j < i ==> ((#[trigger] out@[j]) matches Ok(e) && e@ == member_text(
                        ms[j],
                        fallback_view(self.fallback),
                    )),
                *self == *old(self),
            decreases members@.len() - i,
        {
            let m = &members[i];
            let name = m.name_raw.as_slice().guess_and_decode(self.fallback);
            out.push(Ok(Entry { name }));
            i = i + 1;
        }
        if truncated {
            out.push(Err(ArchiveError::Malformed));
        }
        Ok(out)
    }

    fn extract(&mut self, entry: &str, dest: &ExtractDest) -> (r: Result<
        Vec<FsNode>,
        ArchiveError,
    >) {
        let (members, truncated) = tgz_scan(self.data.as_slice());
        let ghost ms = tgz_members(self.data@);
        let ghost fb = fallback_view(self.fallback);
        let entry_string = String::from_str(entry);
        let mut i: usize = 0;
        while i < members.len()
            invariant
                ms == tgz_members(self.data@),
                members@.map_values(|m: TarMember| m@) == ms,
                i <= members@.len(),
                entry_string@ == entry@,
                fb == fallback_view(self.fallback),
                forall|j: int| 0 <= j < i ==> member_text(ms[j], fb) != entry@,
                *self == *old(self),
            decreases members@.len() - i,
        {
            let m = &members[i];
            let name = m.name_raw.as_slice().guess_and_decode(self.fallback);
            if name == entry_string {
                proof {
                    assert(is_first_match(ms, fb, entry@, i as int));
                    assert(member_text(ms[i as int], fb) == entry@);
                    assert(has_match(ms, fb, entry@));
                }
                return match dest {
                    ExtractDest::File(f) => {
                        match m.kind {
                            MemberKind::File => Ok(
                                vec![
                                    FsNode::File {
                                        path: f.clone(),
                                        mode: m.mode,
                                        content: vstd::slice::slice_to_vec(m.content.as_slice()),
                                    },
                                ],
                            ),
                            _ => Err(ArchiveError::Unsupported),
                        }
                    },
                    ExtractDest::Dir(d) => {
                        let path = join(d.as_str(), name.as_str());
                        match m.kind {
                            MemberKind::Dir => Ok(vec![FsNode::Dir { path, mode: m.mode }]),
                            MemberKind::Symlink => Ok(
                                vec![
                                    FsNode::Symlink {
                                        path,
                                        target: vstd::slice::slice_to_vec(m.content.as_slice()),
                                    },
                                ],
                            ),
                            MemberKind::File => Ok(
                                vec![
                                    FsNode::File {
                                        path,
                                        mode: m.mode,
                                        content: vstd::slice::slice_to_vec(m.content.as_slice()),
                                    },
                                ],
                            ),
                        }
                    },
                };
            }
            i = i + 1;
        }
        if truncated {
            Err(ArchiveError::Malformed)
        } else {
            Err(ArchiveError::NotFound)
        }
    }

    fn extract_all(&mut self, dest: &str) -> (r: Result<Vec<FsNode>, ArchiveError>) {
        let (members, truncated) = tgz_scan(self.data.as_slice());
        let ghost ms = tgz_members(self.data@);
        let ghost fb = fallback_view(self.fallback);
        if truncated {
            return Err(ArchiveError::Malformed);
        }
        let mut plan: Vec<FsNode> = Vec::new();
        let mut i: usize = 0;
        while i < members.len()
            invariant
                ms == tgz_members(self.data@),
                members@.map_values(|m: TarMember| m@) == ms,
                i <= members@.len(),
                plan@.len() == i,
                fb == fallback_view(self.fallback),
                forall|j: int|
                    0 <= j < i ==> node_for(
                        #[trigger] plan@[j],
                        ms[j],
                        dest@,
                        member_text(ms[j], fb),
                    ),
                *self == *old(self),
            decreases members@.len() - i,
        {
            let m = &members[i];
            let name = m.name_raw.as_slice().guess_and_decode(self.fallback);
            let path = join(dest, name.as_str());
            match m.kind {
                MemberKind::Dir => plan.push(FsNode::Dir { path, mode: m.mode }),
                MemberKind::Symlink => plan.push(
                    FsNode::Symlink {
                        path,
                        target: vstd::slice::slice_to_vec(m.content.as_slice()),
                    },
                ),
                MemberKind::File => plan.push(
                    FsNode::File {
                        path,
                        mode: m.mode,
                        content: vstd::slice::slice_to_vec(m.content.as_slice()),
                    },
                ),
            }
            i = i + 1;
        }
        Ok(plan)
    }
}

/// `zip::ZipArchive`, the parsed central directory together with its
/// reader, treated as an opaque value.
#[verifier::external_type_specification]
#[verifier::external_body]
#[verifier::reject_recursive_types(R)]
pub struct ExZipArchive<R>(zip::ZipArchive<R>);

/// `std::io::Cursor`, the in-memory reader the zip backend hands to the
/// zip crate, treated as an opaque value.
#[verifier::external_type_specification]
#[verifier::external_body]
#[verifier::reject_recursive_types(T)]
pub struct ExCursor<T>(std::io::Cursor<T>);

/// The members a parsed zip archive holds, in central-directory order.
pub uninterp spec fn zip_members(a: zip::ZipArchive<std::io::Cursor<Vec<u8>>>) -> Seq<MemberModel>;

/// What parsing a byte sequence as a zip container yields: its members in
/// central-directory order, or nothing when the container is malformed.
pub uninterp spec fn zip_directory(data: Seq<u8>) -> Option<Seq<MemberModel>>;

/// Whether member `i`'s local record can be located in a parsed archive
/// (the probe `by_index_raw` makes). Determined by the parsed directory
/// and the underlying bytes; moving the reader does not change it.
pub uninterp spec fn zip_meta_ok(a: zip::ZipArchive<std::io::Cursor<Vec<u8>>>, i: int) -> bool;

/// The same record-locating success as a function of the container's
/// bytes, for the archive parsed from them.
pub uninterp spec fn zip_record_ok(data: Seq<u8>, i: int) -> bool;

/// Whether member `i`'s content can be decompressed and read back out of a
/// parsed archive. Determined by the parsed directory and the underlying
/// bytes; moving the reader does not change it.
pub uninterp spec fn zip_content_ok(a: zip::ZipArchive<std::io::Cursor<Vec<u8>>>, i: int) -> bool;

/// Relies on `zip::ZipArchive::new`: parsing the central directory is a
/// function of the bytes alone, and a container without a well-formed
/// central directory is rejected. On success, which member records can be
/// located is likewise fixed by the bytes.
#[verifier::external_body]
fn zip_open(data: Vec<u8>) -> (r: Result<zip::ZipArchive<std::io::Cursor<Vec<u8>>>, ArchiveError>)
    ensures
        r is Ok <==> zip_directory(data@) is Some,
        r matches Ok(a) ==> zip_directory(data@) == Some(zip_members(a)),
        r matches Ok(a) ==> (forall|i: int| zip_meta_ok(a, i) == zip_record_ok(data@, i)),
        r matches Err(e) ==> (e is Malformed || e is Io),
{
    match zip::ZipArchive::new(std::io::Cursor::new(data)) {
        Ok(archive) => Ok(archive),
        Err(zip::result::ZipError::Io(_)) => Err(ArchiveError::Io),
        Err(_) => Err(ArchiveError::Malformed),
    }
}

/// Relies on `zip::ZipArchive::len`: the number of entries in the parsed
/// central directory.
#[verifier::external_body]
fn zip_len(a: &zip::ZipArchive<std::io::Cursor<Vec<u8>>>) -> (n: usize)
    ensures
        n == zip_members(*a).len(),
{
    a.len()
}

/// Relies on `zip::ZipArchive::by_index_raw` and `ZipFile::name_raw` /
/// `is_dir` / `is_symlink` / `unix_mode`: the stored (undecoded) name
/// bytes, kind, and mode of one member; it succeeds exactly when the
/// member's local record can be located. Reading moves only the archive's
/// reader, never the parsed directory.
#[verifier::external_body]
fn zip_member_meta(a: &mut zip::ZipArchive<std::io::Cursor<Vec<u8>>>, i: usize) -> (r: Result<
    (Vec<u8>, MemberKind, u32),
    ArchiveError,
>)
    requires
        i < zip_members(*old(a)).len(),
    ensures
        zip_members(*final(a)) == zip_members(*old(a)),
        forall|j: int| zip_meta_ok(*final(a), j) == zip_meta_ok(*old(a), j),
        forall|j: int| zip_content_ok(*final(a), j) == zip_content_ok(*old(a), j),
        r is Ok <==> zip_meta_ok(*old(a), i as int),
        r matches Err(e) ==> (e is Malformed || e is Io),
        r matches Ok(m) ==> m.0@ == zip_members(*old(a))[i as int].name && m.1 == zip_members(
            *old(a),
        )[i as int].kind && m.2 == zip_members(*old(a))[i as int].mode,
{
    match a.by_index_raw(i) {
        Ok(f) => {
            let kind = if f.is_dir() { MemberKind::Dir } else if f.is_symlink() { MemberKind::Symlink } else { MemberKind::File };
            Ok((f.name_raw().to_vec(), kind, f.unix_mode().unwrap_or(0)))
        },
        Err(zip::result::ZipError::Io(_)) => Err(ArchiveError::Io),
        Err(_) => Err(ArchiveError::Malformed),
    }
}

/// Relies on `zip::ZipArchive::by_index` and `Read::read_to_end`: the
/// decompressed content of one member, succeeding exactly when that
/// content can be read back. Reading moves only the archive's reader,
/// never the parsed directory.
#[verifier::external_body]
fn zip_member_content(a: &mut zip::ZipArchive<std::io::Cursor<Vec<u8>>>, i: usize) -> (r: Result<
    Vec<u8>,
    ArchiveError,
>)
    requires
        i < zip_members(*old(a)).len(),
    ensures
        zip_members(*final(a)) == zip_members(*old(a)),
        forall|j: int| zip_meta_ok(*final(a), j) == zip_meta_ok(*old(a), j),
        forall|j: int| zip_content_ok(*final(a), j) == zip_content_ok(*old(a), j),
        r is Ok <==> zip_content_ok(*old(a), i as int),
        r matches Ok(c) ==> c@ == zip_members(*old(a))[i as int].content,
{
    let mut file = match a.by_index(i) {
        Ok(file) => file,
        Err(zip::result::ZipError::Io(_)) => return Err(ArchiveError::Io),
        Err(zip::result::ZipError::UnsupportedArchive(_)) => return Err(ArchiveError::Unsupported),
        Err(zip::result::ZipError::CompressionMethodNotSupported(_)) => return Err(ArchiveError::Unsupported),
        Err(zip::result::ZipError::InvalidPassword) => return Err(ArchiveError::Unsupported),
        Err(_) => return Err(ArchiveError::Malformed),
    };
    let mut content = Vec::new();
    match std::io::Read::read_to_end(&mut file, &mut content) {
        Ok(_) => Ok(content),
        Err(_) => Err(ArchiveError::Io),
    }
}

/// A handle on a zip container: the central directory is parsed eagerly at
/// open time, and every member's name is resolved to text once, so listing
/// can be repeated and lookups compare against the materialized names
/// without rescanning or re-decoding.
pub struct ZipFile {
    archive: zip::ZipArchive<std::io::Cursor<Vec<u8>>>,
    resolved: Vec<String>,
    kinds: Vec<MemberKind>,
    modes: Vec<u32>,
    fallback: Option<&'static encoding_rs::Encoding>,
}

impl ZipFile {
    /// Open a container given its full byte contents and the fallback
    /// encoding for entry-name resolution. Succeeds exactly when the bytes
    /// carry a well-formed central directory and every listed member's
    /// local record can be located; the error distinguishes a malformed
    /// container from a read failure.
    pub fn open(data: Vec<u8>, fallback: Option<&'static encoding_rs::Encoding>) -> (r: Result<
        Self,
        ArchiveError,
    >)
        ensures
            r is Ok <==> (zip_directory(data@) matches Some(ms) && (forall|i: int|
                0 <= i < ms.len() ==> zip_record_ok(data@, i))),
            r matches Err(e) ==> (e is Malformed || e is Io),
            r matches Ok(z) ==> {
                &&& z.wf()
                &&& zip_directory(data@) == Some(z.members())
                &&& z.complete()
                &&& z.fallback_spec() == fallback_view(fallback)
            },
    {
        let mut archive = match zip_open(data) {
            Ok(archive) => archive,
            Err(e) => {
                return Err(e);
            },
        };
        let n = zip_len(&archive);
        let mut resolved: Vec<String> = Vec::new();
        let mut kinds: Vec<MemberKind> = Vec::new();
        let mut modes: Vec<u32> = Vec::new();
        let mut i: usize = 0;
        while i < n
            invariant
                n == zip_members(archive).len(),
                i <= n,
                resolved@.len() == i,
                kinds@.len() == i,
                modes@.len() == i,
                forall|j: int|
                    0 <= j < i ==> (#[trigger] resolved@[j])@ == member_text(
                        zip_members(archive)[j],
                        fallback_view(fallback),
                    ),
                forall|j: int| 0 <= j < i ==> (#[trigger] kinds@[j]) == zip_members(archive)[j].kind,
                forall|j: int| 0 <= j < i ==> (#[trigger] modes@[j]) == zip_members(archive)[j].mode,
                forall|j: int| 0 <= j < i ==> zip_record_ok(data@, j),
                forall|k: int| zip_meta_ok(archive, k) == zip_record_ok(data@, k),
                zip_directory(data@) == Some(zip_members(archive)),
            decreases n - i,
        {
            match zip_member_meta(&mut archive, i) {
                Ok((name_raw, kind, mode)) => {
                    let name = name_raw.as_slice().guess_and_decode(fallback);
                    resolved.push(name);
                    kinds.push(kind);
                    modes.push(mode);
                },
                Err(e) => {
                    return Err(e);
                },
            }
            i = i + 1;
        }
        Ok(ZipFile { archive, resolved, kinds, modes, fallback })
    }
}

impl ArchiveFile for ZipFile {
    closed spec fn members(&self) -> Seq<MemberModel> {
        zip_members(self.archive)
    }

    closed spec fn complete(&self) -> bool {
        true
    }

    closed spec fn fallback_spec(&self) -> Option<encoding_rs::Encoding> {
        fallback_view(self.fallback)
    }

    closed spec fn wf(&self) -> bool {
        &&& self.resolved@.len() == zip_members(self.archive).len()
        &&& self.kinds@.len() == zip_members(self.archive).len()
        &&& self.modes@.len() == zip_members(self.archive).len()
        &&& forall|i: int|
            0 <= i < self.resolved@.len() ==> (#[trigger] self.resolved@[i])@ == member_text(
                zip_members(self.archive)[i],
                fallback_view(self.fallback),
            )
        &&& forall|i: int|
            0 <= i < self.kinds@.len() ==> (#[trigger] self.kinds@[i]) == zip_members(
                self.archive,
            )[i].kind
        &&& forall|i: int|
            0 <= i < self.modes@.len() ==> (#[trigger] self.modes@[i]) == zip_members(
                self.archive,
            )[i].mode
    }

    closed spec fn member_readable(&self, i: int) -> bool {
        zip_content_ok(self.archive, i)
    }

    fn entries(&mut self) -> (r: Result<Vec<Result<Entry, ArchiveError>>, ArchiveError>) {
        let mut out: Vec<Result<Entry, ArchiveError>> = Vec::new();
        let mut i: usize = 0;
        while i < self.resolved.len()
            invariant
                old(self).wf(),
                i <= self.resolved@.len(),
                out@.len() == i,
                forall|j: int|
                    0 <= j < i ==> ((#[trigger] out@[j]) matches Ok(e) && e@ == member_text(
                        zip_members(self.archive)[j],
                        fallback_view(self.fallback),
                    )),
                *self == *old(self),
            decreases self.resolved@.len() - i,
        {
            let name = self.resolved[i].clone();
            out.push(Ok(Entry { name }));
            i = i + 1;
        }
        Ok(out)
    }

    fn extract(&mut self, entry: &str, dest: &ExtractDest) -> (r: Result<
        Vec<FsNode>,
        ArchiveError,
    >) {
        let ghost ms = zip_members(self.archive);
        let ghost fb = fallback_view(self.fallback);
        let entry_string = String::from_str(entry);
        let mut i: usize = 0;
        while i < self.resolved.len()
            invariant
                old(self).wf(),
                i <= self.resolved@.len(),
                entry_string@ == entry@,
                ms == zip_members(self.archive),
                fb == fallback_view(self.fallback),
                forall|j: int| 0 <= j < i ==> member_text(ms[j], fb) != entry@,
                *self == *old(self),
            decreases self.resolved@.len() - i,
        {
            if self.resolved[i] == entry_string {
                proof {
                    assert(is_first_match(ms, fb, entry@, i as int));
                    assert(member_text(ms[i as int], fb) == entry@);
                    assert(has_match(ms, fb, entry@));
                }
                let kind = self.kinds[i];
                let mode = self.modes[i];
                return match dest {
                    ExtractDest::File(f) => {
                        match kind {
                            MemberKind::File => {
                                match zip_member_content(&mut self.archive, i) {
                                    Ok(content) => Ok(
                                        vec![FsNode::File { path: f.clone(), mode, content }],
                                    ),
                                    Err(e) => Err(e),
                                }
                            },
                            _ => Err(ArchiveError::Unsupported),
                        }
                    },
                    ExtractDest::Dir(d) => {
                        let path = join(d.as_str(), self.resolved[i].as_str());
                        match kind {
                            MemberKind::Dir => Ok(vec![FsNode::Dir { path, mode }]),
                            MemberKind::Symlink => {
                                match zip_member_content(&mut self.archive, i) {
                                    Ok(target) => Ok(vec![FsNode::Symlink { path, target }]),
                                    Err(e) => Err(e),
                                }
                            },
                            MemberKind::File => {
                                match zip_member_content(&mut self.archive, i) {
                                    Ok(content) => Ok(vec![FsNode::File { path, mode, content }]),
                                    Err(e) => Err(e),
                                }
                            },
                        }
                    },
                };
            }
            i = i + 1;
        }
        Err(ArchiveError::NotFound)
    }

    fn extract_all(&mut self, dest: &str) -> (r: Result<Vec<FsNode>, ArchiveError>) {
        let ghost ms = zip_members(self.archive);
        let ghost fb = fallback_view(self.fallback);
        let mut plan: Vec<FsNode> = Vec::new();
        let mut i: usize = 0;
        while i < self.resolved.len()
            invariant
                old(self).wf(),
                i <= self.resolved@.len(),
                plan@.len() == i,
                ms == zip_members(self.archive),
                fb == fallback_view(self.fallback),
                forall|j: int|
                    0 <= j < i ==> node_for(
                        #[trigger] plan@[j],
                        ms[j],
                        dest@,
                        member_text(ms[j], fb),
                    ),
                self.resolved == old(self).resolved,
                self.kinds == old(self).kinds,
                self.modes == old(self).modes,
                self.fallback == old(self).fallback,
                zip_members(self.archive) == zip_members(old(self).archive),
                forall|k: int|
                    zip_content_ok(self.archive, k) == zip_content_ok(old(self).archive, k),
            decreases self.resolved@.len() - i,
        {
            let path = join(dest, self.resolved[i].as_str());
            match self.kinds[i] {
                MemberKind::Dir => {
                    let mode = self.modes[i];
                    plan.push(FsNode::Dir { path, mode });
                },
                MemberKind::Symlink => {
                    match zip_member_content(&mut self.archive, i) {
                        Ok(target) => plan.push(FsNode::Symlink { path, target }),
                        Err(e) => {
                            proof {
                                assert(!(ms[i as int].kind is Dir));
                                assert(!old(self).member_readable(i as int));
                            }
                            return Err(e);
                        },
                    }
                },
                MemberKind::File => {
                    let mode = self.modes[i];
                    match zip_member_content(&mut self.archive, i) {
                        Ok(content) => plan.push(FsNode::File { path, mode, content }),
                        Err(e) => {
                            proof {
                                assert(!(ms[i as int].kind is Dir));
                                assert(!old(self).member_readable(i as int));
                            }
                            return Err(e);
                        },
                    }
                },
            }
            i = i + 1;
        }
        Ok(plan)
    }
}

} // verus!
