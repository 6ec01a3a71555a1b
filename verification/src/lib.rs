//! Reading compressed archive containers (gzip-compressed tar streams and
//! zip containers), with recovery of non-UTF-8 entry names through
//! statistical charset detection.
//!
//! The two backends work on the container's full byte contents and satisfy
//! one capability contract, [`ArchiveFile`]: enumerate entries, extract one
//! entry, extract everything. Extraction computes a plan of filesystem
//! writes ([`FsNode`] values); carrying the plan out is the caller's
//! (unverified) side of the boundary, as is reading the container file in.

use vstd::prelude::*;
use vstd::string::StringExecFns;

pub mod encoding;
pub mod format;

use crate::encoding::resolved_text;

verus! {

/// One archive member, with its name already decoded to text. Rebuilt fresh
/// on every listing call; never raw undecodable bytes.
pub struct Entry {
    pub name: String,
}

impl View for Entry {
    type V = Seq<char>;

    /// The decoded name as a sequence of characters.
    open spec fn view(&self) -> Seq<char> {
        self.name@
    }
}

/// Why an archive operation failed. Lookup misses are never conflated with
/// I/O or container-format faults, and combinations the library refuses are
/// explicit.
#[derive(Clone, Copy, Debug, PartialEq, Eq, Structural)]
pub enum ArchiveError {
    /// The requested entry name is not in the archive.
    NotFound,
    /// The container (or one of its records) is not well formed.
    Malformed,
    /// Reading through the container's bytes failed.
    Io,
    /// A combination the library refuses (extracting a directory-typed
    /// member to a single-file destination) or a container feature it does
    /// not support (encryption, an unknown compression method).
    Unsupported,
}

impl ArchiveError {
    /// A short description of the failure.
    pub fn message(&self) -> (r: &'static str)
        ensures
            r@ == self.spec_message(),
    {
        match self {
            ArchiveError::NotFound => "entry not found",
            ArchiveError::Malformed => "malformed archive",
            ArchiveError::Io => "i/o error",
            ArchiveError::Unsupported => "unsupported entry kind or container feature",
        }
    }

    /// The description as a spec value.
    pub open spec fn spec_message(self) -> Seq<char> {
        match self {
            ArchiveError::NotFound => "entry not found"@,
            ArchiveError::Malformed => "malformed archive"@,
            ArchiveError::Io => "i/o error"@,
            ArchiveError::Unsupported => "unsupported entry kind or container feature"@,
        }
    }
}

/// Where one extracted entry goes: a single concrete output file path, or a
/// directory under which the entry's relative path is reconstructed.
pub enum ExtractDest {
    File(String),
    Dir(String),
}

/// What kind of thing one archive member is. Containers carry regular
/// files, directories, and symbolic links; anything else a format can hold
/// is treated as a regular file, as the byte stream presents it.
#[derive(Clone, Copy, Debug, PartialEq, Eq, Structural)]
pub enum MemberKind {
    File,
    Dir,
    Symlink,
}

/// One filesystem write that extraction calls for: a regular file with its
/// byte content and permission mode, a directory with its mode, or a
/// symbolic link with its target. Paths of members under a destination
/// directory keep the archive's relative layout. A mode of 0 means the
/// container carried no permission metadata for the member.
pub enum FsNode {
    File { path: String, mode: u32, content: Vec<u8> },
    Dir { path: String, mode: u32 },
    Symlink { path: String, target: Vec<u8> },
}

/// The mathematical picture of one archive member: its stored raw name
/// bytes, its content, its kind, and its permission mode (0 when the
/// container carries none). For a symbolic link, `content` holds the
/// link's target bytes.
pub ghost struct MemberModel {
    pub name: Seq<u8>,
    pub content: Seq<u8>,
    pub kind: MemberKind,
    pub mode: u32,
}

/// The text a member's raw name resolves to under a fallback encoding.
pub open spec fn member_text(m: MemberModel, fb: Option<encoding_rs::Encoding>) -> Seq<char> {
    resolved_text(m.name, fb)
}

/// Whether some member's resolved name is exactly `name`.
pub open spec fn has_match(
    ms: Seq<MemberModel>,
    fb: Option<encoding_rs::Encoding>,
    name: Seq<char>,
) -> bool {
    exists|i: int| 0 <= i < ms.len() && member_text(ms[i], fb) == name
}

/// Whether `i` is the first member whose resolved name is exactly `name`:
/// lookups take the first match, since tar allows duplicate names.
pub open spec fn is_first_match(
    ms: Seq<MemberModel>,
    fb: Option<encoding_rs::Encoding>,
    name: Seq<char>,
    i: int,
) -> bool {
    &&& 0 <= i < ms.len()
    &&& member_text(ms[i], fb) == name
    &&& forall|j: int| 0 <= j < i ==> member_text(ms[j], fb) != name
}

/// A path under a destination directory: the directory, a separator, the
/// member's relative path.
pub open spec fn join_path(dir: Seq<char>, rel: Seq<char>) -> Seq<char> {
    dir + "/"@ + rel
}

/// Whether `n` is the filesystem write that materializes member `m`, whose
/// resolved name is `text`, under the destination directory `root`.
pub open spec fn node_for(n: FsNode, m: MemberModel, root: Seq<char>, text: Seq<char>) -> bool {
    match m.kind {
        MemberKind::Dir => n matches FsNode::Dir { path, mode } && path@ == join_path(root, text)
            && mode == m.mode,
        MemberKind::File => n matches FsNode::File { path, mode, content } && path@ == join_path(
            root,
            text,
        ) && mode == m.mode && content@ == m.content,
        MemberKind::Symlink => n matches FsNode::Symlink { path, target } && path@ == join_path(
            root,
            text,
        ) && target@ == m.content,
    }
}

/// Whether `plan` is the write plan for extracting the single member `m`
/// (resolved name `text`) to `dest`.
pub open spec fn single_extraction(
    plan: Seq<FsNode>,
    m: MemberModel,
    text: Seq<char>,
    dest: ExtractDest,
) -> bool {
    match dest {
        ExtractDest::File(f) => {
            &&& m.kind is File
            &&& plan.len() == 1
            &&& plan[0] matches FsNode::File { path, mode, content } && path@ == f@ && mode
                == m.mode && content@ == m.content
        },
        ExtractDest::Dir(d) => plan.len() == 1 && node_for(plan[0], m, d@, text),
    }
}

/// The capability contract every archive backend satisfies. Callers program
/// against it and never branch on the container format.
///
/// Each backend gives the spec-level picture of itself through `members`
/// (one model per member, in the container's native order), `complete`
/// (whether that picture covers the whole container, which a forward-only
/// stream may fail to yield), and `fallback_spec` (the encoding the handle
/// falls back to for unconfident name detection).
pub trait ArchiveFile: Sized {
    /// The members the handle can see, in native order.
    spec fn members(&self) -> Seq<MemberModel>;

    /// Whether `members` covers the whole container; false when a malformed
    /// record cut the scan short.
    spec fn complete(&self) -> bool;

    /// The handle's fallback encoding for name resolution.
    spec fn fallback_spec(&self) -> Option<encoding_rs::Encoding>;

    /// Well-formedness of the handle, established by its constructor and
    /// preserved by every operation.
    spec fn wf(&self) -> bool;

    /// Whether member `i`'s content can be read back out of the container.
    /// Extraction owes success exactly for readable members; a backend that
    /// has already read every member it lists holds this of all of them.
    spec fn member_readable(&self, i: int) -> bool;

    /// List the archive's entries, each name passed through the encoding
    /// resolver. One `Entry` per member the scan could read, in native
    /// order; a trailing error item reports a record that could not be
    /// read. Listing never fails as a whole.
    fn entries(&mut self) -> (r: Result<Vec<Result<Entry, ArchiveError>>, ArchiveError>)
        requires
            old(self).wf(),
        ensures
            final(self).wf(),
            final(self).members() == old(self).members(),
            final(self).complete() == old(self).complete(),
            final(self).fallback_spec() == old(self).fallback_spec(),
            forall|i: int| final(self).member_readable(i) == old(self).member_readable(i),
            r is Ok,
            r matches Ok(es) ==> {
                &&& es@.len() == old(self).members().len() + (if old(self).complete() {
                    0int
                } else {
                    1int
                })
                &&& forall|i: int|
                    0 <= i < old(self).members().len() ==> ((#[trigger] es@[i]) matches Ok(e)
                        && e@ == member_text(old(self).members()[i], old(self).fallback_spec()))
                &&& !old(self).complete() ==> (es@.last() matches Err(e) && e is Malformed)
            },
    ;

    /// Extract the first member whose resolved name is exactly `entry`,
    /// computing the filesystem writes it calls for. An absent name is
    /// `NotFound` and calls for no write at all; a member that is not a
    /// regular file is refused for a single-file destination. Success is
    /// owed whenever the matched member is readable (a directory member
    /// under a directory destination needs no read at all).
    fn extract(&mut self, entry: &str, dest: &ExtractDest) -> (r: Result<Vec<FsNode>, ArchiveError>)
        requires
            old(self).wf(),
        ensures
            final(self).wf(),
            final(self).members() == old(self).members(),
            final(self).complete() == old(self).complete(),
            final(self).fallback_spec() == old(self).fallback_spec(),
            forall|i: int| final(self).member_readable(i) == old(self).member_readable(i),
            !has_match(old(self).members(), old(self).fallback_spec(), entry@) && old(
                self,
            ).complete() ==> (r matches Err(e) && e is NotFound),
            !has_match(old(self).members(), old(self).fallback_spec(), entry@) && !old(
                self,
            ).complete() ==> (r matches Err(e) && e is Malformed),
            forall|i: int|
                is_first_match(old(self).members(), old(self).fallback_spec(), entry@, i) ==> {
                    &&& !(old(self).members()[i].kind is File) && (*dest
                        matches ExtractDest::File(_)) ==> (r matches Err(e) && e is Unsupported)
                    &&& old(self).members()[i].kind is Dir && (*dest matches ExtractDest::Dir(_))
                        ==> r is Ok
                    &&& old(self).members()[i].kind is File && old(self).member_readable(i)
                        ==> r is Ok
                    &&& old(self).members()[i].kind is Symlink && (*dest
                        matches ExtractDest::Dir(_)) && old(self).member_readable(i) ==> r is Ok
                    &&& r matches Ok(plan) ==> single_extraction(
                        plan@,
                        old(self).members()[i],
                        entry@,
                        *dest,
                    )
                },
            r is Ok ==> has_match(old(self).members(), old(self).fallback_spec(), entry@),
    ;

    /// Extract every member under the destination directory, keeping the
    /// archive's relative path layout. Fails without a plan when the scan
    /// of the container cannot be completed; succeeds whenever the scan is
    /// complete and every listed non-directory member is readable.
    fn extract_all(&mut self, dest: &str) -> (r: Result<Vec<FsNode>, ArchiveError>)
        requires
            old(self).wf(),
        ensures
            final(self).wf(),
            final(self).members() == old(self).members(),
            final(self).complete() == old(self).complete(),
            final(self).fallback_spec() == old(self).fallback_spec(),
            forall|i: int| final(self).member_readable(i) == old(self).member_readable(i),
            !old(self).complete() ==> (r matches Err(e) && e is Malformed),
            old(self).complete() && (forall|i: int|
                0 <= i < old(self).members().len() && !(old(self).members()[i].kind is Dir)
                    ==> old(self).member_readable(i)) ==> r is Ok,
            r matches Ok(plan) ==> {
                &&& old(self).complete()
                &&& plan@.len() == old(self).members().len()
                &&& forall|i: int|
                    0 <= i < plan@.len() ==> node_for(
                        #[trigger] plan@[i],
                        old(self).members()[i],
                        dest@,
                        member_text(old(self).members()[i], old(self).fallback_spec()),
                    )
            },
    ;
}

/// Join a destination directory and a member's relative path.
pub fn join(dir: &str, rel: &str) -> (r: String)
    ensures
        r@ == join_path(dir@, rel@),
{
    let mut s = String::from_str(dir);
    s.append("/");
    s.append(rel);
    s
}

} // verus!
