//! A publish transaction: the plan computed from an upload, the steps that
//! store it and record it in the index repository, and how a failure is
//! reported.
//!
//! The steps run in a fixed order. Each one either succeeds, and the next
//! one runs, or fails, and the transaction ends there with an error that
//! names the step. Nothing is rolled back: files written before a failure
//! stay on disk and are picked up by the next transaction that stages.

use crate::checksum::{checksum, checksum_of};
use crate::err_context::{context_message_of, traceback, traceback_of, ErrWithContext};
use crate::metadata::{crate_to_package, is_record_of, PublishedCrate, RegistryPackage};
use crate::payload::{FramePart, PayloadError};
use crate::sharding::{index_path, index_path_of, lower_of, lowercase, shard_dir, shard_dir_of};
use crate::storage::{
    archive_dir, archive_dir_of, archive_path, archive_path_of, download_path_of, is_storable_segment, lemma_download_finds_archive,
    storable_segment,
};
use vstd::prelude::*;
use vstd::string::*;

verus! {

/// Why a publish failed.
pub enum PublishError {
    /// The request carried no body.
    NoData,
    /// Reading the payload or writing a file failed.
    Io(ErrWithContext<String>),
    /// The package descriptor is not a valid one.
    BadDescriptor(ErrWithContext<String>),
    /// The index record could not be serialised.
    BadRecord(ErrWithContext<String>),
    /// Recording the change in the index repository failed.
    Git(ErrWithContext<String>),
}

/// The headline of each kind of publish error.
pub open spec fn error_headline_of(e: PublishError) -> Seq<char> {
    match e {
        PublishError::NoData => "Unable to retrieve the data"@,
        PublishError::Io(_) => "I/O error while publishing"@,
        PublishError::BadDescriptor(_) => "Failed to parse JSON data"@,
        PublishError::BadRecord(_) => "Failed to generate index record"@,
        PublishError::Git(_) => "Failed to commit changes to index"@,
    }
}

/// The chain of messages of a publish error, outermost first: the headline,
/// then the step label, then the underlying cause.
pub open spec fn error_chain_of(e: PublishError) -> Seq<Seq<char>> {
    match e {
        PublishError::NoData => seq![error_headline_of(e)],
        PublishError::Io(c) => seq![error_headline_of(e), context_message_of(c.context@), c.source@],
        PublishError::BadDescriptor(c) => seq![
            error_headline_of(e),
            context_message_of(c.context@),
            c.source@,
        ],
        PublishError::BadRecord(c) => seq![error_headline_of(e), context_message_of(c.context@), c.source@],
        PublishError::Git(c) => seq![error_headline_of(e), context_message_of(c.context@), c.source@],
    }
}

impl PublishError {
    /// The headline of this error, without its causes.
    pub fn headline(&self) -> (r: String)
        ensures
            r@ == error_headline_of(*self),
    {
        match self {
            PublishError::NoData => String::from_str("Unable to retrieve the data"),
            PublishError::Io(_) => String::from_str("I/O error while publishing"),
            PublishError::BadDescriptor(_) => String::from_str("Failed to parse JSON data"),
            PublishError::BadRecord(_) => String::from_str("Failed to generate index record"),
            PublishError::Git(_) => String::from_str("Failed to commit changes to index"),
        }
    }

    /// The messages of this error and its causes, outermost first.
    pub fn chain(&self) -> (r: Vec<String>)
        ensures
            r@.map_values(|m: String| m@) == error_chain_of(*self),
    {
        let mut r: Vec<String> = Vec::new();
        r.push(self.headline());
        match self {
            PublishError::NoData => {},
            PublishError::Io(c) | PublishError::BadDescriptor(c) | PublishError::BadRecord(c)
            | PublishError::Git(c) => {
                r.push(c.message());
                r.push(c.source.clone());
            },
        }
        proof {
            assert(r@.map_values(|m: String| m@) =~= error_chain_of(*self));
        }
        r
    }

    /// The HTTP status a failed publish is answered with: 400 when the
    /// request itself is at fault (no body, or a descriptor that is not a
    /// valid one), 500 when the registry failed to store or record it.
    /// Failures get these statuses rather than a success status with an
    /// error body.
    pub fn status_code(&self) -> (r: u16)
        ensures
            r == match *self {
                PublishError::NoData | PublishError::BadDescriptor(_) => 400u16,
                PublishError::Io(_) | PublishError::BadRecord(_) | PublishError::Git(_) => 500u16,
            },
    {
        match self {
            PublishError::NoData | PublishError::BadDescriptor(_) => 400,
            PublishError::Io(_) | PublishError::BadRecord(_) | PublishError::Git(_) => 500,
        }
    }

    /// The full trace of this error: every message of the chain on its own
    /// line, separated by `Caused by:` lines.
    pub fn trace(&self) -> (r: String)
        ensures
            r@ == traceback_of(error_chain_of(*self)),
    {
        let chain = self.chain();
        traceback(chain.as_slice())
    }
}

/// The label of the payload section whose reading was cut short.
pub open spec fn frame_label_of(part: FramePart) -> Seq<char> {
    match part {
        FramePart::DescriptorSize => "Read JSON size"@,
        FramePart::Descriptor => "Read JSON"@,
        FramePart::ArchiveSize => "Read tarball size"@,
        FramePart::Archive => "Read tarball"@,
    }
}

/// The cause recorded when a payload ends before a declared section does.
pub open spec fn truncated_cause() -> Seq<char> {
    "payload ended early"@
}

/// The publish error for a payload that could not be framed.
pub fn payload_failure(e: PayloadError) -> (r: PublishError)
    ensures
        e == PayloadError::NoData ==> r == PublishError::NoData,
        forall|part: FramePart| e == PayloadError::Truncated(part) ==> (r is Io
            && r->Io_0.context@ == frame_label_of(part)
            && r->Io_0.source@ == truncated_cause()),
{
    match e {
        PayloadError::NoData => PublishError::NoData,
        PayloadError::Truncated(part) => {
            let context = match part {
                FramePart::DescriptorSize => String::from_str("Read JSON size"),
                FramePart::Descriptor => String::from_str("Read JSON"),
                FramePart::ArchiveSize => String::from_str("Read tarball size"),
                FramePart::Archive => String::from_str("Read tarball"),
            };
            PublishError::Io(ErrWithContext { context, source: String::from_str("payload ended early") })
        },
    }
}

/// The publish error for descriptor bytes that do not parse into a package
/// descriptor; `detail` says why.
pub fn descriptor_failure(detail: String) -> (r: PublishError)
    ensures
        r is BadDescriptor,
        r->BadDescriptor_0.context@ == "Parse JSON"@,
        r->BadDescriptor_0.source == detail,
{
    PublishError::BadDescriptor(ErrWithContext { context: String::from_str("Parse JSON"), source: detail })
}

/// The publish error for an index record that could not be serialised;
/// `detail` says why.
pub fn record_encoding_failure(detail: String) -> (r: PublishError)
    ensures
        r is BadRecord,
        r->BadRecord_0.context@ == "Generate JSON"@,
        r->BadRecord_0.source == detail,
{
    PublishError::BadRecord(ErrWithContext { context: String::from_str("Generate JSON"), source: detail })
}

} // verus!

verus! {

/// Everything a publish writes: the archive and where it goes, and the index
/// record and the index file it is appended to, with the directory each
/// file goes in. Paths are relative to the crates root and to the index root.
pub struct PublishPlan {
    pub archive_dir: String,
    pub archive_path: String,
    pub archive: Vec<u8>,
    pub index_dir: String,
    pub index_path: String,
    pub record: RegistryPackage,
}

/// What keeps a descriptor from being stored, as the label and the detail
/// of the error reported: a name, then a version, that cannot be used as a
/// directory name.
pub open spec fn descriptor_problem(d: PublishedCrate) -> Option<(Seq<char>, Seq<char>)> {
    if !is_storable_segment(d.name@) {
        Some(("Check crate name"@, "not usable as a directory name"@))
    } else if !is_storable_segment(d.vers@) {
        Some(("Check version"@, "not usable as a directory name"@))
    } else {
        None
    }
}

/// Whether a descriptor can be stored: its name and version are usable as
/// directory names.
pub open spec fn is_publishable(d: PublishedCrate) -> bool {
    descriptor_problem(d) is None
}

/// The plan of a publish: the archive goes to `<name>/<version>/archive.crate`,
/// and the index record, whose checksum is that of the archive, goes to the
/// sharded index file of the lowercased name.
pub open spec fn is_plan_of(p: PublishPlan, d: PublishedCrate, archive: Seq<u8>) -> bool {
    &&& p.archive_dir@ == archive_dir_of(d.name@, d.vers@)
    &&& p.archive_path@ == archive_path_of(d.name@, d.vers@)
    &&& p.archive@ == archive
    &&& p.index_dir@ == shard_dir_of(lower_of(d.name@))
    &&& p.index_path@ == index_path_of(lower_of(d.name@))
    &&& p.record.cksum@ == checksum_of(archive)
    &&& is_record_of(p.record, d, p.record.cksum)
}

/// Computes what a publish of `descriptor` with archive bytes `archive`
/// writes. Fails with `BadDescriptor` exactly when the descriptor cannot be
/// stored, labelled with what is wrong with it.
pub fn plan_publish(descriptor: PublishedCrate, archive: Vec<u8>) -> (r: Result<PublishPlan, PublishError>)
    ensures
        match descriptor_problem(descriptor) {
            Some((label, detail)) => r is Err && r->Err_0 is BadDescriptor
                && r->Err_0->BadDescriptor_0.context@ == label
                && r->Err_0->BadDescriptor_0.source@ == detail,
            None => r is Ok && is_plan_of(r->Ok_0, descriptor, archive@),
        },
{
    if !storable_segment(descriptor.name.as_str()) {
        return Err(PublishError::BadDescriptor(ErrWithContext {
            context: String::from_str("Check crate name"),
            source: String::from_str("not usable as a directory name"),
        }));
    }
    if !storable_segment(descriptor.vers.as_str()) {
        return Err(PublishError::BadDescriptor(ErrWithContext {
            context: String::from_str("Check version"),
            source: String::from_str("not usable as a directory name"),
        }));
    }
    // A storable name is not empty, and neither is its lowercase form.
    let lower = lowercase(descriptor.name.as_str());
    let index_dir = shard_dir(lower.as_str());
    let index_path = index_path(lower.as_str());
    let archive_dir = archive_dir(descriptor.name.as_str(), descriptor.vers.as_str());
    let archive_path = archive_path(descriptor.name.as_str(), descriptor.vers.as_str());
    let cksum = checksum(archive.as_slice());
    let ghost d = descriptor;
    let record = crate_to_package(descriptor, cksum);
    proof {
        assert(is_record_of(record, d, record.cksum));
    }
    Ok(PublishPlan { archive_dir, archive_path, archive, index_dir, index_path, record })
}

} // verus!

verus! {

/// One step of a publish transaction, in the order they run.
#[derive(Clone, Copy, Debug, PartialEq, Eq, Structural)]
pub enum PublishStep {
    CreateArchiveDir,
    CreateArchiveFile,
    WriteArchive,
    CreateIndexDir,
    OpenIndexFile,
    AppendIndexLine,
    FindOrigin,
    GetIndex,
    StageAll,
    WriteIndex,
    WriteTree,
    FindTree,
    ResolveRemoteMaster,
    FindMasterCommit,
    GetSignature,
    Commit,
    Push,
}

/// The phase of a transaction that a step belongs to. Every phase but
/// `Storing` works on the shared index repository, which a transaction
/// holds exclusively from its first staging step to its end.
#[derive(Clone, Copy, Debug, PartialEq, Eq, Structural)]
pub enum SyncPhase {
    Storing,
    Staging,
    TreeBuilding,
    Committing,
    Pushing,
}

/// Where a transaction stands.
pub enum TxState {
    /// The step named here is the next to run.
    Running(PublishStep),
    /// Every step succeeded.
    Done,
    /// A step failed; no further step runs.
    Failed(PublishError),
}

/// The position of a step in the transaction.
pub open spec fn step_index(s: PublishStep) -> int {
    match s {
        PublishStep::CreateArchiveDir => 0,
        PublishStep::CreateArchiveFile => 1,
        PublishStep::WriteArchive => 2,
        PublishStep::CreateIndexDir => 3,
        PublishStep::OpenIndexFile => 4,
        PublishStep::AppendIndexLine => 5,
        PublishStep::FindOrigin => 6,
        PublishStep::GetIndex => 7,
        PublishStep::StageAll => 8,
        PublishStep::WriteIndex => 9,
        PublishStep::WriteTree => 10,
        PublishStep::FindTree => 11,
        PublishStep::ResolveRemoteMaster => 12,
        PublishStep::FindMasterCommit => 13,
        PublishStep::GetSignature => 14,
        PublishStep::Commit => 15,
        PublishStep::Push => 16,
    }
}

/// The step that follows `s`, if any.
pub open spec fn next_step_of(s: PublishStep) -> Option<PublishStep> {
    match s {
        PublishStep::CreateArchiveDir => Some(PublishStep::CreateArchiveFile),
        PublishStep::CreateArchiveFile => Some(PublishStep::WriteArchive),
        PublishStep::WriteArchive => Some(PublishStep::CreateIndexDir),
        PublishStep::CreateIndexDir => Some(PublishStep::OpenIndexFile),
        PublishStep::OpenIndexFile => Some(PublishStep::AppendIndexLine),
        PublishStep::AppendIndexLine => Some(PublishStep::FindOrigin),
        PublishStep::FindOrigin => Some(PublishStep::GetIndex),
        PublishStep::GetIndex => Some(PublishStep::StageAll),
        PublishStep::StageAll => Some(PublishStep::WriteIndex),
        PublishStep::WriteIndex => Some(PublishStep::WriteTree),
        PublishStep::WriteTree => Some(PublishStep::FindTree),
        PublishStep::FindTree => Some(PublishStep::ResolveRemoteMaster),
        PublishStep::ResolveRemoteMaster => Some(PublishStep::FindMasterCommit),
        PublishStep::FindMasterCommit => Some(PublishStep::GetSignature),
        PublishStep::GetSignature => Some(PublishStep::Commit),
        PublishStep::Commit => Some(PublishStep::Push),
        PublishStep::Push => None,
    }
}

/// The phase of each step.
pub open spec fn step_phase_of(s: PublishStep) -> SyncPhase {
    match s {
        PublishStep::CreateArchiveDir | PublishStep::CreateArchiveFile | PublishStep::WriteArchive
        | PublishStep::CreateIndexDir | PublishStep::OpenIndexFile
        | PublishStep::AppendIndexLine => SyncPhase::Storing,
        PublishStep::FindOrigin | PublishStep::GetIndex | PublishStep::StageAll
        | PublishStep::WriteIndex => SyncPhase::Staging,
        PublishStep::WriteTree | PublishStep::FindTree => SyncPhase::TreeBuilding,
        PublishStep::ResolveRemoteMaster | PublishStep::FindMasterCommit | PublishStep::GetSignature
        | PublishStep::Commit => SyncPhase::Committing,
        PublishStep::Push => SyncPhase::Pushing,
    }
}

/// The label a failure of each step is reported under.
pub open spec fn step_label_of(s: PublishStep) -> Seq<char> {
    match s {
        PublishStep::CreateArchiveDir => "Create dir for tarball"@,
        PublishStep::CreateArchiveFile => "Create file for tarball"@,
        PublishStep::WriteArchive => "Write tarball"@,
        PublishStep::CreateIndexDir => "Create dir for crate data"@,
        PublishStep::OpenIndexFile => "Open file for crate data"@,
        PublishStep::AppendIndexLine => "Append crate data"@,
        PublishStep::GetIndex => "Get index"@,
        PublishStep::StageAll => "Add path"@,
        PublishStep::WriteIndex => "Write index"@,
        PublishStep::WriteTree => "Write index tree"@,
        PublishStep::FindTree => "Find index tree"@,
        PublishStep::ResolveRemoteMaster => "Resolve remote master"@,
        PublishStep::FindMasterCommit => "Find commit for master"@,
        PublishStep::GetSignature => "Get repo signature"@,
        PublishStep::Commit => "Commit"@,
        PublishStep::FindOrigin => "Get remote origin"@,
        PublishStep::Push => "Push to origin"@,
    }
}

/// `e` reports that step `s` failed with cause `cause`: a storing step as an
/// I/O error, any other as a repository error, labelled with the step.
pub open spec fn is_step_failure(e: PublishError, s: PublishStep, cause: String) -> bool {
    match e {
        PublishError::Io(c) => step_phase_of(s) == SyncPhase::Storing && c.context@ == step_label_of(s)
            && c.source == cause,
        PublishError::Git(c) => step_phase_of(s) != SyncPhase::Storing && c.context@
            == step_label_of(s) && c.source == cause,
        _ => false,
    }
}

impl PublishStep {
    /// The first step of every transaction.
    pub fn first() -> (r: PublishStep)
        ensures
            step_index(r) == 0,
    {
        PublishStep::CreateArchiveDir
    }

    /// The step after this one, if any.
    pub fn next(self) -> (r: Option<PublishStep>)
        ensures
            r == next_step_of(self),
    {
        match self {
            PublishStep::CreateArchiveDir => Some(PublishStep::CreateArchiveFile),
            PublishStep::CreateArchiveFile => Some(PublishStep::WriteArchive),
            PublishStep::WriteArchive => Some(PublishStep::CreateIndexDir),
            PublishStep::CreateIndexDir => Some(PublishStep::OpenIndexFile),
            PublishStep::OpenIndexFile => Some(PublishStep::AppendIndexLine),
            PublishStep::AppendIndexLine => Some(PublishStep::FindOrigin),
            PublishStep::FindOrigin => Some(PublishStep::GetIndex),
            PublishStep::GetIndex => Some(PublishStep::StageAll),
            PublishStep::StageAll => Some(PublishStep::WriteIndex),
            PublishStep::WriteIndex => Some(PublishStep::WriteTree),
            PublishStep::WriteTree => Some(PublishStep::FindTree),
            PublishStep::FindTree => Some(PublishStep::ResolveRemoteMaster),
            PublishStep::ResolveRemoteMaster => Some(PublishStep::FindMasterCommit),
            PublishStep::FindMasterCommit => Some(PublishStep::GetSignature),
            PublishStep::GetSignature => Some(PublishStep::Commit),
            PublishStep::Commit => Some(PublishStep::Push),
            PublishStep::Push => None,
        }
    }

    /// The phase this step belongs to.
    pub fn phase(self) -> (r: SyncPhase)
        ensures
            r == step_phase_of(self),
    {
        match self {
            PublishStep::CreateArchiveDir | PublishStep::CreateArchiveFile | PublishStep::WriteArchive
            | PublishStep::CreateIndexDir | PublishStep::OpenIndexFile
            | PublishStep::AppendIndexLine => SyncPhase::Storing,
            PublishStep::FindOrigin | PublishStep::GetIndex | PublishStep::StageAll
            | PublishStep::WriteIndex => SyncPhase::Staging,
            PublishStep::WriteTree | PublishStep::FindTree => SyncPhase::TreeBuilding,
            PublishStep::ResolveRemoteMaster | PublishStep::FindMasterCommit | PublishStep::GetSignature
            | PublishStep::Commit => SyncPhase::Committing,
            PublishStep::Push => SyncPhase::Pushing,
        }
    }

    /// Whether this step works on the shared index repository.
    pub fn needs_repository(self) -> (r: bool)
        ensures
            r == (step_phase_of(self) != SyncPhase::Storing),
    {
        !matches!(self.phase(), SyncPhase::Storing)
    }

    /// The label a failure of this step is reported under.
    pub fn label(self) -> (r: String)
        ensures
            r@ == step_label_of(self),
    {
        match self {
            PublishStep::CreateArchiveDir => String::from_str("Create dir for tarball"),
            PublishStep::CreateArchiveFile => String::from_str("Create file for tarball"),
            PublishStep::WriteArchive => String::from_str("Write tarball"),
            PublishStep::CreateIndexDir => String::from_str("Create dir for crate data"),
            PublishStep::OpenIndexFile => String::from_str("Open file for crate data"),
            PublishStep::AppendIndexLine => String::from_str("Append crate data"),
            PublishStep::GetIndex => String::from_str("Get index"),
            PublishStep::StageAll => String::from_str("Add path"),
            PublishStep::WriteIndex => String::from_str("Write index"),
            PublishStep::WriteTree => String::from_str("Write index tree"),
            PublishStep::FindTree => String::from_str("Find index tree"),
            PublishStep::ResolveRemoteMaster => String::from_str("Resolve remote master"),
            PublishStep::FindMasterCommit => String::from_str("Find commit for master"),
            PublishStep::GetSignature => String::from_str("Get repo signature"),
            PublishStep::Commit => String::from_str("Commit"),
            PublishStep::FindOrigin => String::from_str("Get remote origin"),
            PublishStep::Push => String::from_str("Push to origin"),
        }
    }
}

/// The state of a transaction that has not run any step yet.
pub fn begin_transaction() -> (r: TxState)
    ensures
        r == TxState::Running(PublishStep::CreateArchiveDir),
{
    TxState::Running(PublishStep::first())
}

/// The state after step `step` ran with outcome `outcome`: on success the
/// next step, or `Done` after the last one; on failure `Failed`, with the
/// cause labelled by the step.
pub fn advance(step: PublishStep, outcome: Result<(), String>) -> (r: TxState)
    ensures
        outcome is Ok ==> match next_step_of(step) {
            Some(n) => r == TxState::Running(n),
            None => r == TxState::Done,
        },
        outcome is Err ==> r is Failed && is_step_failure(r->Failed_0, step, outcome->Err_0),
{
    match outcome {
        Ok(()) => match step.next() {
            Some(n) => TxState::Running(n),
            None => TxState::Done,
        },
        Err(cause) => {
            let context = step.label();
            if step.needs_repository() {
                TxState::Failed(PublishError::Git(ErrWithContext { context, source: cause }))
            } else {
                TxState::Failed(PublishError::Io(ErrWithContext { context, source: cause }))
            }
        },
    }
}

/// The steps form one chain: the first has position zero, each next step
/// comes one position later, the chain ends only after `Push`, and phases
/// never go back.
pub proof fn lemma_step_order(s: PublishStep)
    ensures
        0 <= step_index(s) <= step_index(PublishStep::Push),
        next_step_of(s) is None <==> s == PublishStep::Push,
        next_step_of(s) is Some ==> step_index(next_step_of(s)->Some_0) == step_index(s) + 1,
        next_step_of(s) is Some ==> phase_rank(step_phase_of(s)) <= phase_rank(
            step_phase_of(next_step_of(s)->Some_0),
        ),
{
}

/// The order of the phases.
pub open spec fn phase_rank(p: SyncPhase) -> int {
    match p {
        SyncPhase::Storing => 0,
        SyncPhase::Staging => 1,
        SyncPhase::TreeBuilding => 2,
        SyncPhase::Committing => 3,
        SyncPhase::Pushing => 4,
    }
}

} // verus!

verus! {

/// The line appended to a crate's index file: the serialised record and a
/// newline.
pub fn index_line(record_json: &str) -> (r: String)
    ensures
        r@ == record_json@ + seq!['\n'],
{
    proof {
        reveal_strlit("\n");
        assert("\n"@ =~= seq!['\n']);
    }
    String::from_str(record_json).concat("\n")
}

/// The lines of the index file at `path`; none when there is no such file.
pub open spec fn index_lines_at(index: Map<Seq<char>, Seq<Seq<char>>>, path: Seq<char>) -> Seq<Seq<char>> {
    if index.contains_key(path) {
        index[path]
    } else {
        seq![]
    }
}

/// The archives stored under the crates root, by relative path, after the
/// storing steps of plan `p` ran: its archive replaces whatever was there.
pub open spec fn archives_after(archives: Map<Seq<char>, Seq<u8>>, p: PublishPlan) -> Map<Seq<char>, Seq<u8>> {
    archives.insert(p.archive_path@, p.archive@)
}

/// The index files, as lists of lines by relative path, after the storing
/// steps of plan `p` ran with serialised record `line`: the line is appended
/// and nothing else changes.
pub open spec fn index_after(index: Map<Seq<char>, Seq<Seq<char>>>, p: PublishPlan, line: Seq<char>) -> Map<
    Seq<char>,
    Seq<Seq<char>>,
> {
    index.insert(p.index_path@, index_lines_at(index, p.index_path@).push(line))
}

/// Publishing the same name and version twice leaves both records in the
/// crate's index file, oldest first: records are never merged or replaced.
pub proof fn lemma_republish_appends(
    index: Map<Seq<char>, Seq<Seq<char>>>,
    d1: PublishedCrate,
    a1: Seq<u8>,
    p1: PublishPlan,
    line1: Seq<char>,
    d2: PublishedCrate,
    a2: Seq<u8>,
    p2: PublishPlan,
    line2: Seq<char>,
)
    requires
        is_plan_of(p1, d1, a1),
        is_plan_of(p2, d2, a2),
        d1.name == d2.name,
        d1.vers == d2.vers,
    ensures
        p1.index_path@ == p2.index_path@,
        index_lines_at(index_after(index_after(index, p1, line1), p2, line2), p2.index_path@)
            == index_lines_at(index, p1.index_path@) + seq![line1, line2],
        index_lines_at(index_after(index_after(index, p1, line1), p2, line2), p2.index_path@).len()
            == index_lines_at(index, p1.index_path@).len() + 2,
{
    let path = p1.index_path@;
    let i1 = index_after(index, p1, line1);
    assert(index_lines_at(i1, path) == index_lines_at(index, path).push(line1));
    assert(index_lines_at(index_after(i1, p2, line2), path) =~= index_lines_at(index, path) + seq![
        line1,
        line2,
    ]);
}

/// Publishing the same name and version twice leaves only the archive bytes
/// of the later publish.
pub proof fn lemma_republish_overwrites(
    archives: Map<Seq<char>, Seq<u8>>,
    d1: PublishedCrate,
    a1: Seq<u8>,
    p1: PublishPlan,
    d2: PublishedCrate,
    a2: Seq<u8>,
    p2: PublishPlan,
)
    requires
        is_plan_of(p1, d1, a1),
        is_plan_of(p2, d2, a2),
        d1.name == d2.name,
        d1.vers == d2.vers,
    ensures
        p1.archive_path@ == p2.archive_path@,
        archives_after(archives_after(archives, p1), p2)[p2.archive_path@] == a2,
{
}

/// A download request `/<name>/<version>` for a published descriptor
/// resolves to the path its archive was stored at.
pub proof fn lemma_published_archive_downloadable(d: PublishedCrate, a: Seq<u8>, p: PublishPlan)
    requires
        is_plan_of(p, d, a),
        is_publishable(d),
    ensures
        download_path_of(seq!['/'] + d.name@ + seq!['/'] + d.vers@) == Some(
            p.archive_path@,
        ),
{
    lemma_download_finds_archive(d.name@, d.vers@);
}

} // verus!

verus! {

/// What looking up the remote-tracking master branch gave.
pub enum BranchLookup<T> {
    /// The branch exists; this is the commit it points at, if any.
    Found(Option<T>),
    /// There is no such branch: the index was never pushed.
    Missing,
    /// The lookup failed for another reason, given here.
    Failed(String),
}

/// The commit a new index commit builds on: the one the remote master points
/// at, none when there is no remote master yet, and an error when the lookup
/// failed otherwise.
pub fn remote_master_parent<T>(lookup: BranchLookup<T>) -> (r: Result<Option<T>, String>)
    ensures
        match lookup {
            BranchLookup::Found(t) => r == Ok::<Option<T>, String>(t),
            BranchLookup::Missing => r == Ok::<Option<T>, String>(None),
            BranchLookup::Failed(m) => r == Err::<Option<T>, String>(m),
        },
{
    match lookup {
        BranchLookup::Found(t) => Ok(t),
        BranchLookup::Missing => Ok(None),
        BranchLookup::Failed(m) => Err(m),
    }
}

/// The parents of a new index commit: the commit that the remote-tracking
/// master points to, or none when the index was never pushed.
pub fn commit_parents<T>(remote_master: Option<T>) -> (r: Vec<T>)
    ensures
        r@ == match remote_master {
            Some(c) => seq![c],
            None => Seq::<T>::empty(),
        },
{
    let mut r: Vec<T> = Vec::new();
    if let Some(c) = remote_master {
        r.push(c);
    }
    proof {
        assert(r@ =~= match remote_master {
            Some(c) => seq![c],
            None => Seq::<T>::empty(),
        });
    }
    r
}

} // verus!
