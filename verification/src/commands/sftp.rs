use vstd::prelude::*;
use crate::channel::{
    lemma_put_keeps_single_owner,
    lemma_without_keeps_single_owner,
    single_owner,
    unowned_by_others,
    ChannelOwner,
};
use crate::commands::session::SSHSessionId;
use crate::error::SSHError;
use crate::ipc::{json_type_object, kind_body, IpcBody};
use crate::registry::{has_id, lookup, put, without, Registry};
use crate::ssh_manager::SSHManager;
use crate::text::{child_path, child_path_string};

verus! {

/// Seconds within which the server must answer a file-transfer request.
pub const SFTP_REQUEST_TIMEOUT_SECS: u64 = 30;

/// Largest number of bytes moved in one step of an upload or a download.
pub const TRANSFER_CHUNK_SIZE: usize = 10485760;

/// What a file-transfer subsystem reports to its caller.
#[derive(Debug, Clone, Copy, PartialEq, Eq, Structural)]
pub enum SSHSftpIpcChannelData {
    Eof,
    Close,
}

impl SSHSftpIpcChannelData {
    /// The variant's name.
    pub open spec fn spec_kind(self) -> Seq<char> {
        match self {
            SSHSftpIpcChannelData::Eof => "Eof"@,
            SSHSftpIpcChannelData::Close => "Close"@,
        }
    }

    /// The variant's name, under which the event is reported.
    pub fn kind(&self) -> (s: &'static str)
        ensures
            s@ == self.spec_kind(),
    {
        match self {
            SSHSftpIpcChannelData::Eof => "Eof",
            SSHSftpIpcChannelData::Close => "Close",
        }
    }
}

impl SSHSftpIpcChannelData {
    /// What the sink receives for the event: the JSON object that names it.
    pub fn body(self) -> (body: IpcBody)
        ensures
            body matches IpcBody::Json(json) && json@ == json_type_object(self.spec_kind()),
    {
        kind_body(self.kind())
    }
}

/// Caller-chosen key of a file-transfer subsystem.
#[derive(Debug, Clone, Copy, PartialEq, Eq, Structural, Hash)]
pub struct SSHSftpId(pub u128);

/// One file-transfer subsystem on a channel of a session. `sftp_session` is
/// whatever the caller needs to issue file operations and to reach the
/// subsystem's event sink.
pub struct SSHSftp<F> {
    pub ssh_session_id: SSHSessionId,
    pub ssh_sftp_id: SSHSftpId,
    pub sftp_channel_id: u32,
    pub sftp_session: F,
}

/// The registry of open file-transfer subsystems.
pub type SftpChannels<F> = Registry<SSHSftp<F>>;

impl<F> SSHSftp<F> {
    pub fn new(
        ssh_session_id: SSHSessionId,
        ssh_sftp_id: SSHSftpId,
        sftp_channel_id: u32,
        sftp_session: F,
    ) -> (sftp: Self)
        ensures
            sftp == (SSHSftp { ssh_session_id, ssh_sftp_id, sftp_channel_id, sftp_session }),
    {
        SSHSftp { ssh_session_id, ssh_sftp_id, sftp_channel_id, sftp_session }
    }
}

impl<F> ChannelOwner for SSHSftp<F> {
    open spec fn spec_channel(&self) -> (SSHSessionId, u32) {
        (self.ssh_session_id, self.sftp_channel_id)
    }

    fn channel(&self) -> (r: (SSHSessionId, u32)) {
        (self.ssh_session_id, self.sftp_channel_id)
    }
}

/// What has to be asked of a fresh channel to turn it into a file-transfer
/// subsystem.
#[derive(Debug, Clone, PartialEq, Eq)]
pub struct SftpOpenPlan {
    /// Name of the subsystem to request.
    pub subsystem: String,
    /// Seconds allowed for each request of the protocol session.
    pub timeout_secs: u64,
}

/// Plans the opening of a file-transfer subsystem on the session, which must
/// be registered: the `sftp` subsystem, with thirty seconds for each request.
pub fn sftp_open<H, C, F, N>(ssh_manager: &SSHManager<H, C, F, N>, ssh_session_id: SSHSessionId) -> (r:
    Result<SftpOpenPlan, SSHError>)
    ensures
        !has_id(ssh_manager.sessions@, ssh_session_id.0) ==> r == Err::<SftpOpenPlan, SSHError>(
            SSHError::NotFoundSession,
        ),
        has_id(ssh_manager.sessions@, ssh_session_id.0) ==> (r matches Ok(plan) && plan.subsystem@
            == "sftp"@ && plan.timeout_secs == 30),
{
    if !ssh_manager.sessions.contains_key(ssh_session_id.0) {
        return Err(SSHError::NotFoundSession);
    }
    Ok(SftpOpenPlan { subsystem: String::from_str("sftp"), timeout_secs: SFTP_REQUEST_TIMEOUT_SECS })
}

/// Registers a subsystem whose protocol session has started, in place of any
/// subsystem held under the same id, and returns its id. Sessions, shells
/// and forwardings are left alone.
pub fn sftp_opened<H, C, F, N>(ssh_manager: &mut SSHManager<H, C, F, N>, sftp: SSHSftp<F>) -> (id:
    SSHSftpId)
    ensures
        id == sftp.ssh_sftp_id,
        final(ssh_manager).sftps@ == put(old(ssh_manager).sftps@, sftp.ssh_sftp_id.0, sftp),
        has_id(final(ssh_manager).sftps@, sftp.ssh_sftp_id.0),
        lookup(final(ssh_manager).sftps@, sftp.ssh_sftp_id.0) == sftp,
        single_owner(old(ssh_manager).sftps@) && unowned_by_others(
            old(ssh_manager).sftps@,
            sftp.ssh_sftp_id.0,
            sftp.spec_channel(),
        ) ==> single_owner(final(ssh_manager).sftps@),
        final(ssh_manager).sessions == old(ssh_manager).sessions,
        final(ssh_manager).shells == old(ssh_manager).shells,
        final(ssh_manager).port_forwardings == old(ssh_manager).port_forwardings,
{
    let id = sftp.ssh_sftp_id;
    ssh_manager.sftps.insert(id.0, sftp);
    proof {
        if single_owner(old(ssh_manager).sftps@) && unowned_by_others(
            old(ssh_manager).sftps@,
            id.0,
            sftp.spec_channel(),
        ) {
            lemma_put_keeps_single_owner(old(ssh_manager).sftps@, id.0, sftp);
        }
    }
    id
}

/// Removes the subsystem from the registry and hands it back, so that the
/// caller can close its protocol session and channel. An unknown id changes
/// nothing.
pub fn sftp_close<H, C, F, N>(ssh_manager: &mut SSHManager<H, C, F, N>, ssh_sftp_id: SSHSftpId) -> (removed:
    Option<SSHSftp<F>>)
    ensures
        final(ssh_manager).sftps@ == without(old(ssh_manager).sftps@, ssh_sftp_id.0),
        !has_id(final(ssh_manager).sftps@, ssh_sftp_id.0),
        removed is Some <==> has_id(old(ssh_manager).sftps@, ssh_sftp_id.0),
        removed is Some ==> removed->0 == lookup(old(ssh_manager).sftps@, ssh_sftp_id.0),
        single_owner(old(ssh_manager).sftps@) ==> single_owner(final(ssh_manager).sftps@),
        final(ssh_manager).sessions == old(ssh_manager).sessions,
        final(ssh_manager).shells == old(ssh_manager).shells,
        final(ssh_manager).port_forwardings == old(ssh_manager).port_forwardings,
{
    proof {
        if single_owner(ssh_manager.sftps@) {
            lemma_without_keeps_single_owner(ssh_manager.sftps@, ssh_sftp_id.0);
        }
    }
    ssh_manager.sftps.remove(ssh_sftp_id.0)
}

/// The subsystem on which a file operation is to run. Every file operation
/// starts here. It fails with the not-found error of the subsystem where the
/// id is unknown, and with that of the session where the subsystem's session
/// is not registered any more.
pub fn sftp_session<'a, H, C, F, N>(
    ssh_manager: &'a SSHManager<H, C, F, N>,
    ssh_sftp_id: SSHSftpId,
) -> (r: Result<&'a SSHSftp<F>, SSHError>)
    ensures
        ({
            let sftps = ssh_manager.sftps@;
            if !has_id(sftps, ssh_sftp_id.0) {
                r matches Err(SSHError::NotFoundSftp)
            } else if !has_id(
                ssh_manager.sessions@,
                lookup(sftps, ssh_sftp_id.0).ssh_session_id.0,
            ) {
                r matches Err(SSHError::NotFoundSession)
            } else {
                r matches Ok(sftp) && *sftp == lookup(sftps, ssh_sftp_id.0)
            }
        }),
{
    match ssh_manager.sftps.get(ssh_sftp_id.0) {
        Some(sftp) => {
            if !ssh_manager.sessions.contains_key(sftp.ssh_session_id.0) {
                return Err(SSHError::NotFoundSession);
            }
            Ok(sftp)
        },
        None => Err(SSHError::NotFoundSftp),
    }
}

/// Kind of a remote file.
#[derive(Debug, Clone, Copy, PartialEq, Eq, Structural)]
pub enum SSHSftpFileType {
    Dir,
    File,
    Symlink,
    Other,
}

/// The kind that a file's mode word gives: decided by the four type bits.
pub open spec fn mode_file_type(mode: u32) -> SSHSftpFileType {
    let kind = mode & 0xF000;
    if kind == 0x4000 {
        SSHSftpFileType::Dir
    } else if kind == 0xA000 {
        SSHSftpFileType::Symlink
    } else if kind == 0x8000 {
        SSHSftpFileType::File
    } else {
        SSHSftpFileType::Other
    }
}

/// The letter for a permission bit: the letter where the bit is set, a dash
/// where it is not.
pub open spec fn permission_char(mode: u32, bit: u32, letter: char) -> char {
    if mode & bit != 0 {
        letter
    } else {
        '-'
    }
}

/// The nine permission letters of a mode word: read, write and execute for
/// the owner, the group and the others.
pub open spec fn mode_permissions(mode: u32) -> Seq<char> {
    seq![
        permission_char(mode, 0o400, 'r'),
        permission_char(mode, 0o200, 'w'),
        permission_char(mode, 0o100, 'x'),
        permission_char(mode, 0o40, 'r'),
        permission_char(mode, 0o20, 'w'),
        permission_char(mode, 0o10, 'x'),
        permission_char(mode, 0o4, 'r'),
        permission_char(mode, 0o2, 'w'),
        permission_char(mode, 0o1, 'x'),
    ]
}

/// Asks `russh_sftp`'s `FileAttributes::file_type` for the kind of a file
/// with the given mode word. Trusted: the kind is that of the type bits, a
/// directory for `0x4000`, a link for `0xA000`, a plain file for `0x8000`,
/// and `Other` for everything else.
#[verifier::external_body]
fn file_type_of_mode(mode: u32) -> (file_type: SSHSftpFileType)
    ensures
        file_type == mode_file_type(mode),
{
    let attributes = russh_sftp::protocol::FileAttributes {
        permissions: Some(mode),
        ..Default::default()
    };
    match attributes.file_type() {
        russh_sftp::protocol::FileType::Dir => SSHSftpFileType::Dir,
        russh_sftp::protocol::FileType::File => SSHSftpFileType::File,
        russh_sftp::protocol::FileType::Symlink => SSHSftpFileType::Symlink,
        russh_sftp::protocol::FileType::Other => SSHSftpFileType::Other,
    }
}

/// Asks `russh_sftp`'s `FileAttributes::permissions` for the permissions of
/// the given mode word and returns their text. Trusted: the text is the nine
/// letters `rwxrwxrwx`, each replaced by a dash where its bit is not set.
#[verifier::external_body]
fn permissions_of_mode(mode: u32) -> (permissions: String)
    ensures
        permissions@ == mode_permissions(mode),
{
    let attributes = russh_sftp::protocol::FileAttributes {
        permissions: Some(mode),
        ..Default::default()
    };
    attributes.permissions().to_string()
}

/// What the server tells of a file. Every item may be missing.
#[derive(Debug, Clone, PartialEq, Eq)]
pub struct SftpMetadata {
    pub size: Option<u64>,
    pub uid: Option<u32>,
    pub user: Option<String>,
    pub gid: Option<u32>,
    pub group: Option<String>,
    pub permissions: Option<u32>,
    pub atime: Option<u32>,
    pub mtime: Option<u32>,
}

/// One name in a remote directory, as the server lists it.
#[derive(Debug, Clone, PartialEq, Eq)]
pub struct SftpDirEntry {
    pub name: String,
    pub metadata: SftpMetadata,
}

/// One child of a remote directory, as it is reported to the caller.
#[derive(Debug, Clone, PartialEq, Eq)]
pub struct SSHSftpFile {
    pub path: String,
    pub name: String,
    pub file_type: SSHSftpFileType,
    pub size: u64,
    pub permissions: String,
    pub atime: u32,
    pub mtime: u32,
    pub uid: Option<u32>,
    pub user: Option<String>,
    pub gid: Option<u32>,
    pub group: Option<String>,
}

/// The view of a string that may be missing.
pub open spec fn text_of(text: Option<String>) -> Option<Seq<char>> {
    match text {
        Some(t) => Some(t@),
        None => None,
    }
}

/// The mode word that stands for a file whose server sent none.
pub open spec fn mode_of(metadata: SftpMetadata) -> u32 {
    match metadata.permissions {
        Some(mode) => mode,
        None => 0,
    }
}

/// `file` is what is reported for `entry` of the directory `dirname`: the
/// path is the directory's, a slash and the name, with runs of slashes
/// collapsed; kind and permission letters come from the mode word; a missing
/// size or time counts as zero; owner and group are passed on as they came.
pub open spec fn reports(file: SSHSftpFile, dirname: Seq<char>, entry: SftpDirEntry) -> bool {
    &&& file.path@ == child_path(dirname, entry.name@)
    &&& file.name@ == entry.name@
    &&& file.file_type == mode_file_type(mode_of(entry.metadata))
    &&& file.size == match entry.metadata.size {
        Some(size) => size,
        None => 0,
    }
    &&& file.permissions@ == mode_permissions(mode_of(entry.metadata))
    &&& file.atime == match entry.metadata.atime {
        Some(time) => time,
        None => 0,
    }
    &&& file.mtime == match entry.metadata.mtime {
        Some(time) => time,
        None => 0,
    }
    &&& file.uid == entry.metadata.uid
    &&& text_of(file.user) == text_of(entry.metadata.user)
    &&& file.gid == entry.metadata.gid
    &&& text_of(file.group) == text_of(entry.metadata.group)
}

fn clone_text(text: &Option<String>) -> (copy: Option<String>)
    ensures
        text_of(copy) == text_of(*text),
{
    match text {
        Some(t) => Some(t.clone()),
        None => None,
    }
}

/// Reports one listed name of the directory `dirname`.
pub fn sftp_file(dirname: &str, entry: &SftpDirEntry) -> (file: SSHSftpFile)
    ensures
        reports(file, dirname@, *entry),
{
    let mode = match entry.metadata.permissions {
        Some(mode) => mode,
        None => 0,
    };
    SSHSftpFile {
        path: child_path_string(dirname, entry.name.as_str()),
        name: entry.name.clone(),
        file_type: file_type_of_mode(mode),
        size: match entry.metadata.size {
            Some(size) => size,
            None => 0,
        },
        permissions: permissions_of_mode(mode),
        atime: match entry.metadata.atime {
            Some(time) => time,
            None => 0,
        },
        mtime: match entry.metadata.mtime {
            Some(time) => time,
            None => 0,
        },
        uid: entry.metadata.uid,
        user: clone_text(&entry.metadata.user),
        gid: entry.metadata.gid,
        group: clone_text(&entry.metadata.group),
    }
}

/// Reports the children of the directory `dirname`, one for each listed
/// name, in the order of the listing.
pub fn sftp_read_dir(dirname: &str, entries: &Vec<SftpDirEntry>) -> (files: Vec<SSHSftpFile>)
    ensures
        files@.len() == entries@.len(),
        forall|i: int| 0 <= i < entries@.len() ==> reports(#[trigger] files@[i], dirname@, entries@[i]),
{
    let mut files: Vec<SSHSftpFile> = Vec::new();
    let mut i: usize = 0;
    while i < entries.len()
        invariant
            i <= entries@.len(),
            files@.len() == i,
            forall|j: int| 0 <= j < i ==> reports(#[trigger] files@[j], dirname@, entries@[j]),
        decreases entries@.len() - i,
    {
        files.push(sftp_file(dirname, &entries[i]));
        i += 1;
    }
    files
}

/// How far a transfer has come: the bytes written so far, and the size of
/// the source as it was found when the transfer began.
#[derive(Debug, Clone, Copy, PartialEq, Eq, Structural)]
pub struct SFTPProgressPayload {
    pub progress: u64,
    pub total: u64,
}

/// What follows a read from the source of a transfer.
#[derive(Debug, Clone, Copy, PartialEq, Eq, Structural)]
pub enum WriteFile {
    /// The source is exhausted: the transfer is complete.
    Finished,
    /// Write the bytes that were read, then report the progress.
    Write(SFTPProgressPayload),
}

/// The progress of a transfer that has not moved a byte yet.
pub fn transfer_begin(total: u64) -> (state: SFTPProgressPayload)
    ensures
        state == (SFTPProgressPayload { progress: 0, total }),
{
    SFTPProgressPayload { progress: 0, total }
}

/// One step of a transfer: `size` bytes were read from the source. Nothing
/// read means that the transfer is complete. Otherwise the bytes are to be
/// written and the progress, grown by `size`, reported; the total stays what
/// it was at the start.
pub fn write_file(state: &mut SFTPProgressPayload, size: usize) -> (step: WriteFile)
    requires
        old(state).progress + size <= u64::MAX,
    ensures
        size == 0 ==> step == WriteFile::Finished && *final(state) == *old(state),
        size > 0 ==> step == WriteFile::Write(*final(state)) && *final(state) == (
            SFTPProgressPayload {
                progress: (old(state).progress + size) as u64,
                total: old(state).total,
            }),
{
    if size == 0 {
        WriteFile::Finished
    } else {
        state.progress = state.progress + size as u64;
        WriteFile::Write(*state)
    }
}

/// Sum of the sizes.
pub open spec fn bytes_of(sizes: Seq<usize>) -> int
    decreases sizes.len(),
{
    if sizes.len() == 0 {
        0
    } else {
        bytes_of(sizes.drop_last()) + sizes.last()
    }
}

/// The progress events of a transfer that moves chunks of the given sizes,
/// one event after each chunk.
pub open spec fn progress_events(total: u64, sizes: Seq<usize>) -> Seq<SFTPProgressPayload> {
    Seq::new(
        sizes.len(),
        |i: int| SFTPProgressPayload { progress: bytes_of(sizes.take(i + 1)) as u64, total },
    )
}

/// A transfer of `total` bytes in non-empty chunks reports a strictly
/// increasing progress that ends exactly at `total`, and names `total` in
/// every event.
pub proof fn lemma_progress_events(total: u64, sizes: Seq<usize>)
    requires
        sizes.len() > 0,
        forall|i: int| 0 <= i < sizes.len() ==> sizes[i] > 0,
        bytes_of(sizes) == total,
    ensures
        progress_events(total, sizes).len() == sizes.len(),
        forall|i: int|
            0 <= i < sizes.len() ==> (#[trigger] progress_events(total, sizes)[i]).total == total,
        forall|i: int, j: int|
            0 <= i < j < sizes.len() ==> progress_events(total, sizes)[i].progress
                < progress_events(total, sizes)[j].progress,
        progress_events(total, sizes).last().progress == total,
        progress_events(total, sizes)[0].progress > 0,
{
    let events = progress_events(total, sizes);
    assert(sizes.take(sizes.len() as int) =~= sizes);
    assert forall|i: int| 0 <= i < sizes.len() implies (#[trigger] events[i]).progress == bytes_of(
        sizes.take(i + 1),
    ) && events[i].total == total by {
        lemma_bytes_of_monotone(sizes, 0, i + 1);
        lemma_bytes_of_monotone(sizes, i + 1, sizes.len() as int);
    }
    assert forall|i: int, j: int| 0 <= i < j < sizes.len() implies events[i].progress
        < events[j].progress by {
        lemma_bytes_of_monotone(sizes, i + 1, j + 1);
    }
    lemma_bytes_of_monotone(sizes, 0, 1);
}

/// The reads of a transfer that moved bytes: those before the first empty
/// read, which ends the transfer.
pub open spec fn chunks(reads: Seq<usize>) -> Seq<usize>
    decreases reads.len(),
{
    if reads.len() == 0 || reads[0] == 0 {
        Seq::empty()
    } else {
        seq![reads[0]] + chunks(reads.skip(1))
    }
}

/// Runs a transfer over the sizes of its reads and collects the progress
/// events, one for each read that moved bytes, up to the first empty read.
pub fn transfer_events(total: u64, reads: &Vec<usize>) -> (events: Vec<SFTPProgressPayload>)
    requires
        bytes_of(chunks(reads@)) <= u64::MAX,
    ensures
        events@ == progress_events(total, chunks(reads@)),
{
    let mut state = transfer_begin(total);
    let mut events: Vec<SFTPProgressPayload> = Vec::new();
    let mut i: usize = 0;
    proof {
        assert(reads@.take(0) =~= Seq::<usize>::empty());
        assert(reads@.skip(0) =~= reads@);
        assert(reads@.take(0) + chunks(reads@) =~= chunks(reads@));
        assert(events@ =~= progress_events(total, reads@.take(0)));
    }
    while i < reads.len()
        invariant
            i <= reads@.len(),
            bytes_of(chunks(reads@)) <= u64::MAX,
            chunks(reads@) == reads@.take(i as int) + chunks(reads@.skip(i as int)),
            forall|k: int| 0 <= k < i ==> reads@[k] > 0,
            state.total == total,
            state.progress == bytes_of(reads@.take(i as int)),
            events@ == progress_events(total, reads@.take(i as int)),
        decreases reads@.len() - i,
    {
        let ghost done = reads@.take(i as int);
        let ghost rest = reads@.skip(i as int);
        let ghost next = reads@.take(i as int + 1);
        proof {
            assert(rest[0] == reads@[i as int]);
            assert(rest.skip(1) =~= reads@.skip(i as int + 1));
            assert(next.drop_last() =~= done);
            assert(next.last() == reads@[i as int]);
            if reads@[i as int] > 0 {
                assert(chunks(reads@) =~= next + chunks(reads@.skip(i as int + 1)));
                lemma_bytes_of_prefix(next, chunks(reads@.skip(i as int + 1)));
            }
        }
        match write_file(&mut state, reads[i]) {
            WriteFile::Finished => {
                proof {
                    assert(chunks(rest) =~= Seq::<usize>::empty());
                    assert(chunks(reads@) =~= done);
                }
                return events;
            },
            WriteFile::Write(event) => {
                events.push(event);
                proof {
                    let target = progress_events(total, next);
                    let before = progress_events(total, done);
                    assert forall|k: int| 0 <= k < next.len() implies #[trigger] events@[k]
                        == target[k] by {
                        if k < done.len() {
                            assert(events@[k] == before[k]);
                            assert(done.take(k + 1) =~= next.take(k + 1));
                        } else {
                            assert(next.take(k + 1) =~= next);
                        }
                    }
                    assert(events@ =~= progress_events(total, next));
                }
            },
        }
        i += 1;
    }
    proof {
        assert(reads@.take(i as int) =~= reads@);
        assert(chunks(reads@.skip(i as int)) =~= Seq::<usize>::empty());
        assert(chunks(reads@) =~= reads@);
    }
    events
}

/// The bytes of two runs of chunks add up, and neither sum is negative.
pub proof fn lemma_bytes_of_prefix(first: Seq<usize>, second: Seq<usize>)
    ensures
        bytes_of(first + second) == bytes_of(first) + bytes_of(second),
        bytes_of(first) >= 0,
        bytes_of(second) >= 0,
    decreases second.len(),
{
    lemma_bytes_of_nonnegative(first);
    lemma_bytes_of_nonnegative(second);
    if second.len() == 0 {
        assert(first + second =~= first);
    } else {
        lemma_bytes_of_prefix(first, second.drop_last());
        assert((first + second).drop_last() =~= first + second.drop_last());
        assert((first + second).last() == second.last());
    }
}

/// No run of chunks moves a negative number of bytes.
pub proof fn lemma_bytes_of_nonnegative(sizes: Seq<usize>)
    ensures
        bytes_of(sizes) >= 0,
    decreases sizes.len(),
{
    if sizes.len() > 0 {
        lemma_bytes_of_nonnegative(sizes.drop_last());
    }
}

/// Taking more chunks never moves fewer bytes, and moves more where every
/// chunk is non-empty.
pub proof fn lemma_bytes_of_monotone(sizes: Seq<usize>, i: int, j: int)
    requires
        0 <= i <= j <= sizes.len(),
        forall|k: int| 0 <= k < sizes.len() ==> sizes[k] > 0,
    ensures
        0 <= bytes_of(sizes.take(i)) <= bytes_of(sizes.take(j)),
        i < j ==> bytes_of(sizes.take(i)) < bytes_of(sizes.take(j)),
    decreases j,
{
    if j == 0 {
        assert(sizes.take(0) =~= Seq::<usize>::empty());
    } else if i == j {
        lemma_bytes_of_monotone(sizes, 0, j - 1);
        assert(sizes.take(j).drop_last() =~= sizes.take(j - 1));
    } else {
        lemma_bytes_of_monotone(sizes, i, j - 1);
        assert(sizes.take(j).drop_last() =~= sizes.take(j - 1));
        assert(sizes.take(j).last() == sizes[j - 1]);
    }
}

} // verus!
