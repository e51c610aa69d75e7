use vstd::prelude::*;
use vstd::string::StringSliceAdditionalSpecFns;
use crate::channel::{
    lemma_put_keeps_single_owner,
    lemma_without_keeps_single_owner,
    single_owner,
    unowned_by_others,
    ChannelOwner,
};
use crate::commands::session::SSHSessionId;
use crate::envs::{distinct_names, env_map, prepare_envs, prepared_envs};
use crate::error::SSHError;
use crate::ipc::{json_type_object, kind_body, IpcBody};
use crate::registry::{has_id, lookup, put, without, Registry};
use crate::ssh_manager::SSHManager;

verus! {

/// What a shell reports to its caller: output of the remote side, the end of
/// that output, and the end of the channel.
#[derive(Debug, Clone, PartialEq, Eq)]
pub enum SHHShellIpcChannelData {
    Eof,
    Close,
    Data(Vec<u8>),
}

impl SHHShellIpcChannelData {
    /// The variant's name.
    pub open spec fn spec_kind(self) -> Seq<char> {
        match self {
            SHHShellIpcChannelData::Eof => "Eof"@,
            SHHShellIpcChannelData::Close => "Close"@,
            SHHShellIpcChannelData::Data(_) => "Data"@,
        }
    }

    /// The variant's name, under which the event is reported.
    pub fn kind(&self) -> (s: &'static str)
        ensures
            s@ == self.spec_kind(),
    {
        match self {
            SHHShellIpcChannelData::Eof => "Eof",
            SHHShellIpcChannelData::Close => "Close",
            SHHShellIpcChannelData::Data(_) => "Data",
        }
    }
}

impl SHHShellIpcChannelData {
    /// What the sink receives for the event: the bytes of a data event as
    /// they are, and for the others the JSON object that names the event.
    pub fn body(self) -> (body: IpcBody)
        ensures
            match self {
                SHHShellIpcChannelData::Data(data) => body == IpcBody::Raw(data),
                SHHShellIpcChannelData::Eof => body matches IpcBody::Json(json) && json@
                    == json_type_object("Eof"@),
                SHHShellIpcChannelData::Close => body matches IpcBody::Json(json) && json@
                    == json_type_object("Close"@),
            },
    {
        match self {
            SHHShellIpcChannelData::Data(data) => IpcBody::Raw(data),
            other => kind_body(other.kind()),
        }
    }
}

/// Caller-chosen key of a shell.
#[derive(Debug, Clone, Copy, PartialEq, Eq, Structural, Hash)]
pub struct SSHShellId(pub u128);

/// Dimensions of a pseudo-terminal, in character cells and in pixels.
#[derive(Debug, Clone, Copy, PartialEq, Eq, Structural)]
pub struct ShellSize {
    pub col: u32,
    pub row: u32,
    pub width: u32,
    pub height: u32,
}

/// One interactive shell on a channel of a session. `shell_channel` is
/// whatever the caller needs to drive the channel and to reach the shell's
/// event sink.
pub struct SSHShell<C> {
    pub ssh_session_id: SSHSessionId,
    pub ssh_shell_id: SSHShellId,
    pub channel_id: u32,
    pub size: ShellSize,
    pub shell_channel: C,
}

/// The registry of open shells.
pub type Shells<C> = Registry<SSHShell<C>>;

impl<C> SSHShell<C> {
    pub fn new(
        ssh_session_id: SSHSessionId,
        ssh_shell_id: SSHShellId,
        channel_id: u32,
        size: ShellSize,
        shell_channel: C,
    ) -> (shell: Self)
        ensures
            shell == (SSHShell { ssh_session_id, ssh_shell_id, channel_id, size, shell_channel }),
    {
        SSHShell { ssh_session_id, ssh_shell_id, channel_id, size, shell_channel }
    }
}

impl<C> ChannelOwner for SSHShell<C> {
    open spec fn spec_channel(&self) -> (SSHSessionId, u32) {
        (self.ssh_session_id, self.channel_id)
    }

    fn channel(&self) -> (r: (SSHSessionId, u32)) {
        (self.ssh_session_id, self.channel_id)
    }
}

/// What has to be asked of a fresh channel to turn it into a shell: the
/// environment variables to set, then the pseudo-terminal, then the shell.
#[derive(Debug, Clone, PartialEq, Eq)]
pub struct ShellOpenPlan {
    pub envs: Vec<(String, String)>,
    pub term: String,
    pub size: ShellSize,
}

/// The terminal type asked for where the caller names none.
pub open spec fn default_term() -> Seq<char> {
    "xterm-256color"@
}

/// Plans the opening of a shell on the session. The session must be
/// registered. The environment is that of `prepare_envs`, the terminal type
/// the caller's or `xterm-256color`, the geometry the caller's.
pub fn shell_open<H, C, F, N>(
    ssh_manager: &SSHManager<H, C, F, N>,
    ssh_session_id: SSHSessionId,
    term: Option<String>,
    envs: Option<Vec<(String, String)>>,
    process_envs: &Vec<(String, String)>,
    size: ShellSize,
) -> (r: Result<ShellOpenPlan, SSHError>)
    ensures
        !has_id(ssh_manager.sessions@, ssh_session_id.0) ==> r == Err::<ShellOpenPlan, SSHError>(
            SSHError::NotFoundSession,
        ),
        has_id(ssh_manager.sessions@, ssh_session_id.0) ==> (r matches Ok(plan) && {
            &&& plan.size == size
            &&& plan.term@ == match term {
                Some(t) => t@,
                None => default_term(),
            }
            &&& distinct_names(plan.envs@)
            &&& env_map(plan.envs@) == prepared_envs(
                process_envs@,
                match envs {
                    Some(custom) => custom@,
                    None => Seq::empty(),
                },
            )
        }),
{
    if !ssh_manager.sessions.contains_key(ssh_session_id.0) {
        return Err(SSHError::NotFoundSession);
    }
    let custom = match envs {
        Some(custom) => custom,
        None => Vec::new(),
    };
    let envs = prepare_envs(process_envs, &custom);
    let term = match term {
        Some(t) => t,
        None => String::from_str("xterm-256color"),
    };
    Ok(ShellOpenPlan { envs, term, size })
}

/// Registers a shell whose channel was opened and set up, in place of any
/// shell held under the same id, and returns its id. Sessions,
/// file-transfer subsystems and forwardings are left alone.
pub fn shell_opened<H, C, F, N>(ssh_manager: &mut SSHManager<H, C, F, N>, shell: SSHShell<C>) -> (id:
    SSHShellId)
    ensures
        id == shell.ssh_shell_id,
        final(ssh_manager).shells@ == put(old(ssh_manager).shells@, shell.ssh_shell_id.0, shell),
        has_id(final(ssh_manager).shells@, shell.ssh_shell_id.0),
        lookup(final(ssh_manager).shells@, shell.ssh_shell_id.0) == shell,
        single_owner(old(ssh_manager).shells@) && unowned_by_others(
            old(ssh_manager).shells@,
            shell.ssh_shell_id.0,
            shell.spec_channel(),
        ) ==> single_owner(final(ssh_manager).shells@),
        final(ssh_manager).sessions == old(ssh_manager).sessions,
        final(ssh_manager).sftps == old(ssh_manager).sftps,
        final(ssh_manager).port_forwardings == old(ssh_manager).port_forwardings,
{
    let id = shell.ssh_shell_id;
    ssh_manager.shells.insert(id.0, shell);
    proof {
        if single_owner(old(ssh_manager).shells@) && unowned_by_others(
            old(ssh_manager).shells@,
            id.0,
            shell.spec_channel(),
        ) {
            lemma_put_keeps_single_owner(old(ssh_manager).shells@, id.0, shell);
        }
    }
    id
}

/// Removes the shell from the registry and hands it back, so that the caller
/// can close its channel. An unknown id changes nothing.
pub fn shell_close<H, C, F, N>(ssh_manager: &mut SSHManager<H, C, F, N>, ssh_shell_id: SSHShellId) -> (removed:
    Option<SSHShell<C>>)
    ensures
        final(ssh_manager).shells@ == without(old(ssh_manager).shells@, ssh_shell_id.0),
        !has_id(final(ssh_manager).shells@, ssh_shell_id.0),
        removed is Some <==> has_id(old(ssh_manager).shells@, ssh_shell_id.0),
        removed is Some ==> removed->0 == lookup(old(ssh_manager).shells@, ssh_shell_id.0),
        single_owner(old(ssh_manager).shells@) ==> single_owner(final(ssh_manager).shells@),
        final(ssh_manager).sessions == old(ssh_manager).sessions,
        final(ssh_manager).sftps == old(ssh_manager).sftps,
        final(ssh_manager).port_forwardings == old(ssh_manager).port_forwardings,
{
    proof {
        if single_owner(ssh_manager.shells@) {
            lemma_without_keeps_single_owner(ssh_manager.shells@, ssh_shell_id.0);
        }
    }
    ssh_manager.shells.remove(ssh_shell_id.0)
}

/// The shell with another geometry.
pub open spec fn with_size<C>(shell: SSHShell<C>, size: ShellSize) -> SSHShell<C> {
    SSHShell { size, ..shell }
}

/// The shells after the shell, if registered, has taken a new geometry.
pub open spec fn resized<C>(
    shells: Seq<(u128, SSHShell<C>)>,
    ssh_shell_id: SSHShellId,
    size: ShellSize,
) -> Seq<(u128, SSHShell<C>)> {
    if has_id(shells, ssh_shell_id.0) {
        put(shells, ssh_shell_id.0, with_size(lookup(shells, ssh_shell_id.0), size))
    } else {
        shells
    }
}

/// Records the new geometry of a shell and tells whether a window change has
/// to be sent. An unknown shell id is no error: it changes nothing and
/// yields `false`. A shell whose session is not registered any more is left
/// as it is, and the answer is the not-found error.
pub fn shell_resize<H, C, F, N>(
    ssh_manager: &mut SSHManager<H, C, F, N>,
    ssh_shell_id: SSHShellId,
    size: ShellSize,
) -> (r: Result<bool, SSHError>)
    ensures
        final(ssh_manager).sessions == old(ssh_manager).sessions,
        final(ssh_manager).sftps == old(ssh_manager).sftps,
        final(ssh_manager).port_forwardings == old(ssh_manager).port_forwardings,
        single_owner(old(ssh_manager).shells@) ==> single_owner(final(ssh_manager).shells@),
        ({
            let shells = old(ssh_manager).shells@;
            if !has_id(shells, ssh_shell_id.0) {
                &&& r == Ok::<bool, SSHError>(false)
                &&& final(ssh_manager).shells@ == shells
            } else if !has_id(
                old(ssh_manager).sessions@,
                lookup(shells, ssh_shell_id.0).ssh_session_id.0,
            ) {
                &&& r == Err::<bool, SSHError>(SSHError::NotFoundSession)
                &&& final(ssh_manager).shells@ == shells
            } else {
                &&& r == Ok::<bool, SSHError>(true)
                &&& final(ssh_manager).shells@ == resized(shells, ssh_shell_id, size)
                &&& has_id(final(ssh_manager).shells@, ssh_shell_id.0)
                &&& lookup(final(ssh_manager).shells@, ssh_shell_id.0) == with_size(
                    lookup(shells, ssh_shell_id.0),
                    size,
                )
            }
        }),
{
    match ssh_manager.shells.get(ssh_shell_id.0) {
        None => {
            return Ok(false);
        },
        Some(shell) => {
            if !ssh_manager.sessions.contains_key(shell.ssh_session_id.0) {
                return Err(SSHError::NotFoundSession);
            }
        },
    }
    match ssh_manager.shells.find(ssh_shell_id.0) {
        Some(i) => {
            let slot = ssh_manager.shells.remove_at(i);
            let mut shell = slot.1;
            shell.size = size;
            ssh_manager.shells.insert_at(i, ssh_shell_id.0, shell);
            proof {
                let before = old(ssh_manager).shells@;
                if single_owner(before) {
                    assert forall|j: int|
                        0 <= j < before.len() && before[j].0 != ssh_shell_id.0 implies (
                    #[trigger] before[j]).1.spec_channel() != shell.spec_channel() by {
                        if j < i {
                            assert(before[j].1.spec_channel() != before[i as int].1.spec_channel());
                        } else {
                            assert(before[i as int].1.spec_channel() != before[j].1.spec_channel());
                        }
                    }
                    lemma_put_keeps_single_owner(before, ssh_shell_id.0, shell);
                }
            }
        },
        None => {},
    }
    Ok(true)
}

/// The shell to send input to, with the bytes to send: the UTF-8 encoding of
/// `data`. An unknown shell id is no error: nothing is to be sent. A shell
/// whose session is not registered any more gets nothing either, and the
/// answer is the not-found error.
pub fn shell_send<'a, H, C, F, N>(
    ssh_manager: &'a SSHManager<H, C, F, N>,
    ssh_shell_id: SSHShellId,
    data: &str,
) -> (r: Result<Option<(&'a SSHShell<C>, Vec<u8>)>, SSHError>)
    ensures
        ({
            let shells = ssh_manager.shells@;
            if !has_id(shells, ssh_shell_id.0) {
                r matches Ok(None)
            } else if !has_id(
                ssh_manager.sessions@,
                lookup(shells, ssh_shell_id.0).ssh_session_id.0,
            ) {
                r matches Err(SSHError::NotFoundSession)
            } else {
                r matches Ok(Some(found)) && *found.0 == lookup(shells, ssh_shell_id.0)
                    && found.1@ == data.spec_bytes()
            }
        }),
{
    match ssh_manager.shells.get(ssh_shell_id.0) {
        Some(shell) => {
            if !ssh_manager.sessions.contains_key(shell.ssh_session_id.0) {
                return Err(SSHError::NotFoundSession);
            }
            Ok(Some((shell, data.as_bytes_vec())))
        },
        None => Ok(None),
    }
}

} // verus!
