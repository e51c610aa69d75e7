use vstd::prelude::*;
use crate::channel::{not_owned, owned, owners, single_owner, take_owners};
use crate::commands::port_forwarding::PortForwardings;
use crate::commands::session::{SSHSessionId, Sessions};
use crate::commands::sftp::{SSHSftp, SftpChannels};
use crate::commands::shell::{SSHShell, Shells};
use crate::registry::Registry;

verus! {

/// The engine's state: every live session, shell, file-transfer subsystem
/// and forwarding, each kind in a registry of its own. An entry names its
/// session by id only; nothing ties the registries together, so an entry may
/// outlive the session it was opened on.
pub struct SSHManager<H, C, F, N> {
    pub sessions: Sessions<H>,
    pub shells: Shells<C>,
    pub sftps: SftpChannels<F>,
    pub port_forwardings: PortForwardings<N>,
}

impl<H, C, F, N> SSHManager<H, C, F, N> {
    /// An engine that holds nothing.
    pub fn init() -> (ssh_manager: Self)
        ensures
            ssh_manager.sessions@.len() == 0,
            ssh_manager.shells@.len() == 0,
            ssh_manager.sftps@.len() == 0,
            ssh_manager.port_forwardings@.len() == 0,
    {
        SSHManager {
            sessions: Registry::new(),
            shells: Registry::new(),
            sftps: Registry::new(),
            port_forwardings: Registry::new(),
        }
    }

    /// The shells to which data that arrived on the channel is delivered:
    /// those opened on that session and channel, in the registry's order.
    /// Where there is none the data is dropped.
    pub fn shell_channel_data(&self, ssh_session_id: SSHSessionId, channel_id: u32) -> (shells: Vec<
        &SSHShell<C>,
    >)
        ensures
            shells@.len() == owned(self.shells@, ssh_session_id, channel_id).len(),
            forall|i: int|
                0 <= i < shells@.len() ==> *shells@[i] == owned(
                    self.shells@,
                    ssh_session_id,
                    channel_id,
                )[i].1,
    {
        owners(&self.shells, ssh_session_id, channel_id)
    }

    /// The shells to which the end of input on the channel is reported.
    pub fn shell_channel_eof(&self, ssh_session_id: SSHSessionId, channel_id: u32) -> (shells: Vec<
        &SSHShell<C>,
    >)
        ensures
            shells@.len() == owned(self.shells@, ssh_session_id, channel_id).len(),
            forall|i: int|
                0 <= i < shells@.len() ==> *shells@[i] == owned(
                    self.shells@,
                    ssh_session_id,
                    channel_id,
                )[i].1,
    {
        owners(&self.shells, ssh_session_id, channel_id)
    }

    /// Takes the shells of a channel that the peer closed out of the
    /// registry and hands them back, so that the close can be reported to
    /// each. Nothing else changes.
    pub fn shell_channel_close(&mut self, ssh_session_id: SSHSessionId, channel_id: u32) -> (closed:
        Vec<(u128, SSHShell<C>)>)
        ensures
            closed@ == owned(old(self).shells@, ssh_session_id, channel_id),
            final(self).shells@ == not_owned(old(self).shells@, ssh_session_id, channel_id),
            single_owner(old(self).shells@) ==> single_owner(final(self).shells@),
            final(self).sessions == old(self).sessions,
            final(self).sftps == old(self).sftps,
            final(self).port_forwardings == old(self).port_forwardings,
    {
        take_owners(&mut self.shells, ssh_session_id, channel_id)
    }

    /// The file-transfer subsystems to which the end of input on the channel
    /// is reported.
    pub fn sftp_channel_eof(&self, ssh_session_id: SSHSessionId, channel_id: u32) -> (sftps: Vec<
        &SSHSftp<F>,
    >)
        ensures
            sftps@.len() == owned(self.sftps@, ssh_session_id, channel_id).len(),
            forall|i: int|
                0 <= i < sftps@.len() ==> *sftps@[i] == owned(
                    self.sftps@,
                    ssh_session_id,
                    channel_id,
                )[i].1,
    {
        owners(&self.sftps, ssh_session_id, channel_id)
    }

    /// Takes the file-transfer subsystems of a channel that the peer closed
    /// out of the registry and hands them back, so that the close can be
    /// reported to each. Nothing else changes.
    pub fn sftp_channel_close(&mut self, ssh_session_id: SSHSessionId, channel_id: u32) -> (closed:
        Vec<(u128, SSHSftp<F>)>)
        ensures
            closed@ == owned(old(self).sftps@, ssh_session_id, channel_id),
            final(self).sftps@ == not_owned(old(self).sftps@, ssh_session_id, channel_id),
            single_owner(old(self).sftps@) ==> single_owner(final(self).sftps@),
            final(self).sessions == old(self).sessions,
            final(self).shells == old(self).shells,
            final(self).port_forwardings == old(self).port_forwardings,
    {
        take_owners(&mut self.sftps, ssh_session_id, channel_id)
    }
}

} // verus!
