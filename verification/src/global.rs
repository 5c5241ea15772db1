//! The synchronized registries for the session's shared singletons: the
//! transport connection, the configuration, and the encryption context.
//! Each slot holds at most one resource. Acquiring hands the resource out
//! by value, which makes mutual exclusion an ownership fact: while one
//! holder has it, nobody else can reach it, and `unlock` hands it back.
//! A verified model cannot block, so an acquire that would have to wait
//! surfaces the normalized lock-failure kind instead.

use vstd::prelude::*;
use crate::client::Client;
use crate::config::Config;
use crate::encryption::ChaCha20Poly1305;
use crate::error::{SshError, SshResult};

verus! {

/// The state of one registry slot: nothing installed, a resource ready to
/// be acquired, or a resource currently held by an acquirer.
pub enum RegistrySlot<T> {
    Empty,
    Ready(T),
    Held,
}

/// One process-wide slot for a shared resource, with the not-initialized
/// error kind that an acquire on the empty slot surfaces.
pub struct Registry<T> {
    pub slot: RegistrySlot<T>,
    pub missing: SshError,
}

impl<T> Registry<T> {
    pub fn new(missing: SshError) -> (r: Registry<T>)
        ensures
            r.slot is Empty,
            r.missing == missing,
    {
        Registry { slot: RegistrySlot::Empty, missing }
    }

    /// Replaces the installed singleton; `None` clears the slot. Not
    /// itself lock-protected: installation and teardown are the single
    /// writer's business, so a resource still held elsewhere is simply
    /// forgotten.
    pub fn install(&mut self, v: Option<T>)
        ensures
            v matches Some(x) ==> final(self).slot == RegistrySlot::Ready(x),
            v is None ==> final(self).slot is Empty,
            final(self).missing == old(self).missing,
    {
        match v {
            Some(x) => {
                self.slot = RegistrySlot::Ready(x);
            },
            None => {
                self.slot = RegistrySlot::Empty;
            },
        }
    }

    /// Takes the resource out of the slot, failing with the slot's
    /// not-initialized kind when nothing is installed, and with the
    /// normalized lock-failure kind when another holder has it.
    pub fn acquire(&mut self) -> (r: SshResult<T>)
        ensures
            old(self).slot is Empty ==> r == Err::<T, SshError>(old(self).missing) && *final(self)
                == *old(self),
            old(self).slot matches RegistrySlot::Ready(x) ==> r == Ok::<T, SshError>(x)
                && final(self).slot is Held,
            old(self).slot is Held ==> r == Err::<T, SshError>(SshError::MutexError) && *final(self)
                == *old(self),
            final(self).missing == old(self).missing,
    {
        let mut taken: RegistrySlot<T> = RegistrySlot::Held;
        core::mem::swap(&mut taken, &mut self.slot);
        match taken {
            RegistrySlot::Empty => {
                self.slot = RegistrySlot::Empty;
                Err(self.missing)
            },
            RegistrySlot::Ready(x) => Ok(x),
            RegistrySlot::Held => Err(SshError::MutexError),
        }
    }

    /// Hands a held resource back, making the slot ready again.
    pub fn release(&mut self, v: T)
        requires
            old(self).slot is Held,
        ensures
            final(self).slot == RegistrySlot::Ready(v),
            final(self).missing == old(self).missing,
    {
        self.slot = RegistrySlot::Ready(v);
    }
}

/// Ends one holder's turn with the resource: what the holder acquired goes
/// back into its registry, ready for the next acquirer.
pub fn unlock<T>(reg: &mut Registry<T>, v: T)
    requires
        old(reg).slot is Held,
    ensures
        final(reg).slot == RegistrySlot::Ready(v),
        final(reg).missing == old(reg).missing,
{
    reg.release(v);
}

/// The session's three independently acquirable singletons, each with its
/// own not-initialized kind.
pub struct SessionState {
    pub client: Registry<Client>,
    pub config: Registry<Config>,
    pub encryption_key: Registry<ChaCha20Poly1305>,
}

impl SessionState {
    /// Each registry carries the not-initialized kind of its own resource.
    pub open spec fn wf(&self) -> bool {
        &&& self.client.missing == SshError::ClientNullError
        &&& self.config.missing == SshError::ConfigNullError
        &&& self.encryption_key.missing == SshError::EncryptionNullError
    }

    pub fn new() -> (r: SessionState)
        ensures
            r.wf(),
            r.client.slot is Empty,
            r.config.slot is Empty,
            r.encryption_key.slot is Empty,
    {
        SessionState {
            client: Registry::new(SshError::ClientNullError),
            config: Registry::new(SshError::ConfigNullError),
            encryption_key: Registry::new(SshError::EncryptionNullError),
        }
    }

    /// Replaces the process-wide transport connection; `None` clears it.
    pub fn update_client(&mut self, v: Option<Client>)
        ensures
            v matches Some(x) ==> final(self).client.slot == RegistrySlot::Ready(x),
            v is None ==> final(self).client.slot is Empty,
            final(self).client.missing == old(self).client.missing,
            final(self).config == old(self).config,
            final(self).encryption_key == old(self).encryption_key,
    {
        self.client.install(v);
    }

    /// Acquires the transport connection, or the client-null kind when
    /// none is installed.
    pub fn client(&mut self) -> (r: SshResult<Client>)
        requires
            old(self).wf(),
        ensures
            final(self).wf(),
            old(self).client.slot is Empty ==> r == Err::<Client, SshError>(
                SshError::ClientNullError,
            ) && *final(self) == *old(self),
            old(self).client.slot matches RegistrySlot::Ready(x) ==> r == Ok::<Client, SshError>(x)
                && final(self).client.slot is Held,
            old(self).client.slot is Held ==> r == Err::<Client, SshError>(SshError::MutexError)
                && *final(self) == *old(self),
            final(self).config == old(self).config,
            final(self).encryption_key == old(self).encryption_key,
    {
        self.client.acquire()
    }

    /// Replaces the session configuration; `None` clears it.
    pub fn update_config(&mut self, v: Option<Config>)
        ensures
            v matches Some(x) ==> final(self).config.slot == RegistrySlot::Ready(x),
            v is None ==> final(self).config.slot is Empty,
            final(self).config.missing == old(self).config.missing,
            final(self).client == old(self).client,
            final(self).encryption_key == old(self).encryption_key,
    {
        self.config.install(v);
    }

    /// Acquires the session configuration, or the config-null kind when
    /// none is installed.
    pub fn config(&mut self) -> (r: SshResult<Config>)
        requires
            old(self).wf(),
        ensures
            final(self).wf(),
            old(self).config.slot is Empty ==> r == Err::<Config, SshError>(
                SshError::ConfigNullError,
            ) && *final(self) == *old(self),
            old(self).config.slot matches RegistrySlot::Ready(x) ==> r == Ok::<Config, SshError>(x)
                && final(self).config.slot is Held,
            old(self).config.slot is Held ==> r == Err::<Config, SshError>(SshError::MutexError)
                && *final(self) == *old(self),
            final(self).client == old(self).client,
            final(self).encryption_key == old(self).encryption_key,
    {
        self.config.acquire()
    }

    /// Replaces the negotiated encryption context; `None` clears it.
    pub fn update_encryption_key(&mut self, v: Option<ChaCha20Poly1305>)
        ensures
            v matches Some(x) ==> final(self).encryption_key.slot == RegistrySlot::Ready(x),
            v is None ==> final(self).encryption_key.slot is Empty,
            final(self).encryption_key.missing == old(self).encryption_key.missing,
            final(self).client == old(self).client,
            final(self).config == old(self).config,
    {
        self.encryption_key.install(v);
    }

    /// Acquires the negotiated encryption context, or the encryption-null
    /// kind when none is installed. The context is only ever touched from
    /// the transport send/receive path; rather than trusting that
    /// discipline, it goes through the same registry as the other two, so
    /// the serialization is enforced rather than documented.
    pub fn encryption_key(&mut self) -> (r: SshResult<ChaCha20Poly1305>)
        requires
            old(self).wf(),
        ensures
            final(self).wf(),
            old(self).encryption_key.slot is Empty ==> r == Err::<ChaCha20Poly1305, SshError>(
                SshError::EncryptionNullError,
            ) && *final(self) == *old(self),
            old(self).encryption_key.slot matches RegistrySlot::Ready(x) ==> r == Ok::<
                ChaCha20Poly1305,
                SshError,
            >(x) && final(self).encryption_key.slot is Held,
            old(self).encryption_key.slot is Held ==> r == Err::<ChaCha20Poly1305, SshError>(
                SshError::MutexError,
            ) && *final(self) == *old(self),
            final(self).client == old(self).client,
            final(self).config == old(self).config,
    {
        self.encryption_key.acquire()
    }
}

} // verus!
