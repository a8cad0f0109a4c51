use crate::address::{AddressView, ContentAddress};
use crate::config::ClientConfig;
use crate::dispatch::{finish_inference, inferred};
use crate::error::ErrorKind;
use crate::introspect::{describe, described};
use crate::loader::{advance, next, Action, Event, Load};
use crate::model::{ModelDescriptor, Tensor, TensorDescriptor};
use crate::table::SessionTable;
use vstd::prelude::*;

verus! {

/// The serving client: the connection to the byte store, the settings for
/// the engine, and the sessions built so far.
///
/// `Session` is the engine's handle. The client never looks into it: it
/// stores it, and hands it out by reference.
pub struct IpnisClientInner<IpiisClient, Session> {
    pub ipiis: IpiisClient,
    config: ClientConfig,
    sessions: SessionTable<Session>,
}

impl<IpiisClient, Session> IpnisClientInner<IpiisClient, Session> {
    /// The sessions of this client, by address.
    pub closed spec fn sessions(&self) -> Map<AddressView, Session> {
        self.sessions@
    }

    /// The connection to the byte store.
    pub closed spec fn connection(&self) -> IpiisClient {
        self.ipiis
    }

    /// The settings this client was made with.
    pub closed spec fn settings(&self) -> ClientConfig {
        self.config
    }

    /// A client over `ipiis` with the given settings and no session.
    pub fn with_ipiis_client(ipiis: IpiisClient, config: ClientConfig) -> (r: Self)
        ensures
            r.connection() == ipiis,
            r.settings() == config,
            r.sessions() == Map::<AddressView, Session>::empty(),
    {
        IpnisClientInner { ipiis, config, sessions: SessionTable::new() }
    }

    pub fn config(&self) -> (r: &ClientConfig)
        ensures
            *r == self.settings(),
    {
        &self.config
    }

    /// The session of the model at `address`, if it has been built.
    pub fn session(&self, address: &ContentAddress) -> (r: Option<&Session>)
        ensures
            r.is_some() == self.sessions().dom().contains(address@),
            r.is_some() ==> *r.unwrap() == self.sessions()[address@],
    {
        self.sessions.get(address)
    }

    /// One step of loading a session; see [`next`]. The caller holds this
    /// client exclusively from the first step of a load to its last.
    pub fn load_session(&mut self, load: Load, event: Event<Session>) -> (r: (Load, Action))
        ensures
            final(self).sessions() == next(old(self).sessions(), load, event).table,
            r.0 == next(old(self).sessions(), load, event).load,
            r.1 == next(old(self).sessions(), load, event).action,
            final(self).connection() == old(self).connection(),
            final(self).settings() == old(self).settings(),
    {
        advance(&mut self.sessions, load, event)
    }

    /// Ends an inference on `model` with what the engine's run gave, `None`
    /// for a run that failed. The sessions are not touched.
    pub fn call_raw<D>(&self, model: &ModelDescriptor, run: Option<Vec<D>>) -> (r: Result<
        Vec<Tensor<D>>,
        ErrorKind,
    >)
        ensures
            match inferred(*model, run) {
                Ok(tensors) => r.is_ok() && r.unwrap()@ == tensors,
                Err(kind) => r == Err::<Vec<Tensor<D>>, ErrorKind>(kind),
            },
    {
        finish_inference(model, run)
    }

    /// Describes the model at `address` from what its session declares.
    pub fn load_model(
        &self,
        address: &ContentAddress,
        inputs: Vec<Option<TensorDescriptor>>,
        outputs: Vec<Option<TensorDescriptor>>,
    ) -> (r: Result<ModelDescriptor, ErrorKind>)
        ensures
            match described(*address, inputs@, outputs@) {
                Ok(parts) => r.is_ok() && r.unwrap().address == parts.0 && r.unwrap().inputs@
                    == parts.1 && r.unwrap().outputs@ == parts.2,
                Err(kind) => r == Err::<ModelDescriptor, ErrorKind>(kind),
            },
    {
        describe(address, inputs, outputs)
    }
}

} // verus!
