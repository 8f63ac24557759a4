//! The gear that owns the service's runtime state: it is set up once from a
//! validated configuration, and routes can be registered only after that.

use std::sync::Arc;

use vstd::prelude::*;
use vstd::string::StringExecFns;
use vstd::utf8::encode_utf8;

use crate::api::MAX_CONCURRENT_WRITES;
use crate::auth::{slot_limit, IngestAdmission, TokenVerifier};
use crate::config::ValidatedConfig;
use crate::digest::sha256;
use crate::raw_data::RawDataStore;

verus! {

/// The state that the ingestion handler reads: where records are stored.
pub struct AppState {
    store: RawDataStore,
}

impl AppState {
    /// The state around a store.
    pub closed spec fn store_spec(&self) -> RawDataStore {
        self.store
    }

    /// The state around a store.
    pub fn new(store: RawDataStore) -> (state: AppState)
        ensures
            state.store_spec() == store,
    {
        AppState { store }
    }

    /// The store that records are written to.
    pub fn store(&self) -> (store: &RawDataStore)
        ensures
            *store == self.store_spec(),
    {
        &self.store
    }
}

/// What the gear holds once it is set up: the handler state and the admission check
/// in front of the handler.
pub struct RuntimeState {
    pub app: Arc<AppState>,
    pub admission: IngestAdmission,
}

/// Why the gear refused a step.
#[derive(Debug)]
pub enum GearError {
    /// The gear was already set up.
    AlreadyInitialized,
    /// Routes were asked for before the gear was set up.
    NotInitialized,
}

impl GearError {
    /// The message that explains the error.
    pub fn message(&self) -> (text: String)
        ensures
            match self {
                GearError::AlreadyInitialized => text@ == "insight-v3-core gear already initialized"@,
                GearError::NotInitialized => text@ == "insight-v3-core gear not initialized"@,
            },
    {
        match self {
            GearError::AlreadyInitialized => String::from_str(
                "insight-v3-core gear already initialized",
            ),
            GearError::NotInitialized => String::from_str("insight-v3-core gear not initialized"),
        }
    }
}

/// The insight-v3-core gear: empty until it is set up, and set up at most
/// once.
pub struct InsightV3CoreGear {
    runtime: Option<RuntimeState>,
}

impl Default for InsightV3CoreGear {
    fn default() -> (gear: Self)
        ensures
            gear.runtime_spec() is None,
    {
        InsightV3CoreGear { runtime: None }
    }
}

impl InsightV3CoreGear {
    /// The runtime state, once the gear is set up.
    pub closed spec fn runtime_spec(&self) -> Option<RuntimeState> {
        self.runtime
    }

    /// Whether the gear is set up.
    pub fn is_initialized(&self) -> (initialized: bool)
        ensures
            initialized == self.runtime_spec() is Some,
    {
        self.runtime.is_some()
    }

    /// Sets the gear up from a validated configuration and the ClickHouse
    /// client built from it: the admission check checks the configured ingestion
    /// token, and the store writes with the production limits. A gear that
    /// is already set up is left as it was.
    pub fn init(&mut self, config: &ValidatedConfig, client: clickhouse::Client) -> (initialized:
        Result<(), GearError>)
        ensures
            old(self).runtime_spec() is Some ==> (initialized matches Err(
                GearError::AlreadyInitialized,
            ) && final(self).runtime_spec() == old(self).runtime_spec()),
            old(self).runtime_spec() is None ==> initialized is Ok && (final(self).runtime_spec() matches Some(runtime) && runtime.admission.verifier_spec().digest()
                == sha256(encode_utf8(config@.ingest_token)) && runtime.app.store_spec().client_spec()
                == client && runtime.app.store_spec().timeouts_spec().is_production()
                && slot_limit(*runtime.admission.write_slots_spec()) == MAX_CONCURRENT_WRITES),
    {
        let verifier = TokenVerifier::new(config.ingest_token());
        let store = RawDataStore::new(client);
        let runtime = RuntimeState {
            app: Arc::new(AppState::new(store)),
            admission: IngestAdmission::new(verifier),
        };
        if self.runtime.is_some() {
            return Err(GearError::AlreadyInitialized);
        }
        self.runtime = Some(runtime);
        Ok(())
    }

    /// The runtime state that routes are registered with; an error before
    /// the gear is set up.
    pub fn runtime(&self) -> (runtime: Result<&RuntimeState, GearError>)
        ensures
            match self.runtime_spec() {
                Some(r) => runtime matches Ok(rr) && *rr == r,
                None => runtime matches Err(GearError::NotInitialized),
            },
    {
        match &self.runtime {
            Some(runtime) => Ok(runtime),
            None => Err(GearError::NotInitialized),
        }
    }
}

} // verus!
