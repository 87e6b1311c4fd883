//! The deployment pipeline: local checks, then a state machine that asks
//! its caller for each network step and decides on every answer.

use crate::artifact::{has_wasm_magic, validate_wasm_file};
use crate::error::Error;
use crate::network::{valid_selection, selected_config, DeployArgs, NetworkConfig};
use crate::tracker::{
    resting_action, tracker_next, tracker_step, TrackerAction, TrackerEvent, TrackerSettings,
    TrackerState,
};
use crate::wallet::{create_wallet, is_key_text, is_secp256k1_secret, key_bytes, SigningIdentity};
use vstd::prelude::*;

verus! {

/// Gas limit used when the caller gives none.
pub const DEFAULT_GAS_LIMIT: u64 = 30_000_000;

/// Gas price that asks the network for its current price.
pub const DEFAULT_GAS_PRICE: u64 = 0;

/// Confirmations waited for when the caller gives none.
pub const DEFAULT_CONFIRMATIONS: u64 = 0;

/// An unsigned contract-creation transaction.
#[derive(Debug)]
pub struct DeploymentTransaction {
    pub chain_id: u64,
    /// The artifact bytes, not re-encoded.
    pub payload: Vec<u8>,
    pub gas_limit: u64,
    pub gas_price: u64,
}

/// Everything a deployment needs once the local checks have passed.
pub struct DeploymentPlan {
    pub network: NetworkConfig,
    pub identity: SigningIdentity,
    pub payload: Vec<u8>,
    pub gas_limit: u64,
    pub gas_price: u64,
    pub confirmations: u64,
}

/// The artifact is present and opens with the magic number.
pub open spec fn artifact_ok(artifact: Option<Vec<u8>>) -> bool {
    artifact is Some && has_wasm_magic(artifact->0@)
}

/// The arguments select exactly one network.
pub open spec fn selection_ok(args: DeployArgs) -> bool {
    valid_selection(args.local, args.dev, args.rpc is Some, args.chain_id is Some)
}

/// The key text is well formed and names a valid secret.
pub open spec fn key_ok(args: DeployArgs) -> bool {
    is_key_text(args.private_key@) && is_secp256k1_secret(key_bytes(args.private_key@))
}

/// Runs the local checks of a deployment in order: the artifact (`None`
/// when no file is at the path) first, then the network selection, then
/// the signing key, which is bound to the selected chain. The first check
/// that fails decides the error; no network call is made here.
pub fn prepare_deployment(args: &DeployArgs, artifact: Option<Vec<u8>>) -> (r: Result<
    DeploymentPlan,
    Error,
>)
    ensures
        artifact is None ==> r matches Err(Error::Deployment(_)),
        artifact is Some && !artifact_ok(artifact) ==> r matches Err(Error::Validation(_)),
        artifact_ok(artifact) && !selection_ok(*args) ==> r matches Err(Error::Config(_)),
        artifact_ok(artifact) && selection_ok(*args) && !key_ok(*args) ==> r matches Err(
            Error::InvalidPrivateKey(_),
        ),
        r is Ok <==> artifact_ok(artifact) && selection_ok(*args) && key_ok(*args),
        r is Ok ==> {
            let p = r->Ok_0;
            &&& p.payload == artifact->0
            &&& selected_config(*args, Ok(p.network))
            &&& p.identity.chain_id == p.network.chain_id
            &&& p.identity.secret@ == key_bytes(args.private_key@)
            &&& p.gas_limit == args.gas_limit
            &&& p.gas_price == args.gas_price
            &&& p.confirmations == args.confirmations
        },
{
    let payload = validate_wasm_file(args.wasm_file.as_str(), artifact)?;
    let network = NetworkConfig::from_args(args)?;
    let identity = create_wallet(args.private_key.as_str(), network.chain_id)?;
    Ok(
        DeploymentPlan {
            network,
            identity,
            payload,
            gas_limit: args.gas_limit,
            gas_price: args.gas_price,
            confirmations: args.confirmations,
        },
    )
}

/// Whether the gas price must be fetched from the network: zero means so.
pub fn needs_gas_price_lookup(gas_price: u64) -> (r: bool)
    ensures
        r == (gas_price == 0),
{
    gas_price == 0
}

/// Where a deployment stands.
#[derive(Debug)]
pub enum DeployStage {
    /// Waiting for the network's gas price; `tx` lacks only that.
    PricePending { tx: DeploymentTransaction },
    /// The transaction was handed out for signing and submission.
    SubmitPending,
    /// Accepted by the endpoint under `tx_hash`; confirmation under way.
    Tracking { tx_hash: String, tracker: TrackerState },
    /// A stage failed; nothing more happens.
    Failed { error: Error },
}

/// What the endpoint answered to the last action.
pub enum DeployEvent {
    /// The current gas price, or the endpoint's failure message.
    GasPrice(Result<u64, String>),
    /// The hash under which the endpoint accepted the signed transaction,
    /// or its rejection message.
    Submitted(Result<String, String>),
    /// An answer for the confirmation wait.
    Tracker(TrackerEvent),
}

/// What the caller must do next.
#[derive(Debug)]
pub enum DeployAction {
    /// Ask the endpoint for its current gas price.
    FetchGasPrice,
    /// Sign `tx` with the identity and submit it.
    Submit { tx: DeploymentTransaction },
    /// Carry out a step of the confirmation wait; `Stop` ends it.
    Track(TrackerAction),
    /// The deployment failed; see the stage.
    Done,
}

/// A deployment in progress: its confirmation settings and its stage.
pub struct Deployment {
    pub settings: TrackerSettings,
    pub stage: DeployStage,
}

/// The stage and action a deployment starts with: with a gas price of zero
/// it first asks the network; otherwise it submits at once with exactly the
/// given price, and no price query is made.
pub open spec fn deploy_start(
    chain_id: u64,
    payload: Vec<u8>,
    gas_limit: u64,
    gas_price: u64,
) -> (DeployStage, DeployAction) {
    let tx = DeploymentTransaction { chain_id, payload, gas_limit, gas_price };
    if gas_price == 0 {
        (DeployStage::PricePending { tx }, DeployAction::FetchGasPrice)
    } else {
        (DeployStage::SubmitPending, DeployAction::Submit { tx })
    }
}

/// One transition of a deployment. A fetched gas price goes into the
/// transaction, which is then submitted; a failed fetch is a network
/// error. An accepted submission starts the confirmation wait by polling
/// for the receipt; a rejected one is a deployment error carrying the
/// endpoint's message. While tracking, answers go to `tracker_next`.
/// Anything else leaves the stage as it is and repeats the question it
/// waits on; a failed or handed-out deployment has none.
pub open spec fn deploy_next(s: TrackerSettings, stage: DeployStage, event: DeployEvent) -> (
    DeployStage,
    DeployAction,
) {
    match (stage, event) {
        (DeployStage::PricePending { tx }, DeployEvent::GasPrice(Ok(price))) => (
            DeployStage::SubmitPending,
            DeployAction::Submit { tx: DeploymentTransaction { gas_price: price, ..tx } },
        ),
        (DeployStage::PricePending { .. }, DeployEvent::GasPrice(Err(m))) => (
            DeployStage::Failed { error: Error::Network(m) },
            DeployAction::Done,
        ),
        (DeployStage::SubmitPending, DeployEvent::Submitted(Ok(hash))) => (
            DeployStage::Tracking { tx_hash: hash, tracker: TrackerState::Submitted },
            DeployAction::Track(TrackerAction::PollReceipt { delay_ms: 0 }),
        ),
        (DeployStage::SubmitPending, DeployEvent::Submitted(Err(m))) => (
            DeployStage::Failed { error: Error::Deployment(m) },
            DeployAction::Done,
        ),
        (DeployStage::Tracking { tx_hash, tracker }, DeployEvent::Tracker(e)) => {
            let (t, a) = tracker_next(s, tracker, e);
            (DeployStage::Tracking { tx_hash, tracker: t }, DeployAction::Track(a))
        },
        (DeployStage::Tracking { tx_hash, tracker }, _) => (
            DeployStage::Tracking { tx_hash, tracker },
            DeployAction::Track(resting_action(tracker)),
        ),
        (DeployStage::PricePending { tx }, _) => (
            DeployStage::PricePending { tx },
            DeployAction::FetchGasPrice,
        ),
        (other, _) => (other, DeployAction::Done),
    }
}

impl Deployment {
    /// Starts a deployment of `payload` on chain `chain_id` (see
    /// `deploy_start`). `confirmations`, the deadline and the poll interval
    /// govern the confirmation wait.
    pub fn start(
        chain_id: u64,
        payload: Vec<u8>,
        gas_limit: u64,
        gas_price: u64,
        confirmations: u64,
        deadline_ms: u64,
        poll_interval_ms: u64,
    ) -> (r: (Deployment, DeployAction))
        ensures
            r.0.settings == (TrackerSettings {
                confirmations,
                gas_limit,
                deadline_ms,
                poll_interval_ms,
            }),
            (r.0.stage, r.1) == deploy_start(chain_id, payload, gas_limit, gas_price),
    {
        let settings = TrackerSettings { confirmations, gas_limit, deadline_ms, poll_interval_ms };
        let tx = DeploymentTransaction { chain_id, payload, gas_limit, gas_price };
        if needs_gas_price_lookup(gas_price) {
            (Deployment { settings, stage: DeployStage::PricePending { tx } }, DeployAction::FetchGasPrice)
        } else {
            (Deployment { settings, stage: DeployStage::SubmitPending }, DeployAction::Submit { tx })
        }
    }

    /// Feeds the endpoint's answer to the deployment (see `deploy_next`).
    pub fn step(&mut self, event: DeployEvent) -> (r: DeployAction)
        ensures
            final(self).settings == old(self).settings,
            (final(self).stage, r) == deploy_next(old(self).settings, old(self).stage, event),
    {
        let mut stage = DeployStage::SubmitPending;
        std::mem::swap(&mut stage, &mut self.stage);
        let (next, action) = match (stage, event) {
            (DeployStage::PricePending { tx }, DeployEvent::GasPrice(Ok(price))) => {
                let DeploymentTransaction { chain_id, payload, gas_limit, gas_price: _ } = tx;
                (
                    DeployStage::SubmitPending,
                    DeployAction::Submit {
                        tx: DeploymentTransaction { chain_id, payload, gas_limit, gas_price: price },
                    },
                )
            },
            (DeployStage::PricePending { .. }, DeployEvent::GasPrice(Err(m))) => (
                DeployStage::Failed { error: Error::Network(m) },
                DeployAction::Done,
            ),
            (DeployStage::SubmitPending, DeployEvent::Submitted(Ok(hash))) => (
                DeployStage::Tracking { tx_hash: hash, tracker: TrackerState::Submitted },
                DeployAction::Track(TrackerAction::PollReceipt { delay_ms: 0 }),
            ),
            (DeployStage::SubmitPending, DeployEvent::Submitted(Err(m))) => (
                DeployStage::Failed { error: Error::Deployment(m) },
                DeployAction::Done,
            ),
            (DeployStage::Tracking { tx_hash, tracker }, DeployEvent::Tracker(e)) => {
                let (t, a) = tracker_step(&self.settings, tracker, e);
                (DeployStage::Tracking { tx_hash, tracker: t }, DeployAction::Track(a))
            },
            (DeployStage::Tracking { tx_hash, tracker }, _) => {
                let a = match &tracker {
                    TrackerState::Submitted => TrackerAction::PollReceipt { delay_ms: 0 },
                    TrackerState::Included { .. } => TrackerAction::PollBlockHeight { delay_ms: 0 },
                    _ => TrackerAction::Stop,
                };
                (DeployStage::Tracking { tx_hash, tracker }, DeployAction::Track(a))
            },
            (DeployStage::PricePending { tx }, _) => (
                DeployStage::PricePending { tx },
                DeployAction::FetchGasPrice,
            ),
            (other, _) => (other, DeployAction::Done),
        };
        self.stage = next;
        action
    }
}

} // verus!

verus! {

/// With a requested gas price of zero the deployment first asks the
/// network, and the transaction it then submits carries exactly the price
/// that the network reported. With a price `K > 0` no price query happens
/// and the submitted transaction carries exactly `K`. Either way the
/// payload, chain id and gas limit are the ones given.
pub proof fn law_gas_price_source(
    s: TrackerSettings,
    chain_id: u64,
    payload: Vec<u8>,
    gas_limit: u64,
    gas_price: u64,
    quoted: u64,
)
    ensures
        ({
            let (stage, action) = deploy_start(chain_id, payload, gas_limit, gas_price);
            let expected = DeploymentTransaction { chain_id, payload, gas_limit, gas_price: quoted };
            &&& gas_price == 0 ==> action is FetchGasPrice
            &&& gas_price == 0 ==> deploy_next(s, stage, DeployEvent::GasPrice(Ok(quoted)))
                == (DeployStage::SubmitPending, DeployAction::Submit { tx: expected })
            &&& gas_price != 0 ==> action == DeployAction::Submit {
                tx: DeploymentTransaction { chain_id, payload, gas_limit, gas_price },
            }
        }),
{
}

} // verus!
