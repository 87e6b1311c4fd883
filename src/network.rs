//! Selection of the network a deployment goes to.

use crate::error::Error;
use crate::text::same_text;
use vstd::prelude::*;
use vstd::string::StringExecFns;

verus! {

/// Chain id of the local development node.
pub const LOCAL_CHAIN_ID: u64 = 1337;

/// Chain id of the hosted development network.
pub const DEV_CHAIN_ID: u64 = 20993;

/// Which kind of network a configuration stands for.
#[derive(Clone, Copy, Debug, PartialEq, Eq, Structural)]
pub enum NetworkType {
    /// A node on the developer's machine.
    Local,
    /// The hosted development network.
    Dev,
    /// An endpoint and chain id given by the caller.
    Custom,
}

/// Where a deployment goes: a display name, an RPC endpoint and a chain id.
#[derive(Debug)]
pub struct NetworkConfig {
    pub name: String,
    pub endpoint: String,
    pub chain_id: u64,
    pub network_type: NetworkType,
}

/// Arguments of one deployment, as handed over by the command line.
pub struct DeployArgs {
    /// Hex-encoded signing key, with or without a `0x` prefix.
    pub private_key: String,
    /// Maximum gas the deployment may use.
    pub gas_limit: u64,
    /// Gas price in the network's native unit; zero asks the network.
    pub gas_price: u64,
    /// Blocks to wait for past the one that includes the transaction.
    pub confirmations: u64,
    /// Path of the compiled module.
    pub wasm_file: String,
    /// Select the local preset.
    pub local: bool,
    /// Select the development preset.
    pub dev: bool,
    /// Custom RPC endpoint.
    pub rpc: Option<String>,
    /// Custom chain id.
    pub chain_id: Option<u64>,
}

pub open spec fn local_name() -> Seq<char> { "local"@ }
pub open spec fn local_endpoint() -> Seq<char> { "http://localhost:8545"@ }
pub open spec fn dev_name() -> Seq<char> { "dev"@ }
pub open spec fn dev_endpoint() -> Seq<char> { "https://rpc.dev.gblend.xyz"@ }
pub open spec fn custom_name() -> Seq<char> { "Custom"@ }

/// `c` holds exactly the given name, endpoint, chain id and kind.
pub open spec fn config_is(
    c: NetworkConfig,
    name: Seq<char>,
    endpoint: Seq<char>,
    chain_id: u64,
    ty: NetworkType,
) -> bool {
    c.name@ == name && c.endpoint@ == endpoint && c.chain_id == chain_id && c.network_type == ty
}

/// The local preset.
pub open spec fn is_local_config(c: NetworkConfig) -> bool {
    config_is(c, local_name(), local_endpoint(), LOCAL_CHAIN_ID, NetworkType::Local)
}

/// The development preset.
pub open spec fn is_dev_config(c: NetworkConfig) -> bool {
    config_is(c, dev_name(), dev_endpoint(), DEV_CHAIN_ID, NetworkType::Dev)
}

/// A selection is valid when exactly one of the local preset, the dev preset
/// and a custom endpoint with chain id is chosen, and nothing else is given.
pub open spec fn valid_selection(local: bool, dev: bool, rpc: bool, chain: bool) -> bool {
    (local && !dev && !rpc && !chain) || (!local && dev && !rpc && !chain) || (!local && !dev
        && rpc && chain)
}

/// What `from_args` gives for a selection: the matching preset, the custom
/// endpoint and chain id, or a configuration error.
pub open spec fn selected_config(args: DeployArgs, r: Result<NetworkConfig, Error>) -> bool {
    let rpc = args.rpc is Some;
    let chain = args.chain_id is Some;
    if !valid_selection(args.local, args.dev, rpc, chain) {
        r matches Err(Error::Config(_))
    } else if args.local {
        r is Ok && is_local_config(r->Ok_0)
    } else if args.dev {
        r is Ok && is_dev_config(r->Ok_0)
    } else {
        r is Ok && config_is(
            r->Ok_0,
            custom_name(),
            args.rpc->0@,
            args.chain_id->0,
            NetworkType::Custom,
        )
    }
}

fn local_config() -> (r: NetworkConfig)
    ensures
        is_local_config(r),
{
    NetworkConfig {
        name: String::from_str("local"),
        endpoint: String::from_str("http://localhost:8545"),
        chain_id: LOCAL_CHAIN_ID,
        network_type: NetworkType::Local,
    }
}

fn dev_config() -> (r: NetworkConfig)
    ensures
        is_dev_config(r),
{
    NetworkConfig {
        name: String::from_str("dev"),
        endpoint: String::from_str("https://rpc.dev.gblend.xyz"),
        chain_id: DEV_CHAIN_ID,
        network_type: NetworkType::Dev,
    }
}

impl NetworkConfig {
    /// Resolves the network that the arguments select. Exactly one of the
    /// local preset, the dev preset, or both a custom endpoint and chain id
    /// must be given; any other combination is a configuration error.
    pub fn from_args(args: &DeployArgs) -> (r: Result<NetworkConfig, Error>)
        ensures
            selected_config(*args, r),
    {
        let has_custom = args.rpc.is_some() || args.chain_id.is_some();
        if (args.local || args.dev) && has_custom {
            return Err(
                Error::Config(
                    String::from_str(
                        "specify either a preset or both endpoint and chain id, not both",
                    ),
                ),
            );
        }
        if args.local && args.dev {
            return Err(Error::Config(String::from_str("specify only one of --local and --dev")));
        }
        if args.local {
            return Ok(local_config());
        }
        if args.dev {
            return Ok(dev_config());
        }
        match (&args.rpc, args.chain_id) {
            (Some(rpc), Some(chain_id)) => Ok(
                NetworkConfig {
                    name: String::from_str("Custom"),
                    endpoint: rpc.clone(),
                    chain_id,
                    network_type: NetworkType::Custom,
                },
            ),
            _ => Err(
                Error::Config(
                    String::from_str(
                        "Please specify either --local, --dev, or both --rpc and --chain-id.",
                    ),
                ),
            ),
        }
    }

    /// A copy of the configuration.
    pub fn duplicate(&self) -> (r: NetworkConfig)
        ensures
            r == *self,
    {
        NetworkConfig {
            name: self.name.clone(),
            endpoint: self.endpoint.clone(),
            chain_id: self.chain_id,
            network_type: self.network_type,
        }
    }
}

/// Resolves a preset by its name: `local` or `dev`.
pub fn get_network_config(network: &str) -> (r: Result<NetworkConfig, Error>)
    ensures
        network@ == local_name() ==> r is Ok && is_local_config(r->Ok_0),
        network@ == dev_name() ==> r is Ok && is_dev_config(r->Ok_0),
        network@ != local_name() && network@ != dev_name() ==> r matches Err(Error::Network(_)),
{
    proof {
        reveal_strlit("local");
        reveal_strlit("dev");
        assert(local_name().len() != dev_name().len());
    }
    if same_text(network, "local") {
        Ok(local_config())
    } else if same_text(network, "dev") {
        Ok(dev_config())
    } else {
        Err(Error::Network(String::from_str("Unknown network: ").concat(network)))
    }
}

} // verus!

verus! {

/// Network resolution depends on the selection alone: two resolutions of
/// the same arguments agree on success, and on name, endpoint, chain id and
/// kind. Combining a preset with custom values, or selecting nothing, is a
/// configuration error; a single valid selection succeeds, and the local
/// preset carries chain id 1337.
pub proof fn law_network_resolution_deterministic(
    args: DeployArgs,
    r1: Result<NetworkConfig, Error>,
    r2: Result<NetworkConfig, Error>,
)
    requires
        selected_config(args, r1),
        selected_config(args, r2),
    ensures
        r1 is Ok <==> r2 is Ok,
        r1 is Ok ==> {
            &&& r1->Ok_0.name@ == r2->Ok_0.name@
            &&& r1->Ok_0.endpoint@ == r2->Ok_0.endpoint@
            &&& r1->Ok_0.chain_id == r2->Ok_0.chain_id
            &&& r1->Ok_0.network_type == r2->Ok_0.network_type
        },
        (args.local || args.dev) && (args.rpc is Some || args.chain_id is Some) ==> r1 matches Err(
            Error::Config(_),
        ),
        !args.local && !args.dev && args.rpc is None && args.chain_id is None ==> r1 matches Err(
            Error::Config(_),
        ),
        args.local && !args.dev && args.rpc is None && args.chain_id is None ==> r1 is Ok
            && r1->Ok_0.chain_id == LOCAL_CHAIN_ID,
{
}

} // verus!
