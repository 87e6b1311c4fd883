//! Summaries of finished deployments.

use crate::deploy::{DeployStage, Deployment};
use crate::error::Error;
use crate::network::NetworkConfig;
use crate::text::{decimal, decimal_text};
use crate::tracker::{DeploymentReceipt, TrackerState};
use vstd::prelude::*;
use vstd::string::StringExecFns;

verus! {

/// How an included deployment ended.
#[derive(Clone, Copy, Debug, PartialEq, Eq, Structural)]
pub enum DeploymentStatus {
    Success,
    Reverted,
}

/// The summary of a finished deployment, ready for display.
#[derive(Debug)]
pub struct DeploymentReport {
    pub network_name: String,
    pub chain_id: u64,
    pub status: DeploymentStatus,
    pub tx_hash: String,
    pub contract_address: Option<String>,
    /// Gas used; zero when the receipt does not say.
    pub gas_used: u64,
    pub gas_limit: u64,
    /// Effective gas price; zero when the receipt does not say.
    pub effective_gas_price: u64,
    /// Including block; zero when the receipt does not say.
    pub block_number: u64,
    pub event_count: u32,
    /// Set for a revert whose gas used reached the gas limit.
    pub gas_limit_reached: bool,
}

/// A present value, or zero.
pub open spec fn or_zero(v: Option<u64>) -> u64 {
    if v is Some {
        v->0
    } else {
        0
    }
}

/// `rep` summarizes `receipt` on `network` with the given ending.
pub open spec fn report_of(
    rep: DeploymentReport,
    network: NetworkConfig,
    receipt: DeploymentReceipt,
    gas_limit: u64,
    status: DeploymentStatus,
    gas_limit_reached: bool,
) -> bool {
    &&& rep.network_name@ == network.name@
    &&& rep.chain_id == network.chain_id
    &&& rep.status == status
    &&& rep.tx_hash == receipt.tx_hash
    &&& rep.contract_address == receipt.contract_address
    &&& rep.gas_used == or_zero(receipt.gas_used)
    &&& rep.gas_limit == gas_limit
    &&& rep.effective_gas_price == or_zero(receipt.effective_gas_price)
    &&& rep.block_number == or_zero(receipt.block_number)
    &&& rep.event_count == receipt.event_count
    &&& rep.gas_limit_reached == gas_limit_reached
}

fn value_or_zero(v: Option<u64>) -> (r: u64)
    ensures
        r == or_zero(v),
{
    match v {
        Some(x) => x,
        None => 0,
    }
}

/// Builds the summary of a receipt on `network`.
pub fn report_receipt(
    network: &NetworkConfig,
    receipt: DeploymentReceipt,
    gas_limit: u64,
    status: DeploymentStatus,
    gas_limit_reached: bool,
) -> (r: DeploymentReport)
    ensures
        report_of(r, *network, receipt, gas_limit, status, gas_limit_reached),
{
    DeploymentReport {
        network_name: network.name.clone(),
        chain_id: network.chain_id,
        status,
        tx_hash: receipt.tx_hash,
        contract_address: receipt.contract_address,
        gas_used: value_or_zero(receipt.gas_used),
        gas_limit,
        effective_gas_price: value_or_zero(receipt.effective_gas_price),
        block_number: value_or_zero(receipt.block_number),
        event_count: receipt.event_count,
        gas_limit_reached,
    }
}

/// The outcome of a deployment on `network`: a success or a revert becomes
/// a report; a timeout is a timeout error; a failed stage gives its error;
/// a deployment that has not ended is a deployment error.
pub fn deployment_result(network: &NetworkConfig, deployment: Deployment) -> (r: Result<
    DeploymentReport,
    Error,
>)
    ensures
        match deployment.stage {
            DeployStage::Tracking { tracker: TrackerState::Success { receipt }, .. } => r is Ok
                && report_of(
                r->Ok_0,
                *network,
                receipt,
                deployment.settings.gas_limit,
                DeploymentStatus::Success,
                false,
            ),
            DeployStage::Tracking {
                tracker: TrackerState::Reverted { receipt, gas_limit_reached },
                ..
            } => r is Ok && report_of(
                r->Ok_0,
                *network,
                receipt,
                deployment.settings.gas_limit,
                DeploymentStatus::Reverted,
                gas_limit_reached,
            ),
            DeployStage::Tracking { tracker: TrackerState::TimedOut, .. } => r matches Err(
                Error::Timeout(_),
            ),
            DeployStage::Failed { error } => r == Err::<DeploymentReport, Error>(error),
            _ => r matches Err(Error::Deployment(_)),
        },
{
    let gas_limit = deployment.settings.gas_limit;
    match deployment.stage {
        DeployStage::Tracking { tracker: TrackerState::Success { receipt }, .. } => Ok(
            report_receipt(network, receipt, gas_limit, DeploymentStatus::Success, false),
        ),
        DeployStage::Tracking {
            tracker: TrackerState::Reverted { receipt, gas_limit_reached },
            ..
        } => Ok(
            report_receipt(network, receipt, gas_limit, DeploymentStatus::Reverted, gas_limit_reached),
        ),
        DeployStage::Tracking { tracker: TrackerState::TimedOut, .. } => Err(
            Error::Timeout(String::from_str("Transaction confirmation timed out")),
        ),
        DeployStage::Failed { error } => Err(error),
        _ => Err(Error::Deployment(String::from_str("Deployment has not finished"))),
    }
}

} // verus!

verus! {

/// The text lines that present a report, in display order: status,
/// network, chain id, contract address (when known), transaction hash, gas
/// limit (for a revert), gas used, effective gas price, block number, event
/// count, and the gas-limit hint when it applies.
pub open spec fn summary_of(rep: DeploymentReport) -> Seq<Seq<char>> {
    let status = if rep.status == DeploymentStatus::Success {
        "Status: success"@
    } else {
        "Status: reverted"@
    };
    seq![status, "Network: "@ + rep.network_name@, "Chain ID: "@ + decimal(rep.chain_id as nat)]
        + (if rep.contract_address is Some {
        seq!["Contract address: "@ + rep.contract_address->0@]
    } else {
        Seq::empty()
    }) + seq!["Transaction hash: "@ + rep.tx_hash@] + (if rep.status == DeploymentStatus::Reverted {
        seq!["Gas limit: "@ + decimal(rep.gas_limit as nat)]
    } else {
        Seq::empty()
    }) + seq![
        "Gas used: "@ + decimal(rep.gas_used as nat),
        "Effective gas price: "@ + decimal(rep.effective_gas_price as nat),
        "Block number: "@ + decimal(rep.block_number as nat),
        "Events emitted: "@ + decimal(rep.event_count as nat),
    ] + (if rep.gas_limit_reached {
        seq!["Gas limit reached, likely cause of the revert. Please increase the gas limit."@]
    } else {
        Seq::empty()
    })
}

fn line(label: &str, value: &str) -> (r: String)
    ensures
        r@ == label@ + value@,
{
    String::from_str(label).concat(value)
}

impl DeploymentReport {
    /// The report as text lines (see `summary_of`).
    pub fn summary_lines(&self) -> (r: Vec<String>)
        ensures
            r@.map_values(|s: String| s@) == summary_of(*self),
    {
        let mut lines: Vec<String> = Vec::new();
        let success = match self.status {
            DeploymentStatus::Success => true,
            DeploymentStatus::Reverted => false,
        };
        if success {
            lines.push(String::from_str("Status: success"));
        } else {
            lines.push(String::from_str("Status: reverted"));
        }
        lines.push(line("Network: ", self.network_name.as_str()));
        lines.push(line("Chain ID: ", decimal_text(self.chain_id).as_str()));
        match &self.contract_address {
            Some(address) => lines.push(line("Contract address: ", address.as_str())),
            None => {},
        }
        lines.push(line("Transaction hash: ", self.tx_hash.as_str()));
        if !success {
            lines.push(line("Gas limit: ", decimal_text(self.gas_limit).as_str()));
        }
        lines.push(line("Gas used: ", decimal_text(self.gas_used).as_str()));
        lines.push(line("Effective gas price: ", decimal_text(self.effective_gas_price).as_str()));
        lines.push(line("Block number: ", decimal_text(self.block_number).as_str()));
        lines.push(line("Events emitted: ", decimal_text(self.event_count as u64).as_str()));
        if self.gas_limit_reached {
            lines.push(
                String::from_str(
                    "Gas limit reached, likely cause of the revert. Please increase the gas limit.",
                ),
            );
        }
        assert(lines@.map_values(|s: String| s@) =~= summary_of(*self));
        lines
    }
}

} // verus!
