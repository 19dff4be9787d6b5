//! The order of work when a network is configured, and how a run fails.
//!
//! Configuring reads the stored document, merges the network into it,
//! stores the result and asks the system to apply it. Reading, storing and
//! applying are done by the caller, who reports each outcome here and
//! learns what to do next. The first failure ends the run; nothing is
//! retried or undone.

use crate::cli::ValidationError;
use crate::merge::{merge_wireless_network, merged_model};
use crate::netplan::NetplanFile;
use crate::secret::valid_secret;
use vstd::prelude::*;
use vstd::string::StringExecFns;

verus! {

/// The wireless interface that is configured.
pub const WIRELESS_INTERFACE: &'static str = "wlan0";

/// Why a run ended without success.
#[derive(Debug, PartialEq, Eq)]
pub enum Failure {
    /// The command line was turned down.
    Usage(ValidationError),
    /// The scan could not be run or its report could not be read.
    Scan(String),
    /// The stored document could not be read.
    Read(String),
    /// The document could not be stored.
    Write(String),
    /// The system did not apply the stored document.
    Apply(String),
}

/// What the caller does next.
#[derive(Debug, PartialEq, Eq)]
pub enum Step {
    /// Store this document.
    Write(NetplanFile),
    /// Ask the system to apply the stored document.
    Apply,
    /// The network is configured.
    Finish,
    /// Give up for this reason.
    Abort(Failure),
}

impl Failure {
    /// The text shown for this failure: for a step of configuring, what
    /// failed and then the reason that was reported.
    pub open spec fn message_model(self) -> Seq<char> {
        match self {
            Failure::Usage(error) => error.message_model(),
            Failure::Scan(reason) => reason@,
            Failure::Read(reason) => "Failed to read current Netplan configuration: "@ + reason@,
            Failure::Write(reason) => "Failed to write new Netplan configuration: "@ + reason@,
            Failure::Apply(reason) => "Failed to apply Netplan configuration: "@ + reason@,
        }
    }

    /// The text to show for this failure.
    pub fn message(&self) -> (text: String)
        ensures
            text@ == self.message_model(),
    {
        match self {
            Failure::Usage(error) => error.message(),
            Failure::Scan(reason) => reason.clone(),
            Failure::Read(reason) => "Failed to read current Netplan configuration: ".to_owned().concat(
                reason.as_str(),
            ),
            Failure::Write(reason) => "Failed to write new Netplan configuration: ".to_owned().concat(
                reason.as_str(),
            ),
            Failure::Apply(reason) => "Failed to apply Netplan configuration: ".to_owned().concat(
                reason.as_str(),
            ),
        }
    }

    /// The status with which the process ends after this failure.
    pub fn exit_status(&self) -> (status: i32)
        ensures
            status == 1,
    {
        1
    }
}

/// What follows the reading of the stored document. A document that was
/// read gets the network `ssid` with the secret `password` merged into the
/// wireless interface and is to be stored; a failure to read ends the run.
pub fn after_read(ssid: &str, password: &str, outcome: Result<NetplanFile, String>) -> (next: Step)
    ensures
        match outcome {
            Ok(doc) => next matches Step::Write(merged) && merged@ == merged_model(
                doc@,
                WIRELESS_INTERFACE@,
                ssid@,
                password@,
            ) && merged.network.ethernets == doc.network.ethernets && (doc@.well_formed()
                && valid_secret(password@) ==> merged@.well_formed()),
            Err(reason) => next == Step::Abort(Failure::Read(reason)),
        },
{
    match outcome {
        Ok(doc) => Step::Write(merge_wireless_network(doc, WIRELESS_INTERFACE, ssid, password)),
        Err(reason) => Step::Abort(Failure::Read(reason)),
    }
}

/// What follows the storing of the merged document: applying it, or the
/// end of the run where storing failed.
pub fn after_write(outcome: Result<(), String>) -> (next: Step)
    ensures
        next == match outcome {
            Ok(_) => Step::Apply,
            Err(reason) => Step::Abort(Failure::Write(reason)),
        },
{
    match outcome {
        Ok(_) => Step::Apply,
        Err(reason) => Step::Abort(Failure::Write(reason)),
    }
}

/// What follows the applying of the stored document: the end of the run,
/// with success or with the reason that the system gave.
pub fn after_apply(outcome: Result<(), String>) -> (next: Step)
    ensures
        next == match outcome {
            Ok(_) => Step::Finish,
            Err(reason) => Step::Abort(Failure::Apply(reason)),
        },
{
    match outcome {
        Ok(_) => Step::Finish,
        Err(reason) => Step::Abort(Failure::Apply(reason)),
    }
}

} // verus!
