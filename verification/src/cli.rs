//! What the command line asks for.
//!
//! The arguments are read from left to right. `-s` asks for a scan and ends
//! the reading at once. `-u` takes the argument after it as the network's
//! name, `-p` as its shared secret; a later one replaces an earlier one.
//! Reading goes on with the argument after the flag, so a value that is
//! itself a flag is read as that flag too. Anything else is passed over.

use crate::secret::{is_valid_secret, valid_secret};
use crate::text::same_text;
use vstd::prelude::*;

verus! {

/// Why a command line is turned down.
#[derive(Debug, Clone, Copy, PartialEq, Eq, Structural)]
pub enum ValidationError {
    /// `-u` is the last argument.
    MissingNetworkValue,
    /// `-p` is the last argument.
    MissingSecretValue,
    /// The shared secret has fewer than 8 or more than 63 characters.
    SecretLength,
    /// The network's name or its shared secret was not given.
    Incomplete,
}

impl ValidationError {
    /// The text shown for this error.
    pub open spec fn message_model(self) -> Seq<char> {
        match self {
            ValidationError::MissingNetworkValue => "Missing value for '-u'"@,
            ValidationError::MissingSecretValue => "Missing value for '-p'"@,
            ValidationError::SecretLength =>
                "Password invalid. Must be between 8 and 63 characters long. Inclusive."@,
            ValidationError::Incomplete => "WiFi Password or SSID not specified."@,
        }
    }

    /// The text to show for this error.
    pub fn message(&self) -> (text: String)
        ensures
            text@ == self.message_model(),
    {
        match self {
            ValidationError::MissingNetworkValue => "Missing value for '-u'".to_owned(),
            ValidationError::MissingSecretValue => "Missing value for '-p'".to_owned(),
            ValidationError::SecretLength =>
                "Password invalid. Must be between 8 and 63 characters long. Inclusive.".to_owned(),
            ValidationError::Incomplete => "WiFi Password or SSID not specified.".to_owned(),
        }
    }
}

/// What a command line asks for.
#[derive(Debug, PartialEq, Eq)]
pub enum Request {
    /// List the networks in range.
    Scan,
    /// Join the network `ssid` with the shared secret `password`.
    Configure { ssid: String, password: String },
}

/// Model of a [`Request`].
pub enum RequestModel {
    Scan,
    Configure { ssid: Seq<char>, password: Seq<char> },
}

impl View for Request {
    type V = RequestModel;

    open spec fn view(&self) -> RequestModel {
        match self {
            Request::Scan => RequestModel::Scan,
            Request::Configure { ssid, password } => RequestModel::Configure {
                ssid: ssid@,
                password: password@,
            },
        }
    }
}

/// What the arguments from place `at` on ask for, when the name and the
/// secret read so far are `ssid` and `password`.
pub open spec fn requested_from(
    args: Seq<Seq<char>>,
    at: int,
    ssid: Option<Seq<char>>,
    password: Option<Seq<char>>,
) -> Result<RequestModel, ValidationError>
    decreases args.len() - at,
{
    if at < 0 || at >= args.len() {
        match (ssid, password) {
            (Some(ssid), Some(password)) => Ok(RequestModel::Configure { ssid, password }),
            _ => Err(ValidationError::Incomplete),
        }
    } else if args[at] == "-s"@ {
        Ok(RequestModel::Scan)
    } else if args[at] == "-u"@ {
        if at + 1 >= args.len() {
            Err(ValidationError::MissingNetworkValue)
        } else {
            requested_from(args, at + 1, Some(args[at + 1]), password)
        }
    } else if args[at] == "-p"@ {
        if at + 1 >= args.len() {
            Err(ValidationError::MissingSecretValue)
        } else if !valid_secret(args[at + 1]) {
            Err(ValidationError::SecretLength)
        } else {
            requested_from(args, at + 1, ssid, Some(args[at + 1]))
        }
    } else {
        requested_from(args, at + 1, ssid, password)
    }
}

/// What the arguments ask for.
pub open spec fn requested(args: Seq<Seq<char>>) -> Result<RequestModel, ValidationError> {
    requested_from(args, 0, None, None)
}

/// Whatever the arguments, a request that comes out of them with a secret
/// has one of acceptable length, provided that the secret read before, if
/// any, was acceptable.
pub proof fn lemma_requested_from_is_validated(
    args: Seq<Seq<char>>,
    at: int,
    ssid: Option<Seq<char>>,
    password: Option<Seq<char>>,
)
    requires
        password matches Some(secret) ==> valid_secret(secret),
    ensures
        requested_from(args, at, ssid, password) matches Ok(
            RequestModel::Configure { password: secret, .. },
        ) ==> valid_secret(secret),
    decreases args.len() - at,
{
    if at < 0 || at >= args.len() {
    } else if args[at] == "-s"@ {
    } else if args[at] == "-u"@ {
        if at + 1 < args.len() {
            lemma_requested_from_is_validated(args, at + 1, Some(args[at + 1]), password);
        }
    } else if args[at] == "-p"@ {
        if at + 1 < args.len() && valid_secret(args[at + 1]) {
            lemma_requested_from_is_validated(args, at + 1, ssid, Some(args[at + 1]));
        }
    } else {
        lemma_requested_from_is_validated(args, at + 1, ssid, password);
    }
}

/// A command line asks for configuring only with a shared secret of
/// acceptable length.
pub proof fn lemma_request_is_validated(args: Seq<Seq<char>>)
    ensures
        requested(args) matches Ok(RequestModel::Configure { password: secret, .. })
            ==> valid_secret(secret),
{
    lemma_requested_from_is_validated(args, 0, None, None);
}

/// Reads the arguments of the command line, the program's name among them.
pub fn parse_args(args: &Vec<String>) -> (outcome: Result<Request, ValidationError>)
    ensures
        match outcome {
            Ok(request) => requested(args.deep_view()) == Ok::<RequestModel, ValidationError>(
                request@,
            ),
            Err(error) => requested(args.deep_view()) == Err::<RequestModel, ValidationError>(
                error,
            ),
        },
        outcome matches Ok(Request::Configure { password, .. }) ==> valid_secret(password@),
{
    proof {
        lemma_request_is_validated(args.deep_view());
    }
    let mut ssid: Option<String> = None;
    let mut password: Option<String> = None;
    let mut at: usize = 0;
    while at < args.len()
        invariant
            at <= args@.len(),
            requested(args.deep_view()) == requested_from(
                args.deep_view(),
                at as int,
                ssid.deep_view(),
                password.deep_view(),
            ),
        decreases args@.len() - at,
    {
        let arg = args[at].as_str();
        if same_text(arg, "-s") {
            return Ok(Request::Scan);
        } else if same_text(arg, "-u") {
            if at + 1 >= args.len() {
                return Err(ValidationError::MissingNetworkValue);
            }
            ssid = Some(args[at + 1].clone());
        } else if same_text(arg, "-p") {
            if at + 1 >= args.len() {
                return Err(ValidationError::MissingSecretValue);
            }
            if !is_valid_secret(args[at + 1].as_str()) {
                return Err(ValidationError::SecretLength);
            }
            password = Some(args[at + 1].clone());
        }
        at += 1;
    }
    match (ssid, password) {
        (Some(ssid), Some(password)) => Ok(Request::Configure { ssid, password }),
        _ => Err(ValidationError::Incomplete),
    }
}

} // verus!
