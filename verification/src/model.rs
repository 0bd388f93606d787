//! The data the deployment flow hands to the blockchain SDK, modelled as
//! plain values. The surrounding binary converts these into the SDK's own
//! structures; the flow's contracts speak of the fields here.

use vstd::prelude::*;

verus! {

/// The fixed timeout, in milliseconds, for message processing on the
/// network-configured client.
pub const PROCESSING_TIMEOUT_MS: u32 = 30000;

/// The network gateway the tool submits through.
pub fn network_url() -> (r: String)
    ensures
        r@ == "net.ton.dev"@,
{
    "net.ton.dev".to_owned()
}

/// The fixed path of the configuration file.
pub fn config_path() -> (r: String)
    ensures
        r@ == "config.json"@,
{
    "config.json".to_owned()
}

/// A public/secret key pair, used only as input to the signing step.
#[derive(Debug, Clone)]
pub struct KeyPair {
    pub public: String,
    pub secret: String,
}

/// The entity authorizing a message: nobody, an external public key, or a
/// full key pair.
#[derive(Debug, Clone)]
pub enum Signer {
    /// No signer: an unsigned deployment.
    Unsigned,
    /// Only a public key: the message is prepared for an external signature.
    External { public_key: String },
    /// A full key pair signs the message.
    WithKeys { keys: KeyPair },
}

/// What the network-configured client is built with.
#[derive(Debug, Clone)]
pub struct ClientSettings {
    pub server_address: String,
    pub message_processing_timeout: u32,
}

/// One request to compute the deterministic deployment address: the compiled
/// image, the ABI document, the workchain, and the signer (never a full key
/// pair: address computation needs no secret).
#[derive(Debug, Clone)]
pub struct AddressRequest {
    pub tvc_base64: String,
    pub abi_json: String,
    pub workchain_id: i32,
    pub signer: Signer,
}

/// The deployment message handed to the SDK for encoding and submission.
#[derive(Debug, Clone)]
pub struct DeployMessage {
    /// The ABI document, as JSON text.
    pub abi_json: String,
    /// The address the contract is deployed at, computed beforehand from the
    /// same image, ABI and public key.
    pub address: String,
    /// The compiled contract image, base64-encoded.
    pub tvc_base64: String,
    pub workchain_id: i32,
    /// The function the call set invokes.
    pub call_function: String,
    /// The constructor's input, as JSON text.
    pub call_input: String,
    pub signer: Signer,
}

} // verus!
