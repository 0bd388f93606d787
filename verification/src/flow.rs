//! The deployment flow as an explicit state machine.
//!
//! One run of the tool is a linear walk: read and parse the configuration,
//! read the initial-data document, resolve the ABI path, the constructor
//! parameters, the contract image and the keys, create the client, read and
//! check the ABI file, compute the deployment address, and submit the signed
//! message. Every read, client call and network submission is outside work:
//! [`step`] only decides, handing back the next state together with the one
//! action the surrounding binary must perform, whose outcome comes back as
//! the next event. A run that fails at any point finishes with a classified
//! error and the exact lines to report; it accepts no further event, so no
//! network action can follow a failure.

use vstd::prelude::*;
use vstd::string::StringExecFns;
use crate::errors::DeployError;
use crate::json::{json_valid, parse_json, str_field};
use crate::model::{
    AddressRequest, ClientSettings, DeployMessage, PROCESSING_TIMEOUT_MS, config_path, network_url,
};
use crate::resolve::{
    address_signer, address_signer_ok, load_abi, message_signer, message_signer_ok, params_source,
    view_opt_str, view_opt_string, ParamsSource,
};

verus! {

/// How a finished run ended.
#[derive(Debug)]
pub enum Outcome {
    /// The contract was deployed at the computed address.
    Success { address: String },
    /// The run failed; the error says where and why.
    Failure { error: DeployError },
}

/// The inputs gathered so far while the constructor parameters are still
/// being read from their file.
#[derive(Debug)]
pub struct PendingInputs {
    pub abi_path: String,
    pub code_base64: Option<String>,
    pub public_key: Option<String>,
    pub secret_key: Option<String>,
}

/// Every input of the deployment, fully resolved.
#[derive(Debug)]
pub struct ResolvedInputs {
    pub abi_path: String,
    pub code_base64: String,
    pub public_key: Option<String>,
    pub secret_key: Option<String>,
    /// The constructor parameters as JSON text, inline or read from the
    /// referenced file; checked for well-formedness before submission.
    pub params_text: String,
}

/// Where a run stands: which outside work it is waiting for.
#[derive(Debug)]
pub enum FlowState {
    /// Waiting for the configuration file.
    AwaitConfig,
    /// Waiting for the initial-data document the configuration references.
    AwaitInitial { parameters: Option<String> },
    /// Waiting for the file the parameters field names.
    AwaitParams { pending: PendingInputs },
    /// Waiting for the network-configured client to be created.
    AwaitClient { inputs: ResolvedInputs },
    /// Waiting for the ABI file.
    AwaitAbi { inputs: ResolvedInputs },
    /// Waiting for the deployment address to be computed.
    AwaitAddress { inputs: ResolvedInputs, abi_json: String },
    /// Waiting for the network submission to resolve.
    AwaitSubmit { address: String },
    /// The run is over; nothing further is accepted.
    Finished { outcome: Outcome },
}

/// What the outside address computation came to.
pub enum AddressOutcome {
    /// The deterministic address, as the client computed it.
    Address { address: String },
    /// The client context could not be created; the raw error text.
    ContextFailure { message: String },
    /// The client failed to encode the message; the raw error text.
    EncodeFailure { message: String },
}

/// The outcome of one piece of outside work, fed back into [`step`].
pub enum FlowEvent {
    /// The configuration file was read and parsed, or failed with an error text.
    ConfigRead { result: Result<serde_json::Value, String> },
    /// The initial-data file was read and parsed, or failed with an error text.
    InitialRead { result: Result<serde_json::Value, String> },
    /// The parameters file was read, or failed with an error text.
    ParamsRead { result: Result<String, String> },
    /// The network-configured client was created, or failed with an error text.
    ClientCreated { result: Result<(), String> },
    /// The ABI file was read, or failed with an error text.
    AbiRead { result: Result<String, String> },
    /// The address computation resolved.
    AddressComputed { outcome: AddressOutcome },
    /// The client reported the message as sent, with its identifier.
    MessageSent { message_id: String },
    /// The network submission resolved.
    Submitted { result: Result<(), String> },
}

/// The one piece of outside work the binary must perform next.
#[derive(Debug)]
pub enum FlowAction {
    /// Read and parse the configuration file at this path.
    ReadConfig { path: String },
    /// Read and parse the initial-data file at this path.
    ReadInitial { path: String },
    /// Read the parameters file at this path.
    ReadParams { path: String },
    /// Create the network-configured client.
    CreateClient { settings: ClientSettings },
    /// Read the ABI file at this path.
    ReadAbi { path: String },
    /// Compute the deployment address.
    ComputeAddress { request: AddressRequest },
    /// Encode, sign and submit the deployment message.
    Submit { message: DeployMessage },
    /// Print one notification line; the run goes on.
    Print { line: String },
    /// Print these lines; the run is over.
    Report { lines: Vec<String> },
}

/// Which events a state takes: exactly the outcome of the action it issued.
pub open spec fn accepts(state: FlowState, event: FlowEvent) -> bool {
    match (state, event) {
        (FlowState::AwaitConfig, FlowEvent::ConfigRead { .. }) => true,
        (FlowState::AwaitInitial { .. }, FlowEvent::InitialRead { .. }) => true,
        (FlowState::AwaitParams { .. }, FlowEvent::ParamsRead { .. }) => true,
        (FlowState::AwaitClient { .. }, FlowEvent::ClientCreated { .. }) => true,
        (FlowState::AwaitAbi { .. }, FlowEvent::AbiRead { .. }) => true,
        (FlowState::AwaitAddress { .. }, FlowEvent::AddressComputed { .. }) => true,
        (FlowState::AwaitSubmit { .. }, FlowEvent::MessageSent { .. }) => true,
        (FlowState::AwaitSubmit { .. }, FlowEvent::Submitted { .. }) => true,
        _ => false,
    }
}

/// The error a finished, failed run carries.
pub open spec fn failure_of(s: FlowState) -> DeployError {
    match s {
        FlowState::Finished { outcome: Outcome::Failure { error } } => error,
        _ => arbitrary(),
    }
}

/// The line a deploy-stage failure reports: `Fail: ` before the error's text.
pub open spec fn fail_line(text: Seq<char>) -> Seq<char> {
    "Fail: "@ + text
}

/// Whether one sequence begins with another.
pub open spec fn starts_with(s: Seq<char>, prefix: Seq<char>) -> bool {
    s.len() >= prefix.len() && s.subrange(0, prefix.len() as int) == prefix
}

/// The pair describes a finished, failed run: the state records an error with
/// this text, and the one action reports this single line.
pub open spec fn run_failed(r: (FlowState, FlowAction), text: Seq<char>, line: Seq<char>) -> bool {
    &&& r.0 matches FlowState::Finished { outcome }
    &&& outcome is Failure
    &&& failure_of(r.0).text() == text
    &&& r.1 matches FlowAction::Report { lines }
    &&& lines@.len() == 1
    &&& lines@[0]@ == line
}

/// The pair describes a run failed on a document that does not parse: the
/// error text carries the stated prefix before the parser's own words.
pub open spec fn parse_failed(r: (FlowState, FlowAction), prefix: Seq<char>) -> bool {
    &&& r.0 matches FlowState::Finished { outcome }
    &&& outcome is Failure
    &&& failure_of(r.0) is ParseError
    &&& starts_with(failure_of(r.0).text(), prefix)
    &&& r.1 matches FlowAction::Report { lines }
    &&& lines@.len() == 1
    &&& lines@[0]@ == fail_line(failure_of(r.0).text())
}

/// The view of fully resolved inputs, field by field.
pub open spec fn inputs_view(i: ResolvedInputs) -> (
    Seq<char>,
    Seq<char>,
    Option<Seq<char>>,
    Option<Seq<char>>,
    Seq<char>,
) {
    (
        i.abi_path@,
        i.code_base64@,
        view_opt_string(i.public_key),
        view_opt_string(i.secret_key),
        i.params_text@,
    )
}

/// What handling the configuration document comes to: a classified failure,
/// or the request to read the referenced initial-data file, carrying the
/// parameters field along.
pub open spec fn config_post(
    result: Result<serde_json::Value, String>,
    r: (FlowState, FlowAction),
) -> bool {
    &&& result matches Err(e) ==> (run_failed(r, e@, "Cannot load config: "@ + e@)
        && failure_of(r.0) is ConfigError)
    &&& result matches Ok(doc) ==> {
        &&& str_field(doc, "initial_data"@) is None ==> (run_failed(
            r,
            "initial data file is not defined. Supply path in the `config.json`."@,
            "Cannot load initial data: "@
                + "initial data file is not defined. Supply path in the `config.json`."@,
        ) && failure_of(r.0) is ConfigError)
        &&& str_field(doc, "initial_data"@) matches Some(p) ==> {
            &&& r.0 matches FlowState::AwaitInitial { parameters }
            &&& view_opt_string(parameters) == str_field(doc, "parameters"@)
            &&& r.1 matches FlowAction::ReadInitial { path }
            &&& path@ == p
        }
    }
}

/// What checking the contract image and assembling the resolved inputs comes
/// to: a configuration failure when the image field is absent, and otherwise
/// the request to create the network-configured client.
pub open spec fn with_params_post(
    abi_path: Seq<char>,
    code: Option<Seq<char>>,
    public_key: Option<Seq<char>>,
    secret_key: Option<Seq<char>>,
    params_text: Seq<char>,
    r: (FlowState, FlowAction),
) -> bool {
    &&& code is None ==> (run_failed(
        r,
        "contract image is not defined. Supply it in the config.json."@,
        fail_line("contract image is not defined. Supply it in the config.json."@),
    ) && failure_of(r.0) is ConfigError)
    &&& code matches Some(c) ==> {
        &&& r.0 matches FlowState::AwaitClient { inputs }
        &&& inputs_view(inputs) == (abi_path, c, public_key, secret_key, params_text)
        &&& r.1 matches FlowAction::CreateClient { settings }
        &&& settings.server_address@ == "net.ton.dev"@
        &&& settings.message_processing_timeout == PROCESSING_TIMEOUT_MS
    }
}

/// What resolving the initial-data document comes to. The ABI field is
/// checked first: a document without it fails as a configuration error before
/// anything else is considered. Then the parameters field must be present; one
/// holding a `{` is inline JSON, any other names a file to read.
pub open spec fn resolution_post(
    doc: serde_json::Value,
    parameters: Option<Seq<char>>,
    r: (FlowState, FlowAction),
) -> bool {
    let abi = str_field(doc, "abi_path"@);
    let code = str_field(doc, "code_base64"@);
    let public_key = str_field(doc, "public_key"@);
    let secret_key = str_field(doc, "secret_key"@);
    &&& abi is None ==> (run_failed(
        r,
        "ABI file is not defined. Supply it in the config.json."@,
        fail_line("ABI file is not defined. Supply it in the config.json."@),
    ) && failure_of(r.0) is ConfigError)
    &&& abi matches Some(a) ==> {
        &&& parameters is None ==> (run_failed(
            r,
            "constructor parameters are not defined. Supply them in the config.json."@,
            fail_line("constructor parameters are not defined. Supply them in the config.json."@),
        ) && failure_of(r.0) is ConfigError)
        &&& parameters matches Some(ps) ==> {
            &&& ps.contains('{') ==> with_params_post(a, code, public_key, secret_key, ps, r)
            &&& !ps.contains('{') ==> {
                &&& r.0 matches FlowState::AwaitParams { pending }
                &&& pending.abi_path@ == a
                &&& view_opt_string(pending.code_base64) == code
                &&& view_opt_string(pending.public_key) == public_key
                &&& view_opt_string(pending.secret_key) == secret_key
                &&& r.1 matches FlowAction::ReadParams { path }
                &&& path@ == ps
            }
        }
    }
}

/// What handling the initial-data read comes to.
pub open spec fn initial_post(
    parameters: Option<String>,
    result: Result<serde_json::Value, String>,
    r: (FlowState, FlowAction),
) -> bool {
    &&& result matches Err(e) ==> (run_failed(r, e@, "Cannot load initial data: "@ + e@)
        && failure_of(r.0) is ConfigError)
    &&& result matches Ok(doc) ==> resolution_post(doc, view_opt_string(parameters), r)
}

/// What handling the parameters-file read comes to.
pub open spec fn params_post(
    pending: PendingInputs,
    result: Result<String, String>,
    r: (FlowState, FlowAction),
) -> bool {
    &&& result matches Err(e) ==> (run_failed(
        r,
        "failed to load params from file: "@ + e@,
        fail_line("failed to load params from file: "@ + e@),
    ) && failure_of(r.0) is FileError)
    &&& result matches Ok(text) ==> with_params_post(
        pending.abi_path@,
        view_opt_string(pending.code_base64),
        view_opt_string(pending.public_key),
        view_opt_string(pending.secret_key),
        text@,
        r,
    )
}

/// What handling the client creation comes to: on success, the request to
/// read the ABI file at the resolved path, the inputs carried unchanged.
pub open spec fn client_post(
    inputs: ResolvedInputs,
    result: Result<(), String>,
    r: (FlowState, FlowAction),
) -> bool {
    &&& result matches Err(e) ==> (run_failed(
        r,
        "failed to create tonclient: "@ + e@,
        fail_line("failed to create tonclient: "@ + e@),
    ) && failure_of(r.0) is ClientError)
    &&& result is Ok ==> {
        &&& r.0 matches FlowState::AwaitAbi { inputs: kept }
        &&& inputs_view(kept) == inputs_view(inputs)
        &&& r.1 matches FlowAction::ReadAbi { path }
        &&& path@ == inputs.abi_path@
    }
}

/// What handling the ABI read comes to: an unreadable file is a file error, a
/// file that is not well-formed JSON a parse error; otherwise the address
/// computation is requested, over the same image and ABI the message will
/// carry, signed externally by the public key exactly when a full key pair is
/// configured, and unsigned otherwise.
pub open spec fn abi_post(
    inputs: ResolvedInputs,
    result: Result<String, String>,
    r: (FlowState, FlowAction),
) -> bool {
    &&& result matches Err(e) ==> (run_failed(
        r,
        "failed to read ABI file: "@ + e@,
        fail_line("failed to read ABI file: "@ + e@),
    ) && failure_of(r.0) is FileError)
    &&& result matches Ok(text) ==> {
        &&& !json_valid(text@) ==> parse_failed(r, "ABI is not a valid json: "@)
        &&& json_valid(text@) ==> {
            &&& r.0 matches FlowState::AwaitAddress { inputs: kept, abi_json }
            &&& inputs_view(kept) == inputs_view(inputs)
            &&& abi_json@ == text@
            &&& r.1 matches FlowAction::ComputeAddress { request }
            &&& request.tvc_base64@ == inputs.code_base64@
            &&& request.abi_json@ == text@
            &&& request.workchain_id == crate::WORKCHAIN
            &&& address_signer_ok(
                view_opt_string(inputs.public_key),
                view_opt_string(inputs.secret_key),
                request.signer,
            )
        }
    }
}

/// What handling the address computation comes to: once the address is known,
/// the constructor parameters must parse as JSON, and the deployment message
/// is assembled from the very inputs the address was computed from, targeted
/// at that address, calling the constructor, signed with the configured key
/// pair or left unsigned.
pub open spec fn address_post(
    inputs: ResolvedInputs,
    abi_json: String,
    outcome: AddressOutcome,
    r: (FlowState, FlowAction),
) -> bool {
    &&& outcome matches AddressOutcome::ContextFailure { message } ==> (run_failed(
        r,
        "failed to create client context: "@ + message@,
        fail_line("failed to create client context: "@ + message@),
    ) && failure_of(r.0) is ClientError)
    &&& outcome matches AddressOutcome::EncodeFailure { message } ==> (run_failed(
        r,
        "cannot generate address: "@ + message@,
        fail_line("cannot generate address: "@ + message@),
    ) && failure_of(r.0) is ClientError)
    &&& outcome matches AddressOutcome::Address { address } ==> {
        &&& !json_valid(inputs.params_text@) ==> parse_failed(
            r,
            "function arguments is not a json: "@,
        )
        &&& json_valid(inputs.params_text@) ==> {
            &&& r.0 matches FlowState::AwaitSubmit { address: kept }
            &&& kept@ == address@
            &&& r.1 matches FlowAction::Submit { message }
            &&& message.abi_json@ == abi_json@
            &&& message.address@ == address@
            &&& message.tvc_base64@ == inputs.code_base64@
            &&& message.workchain_id == crate::WORKCHAIN
            &&& message.call_function@ == "constructor"@
            &&& message.call_input@ == inputs.params_text@
            &&& message_signer_ok(
                view_opt_string(inputs.public_key),
                view_opt_string(inputs.secret_key),
                message.signer,
            )
        }
    }
}

/// What a sent-notification comes to: the one notice line, the run going on.
pub open spec fn sent_post(address: String, message_id: String, r: (FlowState, FlowAction)) -> bool {
    &&& r.0 matches FlowState::AwaitSubmit { address: kept }
    &&& kept@ == address@
    &&& r.1 matches FlowAction::Print { line }
    &&& line@ == "MessageId: "@ + message_id@
}

/// What the submission's resolution comes to: the success report with the
/// deployed address, or the client's error.
pub open spec fn submitted_post(
    address: String,
    result: Result<(), String>,
    r: (FlowState, FlowAction),
) -> bool {
    &&& result matches Err(e) ==> (run_failed(r, e@, fail_line(e@))
        && failure_of(r.0) is ClientError)
    &&& result is Ok ==> {
        &&& r.0 matches FlowState::Finished { outcome }
        &&& outcome matches Outcome::Success { address: kept }
        &&& kept@ == address@
        &&& r.1 matches FlowAction::Report { lines }
        &&& lines@.len() == 3
        &&& lines@[0]@ == "Transaction succeeded."@
        &&& lines@[1]@ == "Contract deployed at address: "@ + address@
        &&& lines@[2]@ == "Ok"@
    }
}

/// One string after another.
fn prefixed(prefix: &str, rest: &str) -> (r: String)
    ensures
        r@ == prefix@ + rest@,
{
    let mut s: String = prefix.to_owned();
    s.append(rest);
    s
}

/// A finished, failed run: the error recorded, the one line reported.
fn fail_run(error: DeployError, line: String) -> (r: (FlowState, FlowAction))
    ensures
        r.0 == (FlowState::Finished { outcome: Outcome::Failure { error } }),
        r.1 matches FlowAction::Report { lines } && lines@.len() == 1 && lines@[0]@ == line@,
{
    let mut lines: Vec<String> = Vec::new();
    lines.push(line);
    (FlowState::Finished { outcome: Outcome::Failure { error } }, FlowAction::Report { lines })
}

/// Borrows an optional string.
fn opt_deref(o: &Option<String>) -> (r: Option<&str>)
    ensures
        view_opt_str(r) == view_opt_string(*o),
{
    match o {
        Some(s) => Some(s.as_str()),
        None => None,
    }
}

fn on_config(result: Result<serde_json::Value, String>) -> (r: (FlowState, FlowAction))
    ensures
        config_post(result, r),
{
    match result {
        Err(e) => {
            let line = prefixed("Cannot load config: ", e.as_str());
            fail_run(DeployError::ConfigError { message: e }, line)
        },
        Ok(doc) => {
            match crate::json::get_str(&doc, "initial_data") {
                None => {
                    let message =
                        "initial data file is not defined. Supply path in the `config.json`.".to_owned();
                    let line = prefixed("Cannot load initial data: ", message.as_str());
                    fail_run(DeployError::ConfigError { message }, line)
                },
                Some(path) => {
                    let parameters = crate::json::get_str(&doc, "parameters");
                    (FlowState::AwaitInitial { parameters }, FlowAction::ReadInitial { path })
                },
            }
        },
    }
}

/// Checks the contract image field and assembles the resolved inputs.
fn finish_inputs(
    abi_path: String,
    code: Option<String>,
    public_key: Option<String>,
    secret_key: Option<String>,
    params_text: String,
) -> (r: (FlowState, FlowAction))
    ensures
        with_params_post(
            abi_path@,
            view_opt_string(code),
            view_opt_string(public_key),
            view_opt_string(secret_key),
            params_text@,
            r,
        ),
{
    match code {
        None => {
            let message = "contract image is not defined. Supply it in the config.json.".to_owned();
            let line = prefixed("Fail: ", message.as_str());
            fail_run(DeployError::ConfigError { message }, line)
        },
        Some(code_base64) => {
            let inputs = ResolvedInputs {
                abi_path,
                code_base64,
                public_key,
                secret_key,
                params_text,
            };
            let settings = ClientSettings {
                server_address: network_url(),
                message_processing_timeout: PROCESSING_TIMEOUT_MS,
            };
            (FlowState::AwaitClient { inputs }, FlowAction::CreateClient { settings })
        },
    }
}

/// Resolves the initial-data document into the deployment's inputs.
fn resolve_inputs(doc: serde_json::Value, parameters: Option<String>) -> (r: (FlowState, FlowAction))
    ensures
        resolution_post(doc, view_opt_string(parameters), r),
{
    let abi_field = crate::json::get_str(&doc, "abi_path");
    match load_abi(opt_deref(&abi_field)) {
        Err(message) => {
            let line = prefixed("Fail: ", message.as_str());
            fail_run(DeployError::ConfigError { message }, line)
        },
        Ok(abi_path) => {
            match parameters {
                None => {
                    let message =
                        "constructor parameters are not defined. Supply them in the config.json.".to_owned();
                    let line = prefixed("Fail: ", message.as_str());
                    fail_run(DeployError::ConfigError { message }, line)
                },
                Some(ps) => {
                    let code = crate::json::get_str(&doc, "code_base64");
                    let public_key = crate::json::get_str(&doc, "public_key");
                    let secret_key = crate::json::get_str(&doc, "secret_key");
                    match params_source(ps.as_str()) {
                        ParamsSource::Inline { text } => {
                            finish_inputs(abi_path, code, public_key, secret_key, text)
                        },
                        ParamsSource::FromFile { path } => {
                            (
                                FlowState::AwaitParams {
                                    pending: PendingInputs {
                                        abi_path,
                                        code_base64: code,
                                        public_key,
                                        secret_key,
                                    },
                                },
                                FlowAction::ReadParams { path },
                            )
                        },
                    }
                },
            }
        },
    }
}

fn on_initial(
    parameters: Option<String>,
    result: Result<serde_json::Value, String>,
) -> (r: (FlowState, FlowAction))
    ensures
        initial_post(parameters, result, r),
{
    match result {
        Err(e) => {
            let line = prefixed("Cannot load initial data: ", e.as_str());
            fail_run(DeployError::ConfigError { message: e }, line)
        },
        Ok(doc) => resolve_inputs(doc, parameters),
    }
}

fn on_params(pending: PendingInputs, result: Result<String, String>) -> (r: (FlowState, FlowAction))
    ensures
        params_post(pending, result, r),
{
    match result {
        Err(e) => {
            let message = prefixed("failed to load params from file: ", e.as_str());
            let line = prefixed("Fail: ", message.as_str());
            fail_run(DeployError::FileError { message }, line)
        },
        Ok(text) => {
            let PendingInputs { abi_path, code_base64, public_key, secret_key } = pending;
            finish_inputs(abi_path, code_base64, public_key, secret_key, text)
        },
    }
}

fn on_client(inputs: ResolvedInputs, result: Result<(), String>) -> (r: (FlowState, FlowAction))
    ensures
        client_post(inputs, result, r),
{
    match result {
        Err(e) => {
            let message = prefixed("failed to create tonclient: ", e.as_str());
            let line = prefixed("Fail: ", message.as_str());
            fail_run(DeployError::ClientError { message }, line)
        },
        Ok(_) => {
            let path = inputs.abi_path.clone();
            (FlowState::AwaitAbi { inputs }, FlowAction::ReadAbi { path })
        },
    }
}

fn on_abi(inputs: ResolvedInputs, result: Result<String, String>) -> (r: (FlowState, FlowAction))
    ensures
        abi_post(inputs, result, r),
{
    match result {
        Err(e) => {
            let message = prefixed("failed to read ABI file: ", e.as_str());
            let line = prefixed("Fail: ", message.as_str());
            fail_run(DeployError::FileError { message }, line)
        },
        Ok(text) => {
            match parse_json(text.as_str()) {
                Err(parse_err) => {
                    let message = prefixed("ABI is not a valid json: ", parse_err.as_str());
                    proof {
                        assert(message@.subrange(0, "ABI is not a valid json: "@.len() as int)
                            =~= "ABI is not a valid json: "@);
                    }
                    let line = prefixed("Fail: ", message.as_str());
                    fail_run(DeployError::ParseError { message }, line)
                },
                Ok(_) => {
                    let signer = address_signer(
                        opt_deref(&inputs.public_key),
                        opt_deref(&inputs.secret_key),
                    );
                    let request = AddressRequest {
                        tvc_base64: inputs.code_base64.clone(),
                        abi_json: text.clone(),
                        workchain_id: crate::WORKCHAIN,
                        signer,
                    };
                    (
                        FlowState::AwaitAddress { inputs, abi_json: text },
                        FlowAction::ComputeAddress { request },
                    )
                },
            }
        },
    }
}

fn on_address(
    inputs: ResolvedInputs,
    abi_json: String,
    outcome: AddressOutcome,
) -> (r: (FlowState, FlowAction))
    ensures
        address_post(inputs, abi_json, outcome, r),
{
    match outcome {
        AddressOutcome::ContextFailure { message: raw } => {
            let message = prefixed("failed to create client context: ", raw.as_str());
            let line = prefixed("Fail: ", message.as_str());
            fail_run(DeployError::ClientError { message }, line)
        },
        AddressOutcome::EncodeFailure { message: raw } => {
            let message = prefixed("cannot generate address: ", raw.as_str());
            let line = prefixed("Fail: ", message.as_str());
            fail_run(DeployError::ClientError { message }, line)
        },
        AddressOutcome::Address { address } => {
            match parse_json(inputs.params_text.as_str()) {
                Err(parse_err) => {
                    let message = prefixed("function arguments is not a json: ", parse_err.as_str());
                    proof {
                        assert(message@.subrange(
                            0,
                            "function arguments is not a json: "@.len() as int,
                        ) =~= "function arguments is not a json: "@);
                    }
                    let line = prefixed("Fail: ", message.as_str());
                    fail_run(DeployError::ParseError { message }, line)
                },
                Ok(_) => {
                    let signer = message_signer(
                        opt_deref(&inputs.public_key),
                        opt_deref(&inputs.secret_key),
                    );
                    let ResolvedInputs { abi_path: _, code_base64, public_key: _, secret_key: _, params_text } =
                        inputs;
                    let message = DeployMessage {
                        abi_json,
                        address: address.clone(),
                        tvc_base64: code_base64,
                        workchain_id: crate::WORKCHAIN,
                        call_function: "constructor".to_owned(),
                        call_input: params_text,
                        signer,
                    };
                    (FlowState::AwaitSubmit { address }, FlowAction::Submit { message })
                },
            }
        },
    }
}

fn on_sent(address: String, message_id: String) -> (r: (FlowState, FlowAction))
    ensures
        sent_post(address, message_id, r),
{
    let line = prefixed("MessageId: ", message_id.as_str());
    (FlowState::AwaitSubmit { address }, FlowAction::Print { line })
}

fn on_submitted(address: String, result: Result<(), String>) -> (r: (FlowState, FlowAction))
    ensures
        submitted_post(address, result, r),
{
    match result {
        Err(e) => {
            let line = prefixed("Fail: ", e.as_str());
            fail_run(DeployError::ClientError { message: e }, line)
        },
        Ok(_) => {
            let mut lines: Vec<String> = Vec::new();
            lines.push("Transaction succeeded.".to_owned());
            lines.push(prefixed("Contract deployed at address: ", address.as_str()));
            lines.push("Ok".to_owned());
            (FlowState::Finished { outcome: Outcome::Success { address } }, FlowAction::Report { lines })
        },
    }
}

/// Begins a run: the first action reads the configuration at its fixed path.
pub fn start() -> (r: (FlowState, FlowAction))
    ensures
        r.0 is AwaitConfig,
        r.1 matches FlowAction::ReadConfig { path } && path@ == "config.json"@,
{
    (FlowState::AwaitConfig, FlowAction::ReadConfig { path: config_path() })
}

/// What one step must come to, case by case over the state and the event it
/// accepts.
pub open spec fn step_post(state: FlowState, event: FlowEvent, r: (FlowState, FlowAction)) -> bool {
    match (state, event) {
        (FlowState::AwaitConfig, FlowEvent::ConfigRead { result }) => config_post(result, r),
        (FlowState::AwaitInitial { parameters }, FlowEvent::InitialRead { result }) => initial_post(
            parameters,
            result,
            r,
        ),
        (FlowState::AwaitParams { pending }, FlowEvent::ParamsRead { result }) => params_post(
            pending,
            result,
            r,
        ),
        (FlowState::AwaitClient { inputs }, FlowEvent::ClientCreated { result }) => client_post(
            inputs,
            result,
            r,
        ),
        (FlowState::AwaitAbi { inputs }, FlowEvent::AbiRead { result }) => abi_post(
            inputs,
            result,
            r,
        ),
        (FlowState::AwaitAddress { inputs, abi_json }, FlowEvent::AddressComputed { outcome }) => address_post(
            inputs,
            abi_json,
            outcome,
            r,
        ),
        (FlowState::AwaitSubmit { address }, FlowEvent::MessageSent { message_id }) => sent_post(
            address,
            message_id,
            r,
        ),
        (FlowState::AwaitSubmit { address }, FlowEvent::Submitted { result }) => submitted_post(
            address,
            result,
            r,
        ),
        _ => true,
    }
}

/// One step of the flow: from the state and the outcome of the last action to
/// the next state and the next action. Network work — computing the address,
/// submitting the message — is requested only from the two states late in the
/// walk that only a fully resolved, well-formed configuration reaches; every
/// earlier failure finishes the run with a report instead.
pub fn step(state: FlowState, event: FlowEvent) -> (r: (FlowState, FlowAction))
    requires
        accepts(state, event),
    ensures
        step_post(state, event, r),
        r.1 is ComputeAddress ==> state is AwaitAbi,
        r.1 is Submit ==> state is AwaitAddress,
{
    match (state, event) {
        (FlowState::AwaitConfig, FlowEvent::ConfigRead { result }) => on_config(result),
        (FlowState::AwaitInitial { parameters }, FlowEvent::InitialRead { result }) => on_initial(
            parameters,
            result,
        ),
        (FlowState::AwaitParams { pending }, FlowEvent::ParamsRead { result }) => on_params(
            pending,
            result,
        ),
        (FlowState::AwaitClient { inputs }, FlowEvent::ClientCreated { result }) => on_client(
            inputs,
            result,
        ),
        (FlowState::AwaitAbi { inputs }, FlowEvent::AbiRead { result }) => on_abi(inputs, result),
        (FlowState::AwaitAddress { inputs, abi_json }, FlowEvent::AddressComputed { outcome }) => on_address(
            inputs,
            abi_json,
            outcome,
        ),
        (FlowState::AwaitSubmit { address }, FlowEvent::MessageSent { message_id }) => on_sent(
            address,
            message_id,
        ),
        (FlowState::AwaitSubmit { address }, FlowEvent::Submitted { result }) => on_submitted(
            address,
            result,
        ),
        _ => vstd::pervasive::unreached(),
    }
}

/// Once a run is finished — in success or in failure — no further event is
/// accepted: a finished flow issues no action at all, so in particular no
/// network interaction follows a failed run.
pub proof fn lemma_finished_is_terminal(state: FlowState, event: FlowEvent)
    requires
        state is Finished,
    ensures
        !accepts(state, event),
{
}

/// An initial-data document without the ABI field stops the run at the very
/// step that resolves it: the run finishes with a configuration error, the
/// step's action is the report, and the finished state accepts no further
/// event — so no network interaction can ever follow.
pub proof fn lemma_missing_abi_field_stops_the_run(
    doc: serde_json::Value,
    parameters: Option<Seq<char>>,
    r: (FlowState, FlowAction),
    event: FlowEvent,
)
    requires
        resolution_post(doc, parameters, r),
        str_field(doc, "abi_path"@) is None,
    ensures
        r.0 is Finished,
        failure_of(r.0) is ConfigError,
        !accepts(r.0, event),
        !(r.1 is ComputeAddress),
        !(r.1 is Submit),
{
}

/// An ABI file that cannot be read stops the run at the very step that
/// learns it: the run finishes with a file error, the step's action is the
/// report, and the finished state accepts no further event — so the address
/// is never computed and nothing is submitted.
pub proof fn lemma_unreadable_abi_stops_the_run(
    inputs: ResolvedInputs,
    result: Result<String, String>,
    r: (FlowState, FlowAction),
    event: FlowEvent,
)
    requires
        abi_post(inputs, result, r),
        result is Err,
    ensures
        r.0 is Finished,
        failure_of(r.0) is FileError,
        !accepts(r.0, event),
        !(r.1 is ComputeAddress),
        !(r.1 is Submit),
{
}

} // verus!
