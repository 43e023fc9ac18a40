//! Verified core of a client for Jito's block-engine JSON-RPC interface:
//! request construction, response checking and result extraction.
pub mod error;
pub mod json;
pub mod laws;
pub mod request;
pub mod sdk;
pub mod solana_types;
pub mod text;

pub use error::{JitoRpcErrorObject, SdkError};
pub use json::{JsonNumber, JsonValue};
pub use request::RpcRequest;
pub use sdk::{check_response_and_return, JitoJsonRpcSDK, PrettyJsonValue};
