//! EVM-compatible chains (Ethereum, BSC, Polygon, Avalanche, and the
//! like): the computable halves of a contract read. The request body is
//! built and the response body decoded here; issuing the HTTP call itself
//! is the host's work.
use crate::envelope::extract_result_data;
use crate::envelope::spec_extract_result;
use crate::hexcode::bytes_to_hex;
use crate::hexcode::hex_to_bytes;
use crate::hexcode::spec_hex_decode;
use crate::hexcode::spec_hex_encode;
use crate::types::PriceError;
use vstd::prelude::*;

verus! {

/// The JSON-RPC 2.0 body of an `eth_call` read: the pool address and the
/// hex-rendered call data spliced into the fixed envelope.
pub open spec fn spec_rpc_body(address: Seq<char>, data: Seq<u8>) -> Seq<char> {
    "{\"jsonrpc\":\"2.0\",\"method\":\"eth_call\",\"params\":[{\"to\":\""@ + address
        + "\",\"data\":\"0x"@ + spec_hex_encode(data) + "\"},\"latest\"],\"id\":1}"@
}

/// What decoding a response body yields: the envelope's hex payload as
/// bytes, or `MalformedEnvelope` when the envelope or its hex is bad.
pub open spec fn spec_decode_response(body: Seq<char>) -> Result<Seq<u8>, PriceError> {
    match spec_extract_result(body) {
        None => Err(PriceError::MalformedEnvelope),
        Some(h) => match spec_hex_decode(h) {
            None => Err(PriceError::MalformedEnvelope),
            Some(b) => Ok(b),
        },
    }
}

/// EVM-compatible chains, addressed over JSON-RPC.
pub struct EvmChain;

impl EvmChain {
    /// Builds the JSON-RPC request body for one contract read against
    /// `address` with the given call data.
    pub fn build_request_body(address: &str, data: &[u8]) -> (r: String)
        ensures
            r@ == spec_rpc_body(address@, data@),
    {
        let mut body = String::from_str("{\"jsonrpc\":\"2.0\",\"method\":\"eth_call\",\"params\":[{\"to\":\"");
        body.append(address);
        body.append("\",\"data\":\"0x");
        let hex = bytes_to_hex(data);
        body.append(hex.as_str());
        body.append("\"},\"latest\"],\"id\":1}");
        body
    }

    /// Decodes a response body: extracts the `result` payload and turns
    /// its hex into bytes. Fails with `MalformedEnvelope` exactly when
    /// the envelope is unusable or the payload is not valid hex.
    pub fn decode_response_body(body: &str) -> (r: Result<Vec<u8>, PriceError>)
        ensures
            match r {
                Ok(bytes) => spec_decode_response(body@) == Ok::<Seq<u8>, PriceError>(bytes@),
                Err(e) => spec_decode_response(body@) == Err::<Seq<u8>, PriceError>(e),
            },
    {
        let payload = match extract_result_data(body) {
            Ok(p) => p,
            Err(e) => {
                return Err(e);
            },
        };
        match hex_to_bytes(payload.as_str()) {
            Some(bytes) => Ok(bytes),
            None => Err(PriceError::MalformedEnvelope),
        }
    }
}

} // verus!
