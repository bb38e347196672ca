//! Building what is sent upstream.
use vstd::prelude::*;
use crate::credential::{check_credential, credential_verdict, opt_view, MIN_CREDENTIAL_LEN};
use crate::error::{ErrorKind, RewriteError};
use crate::text::trimmed;

verus! {

/// Sampling temperature, in tenths.
pub const TEMPERATURE_TENTHS: u32 = 7;

/// Most tokens the upstream may generate.
pub const MAX_OUTPUT_TOKENS: u32 = 500;

/// Nucleus-sampling probability mass, in tenths.
pub const TOP_P_TENTHS: u32 = 9;

/// How many of the likeliest tokens sampling considers.
pub const TOP_K: u32 = 40;

/// The instruction placed before the caller's text.
pub open spec fn instruction() -> Seq<char> {
    "Rewrite the following text in a more polished and professional way. Provide only ONE improved version, not multiple options. Return only the rewritten text without any explanations or alternatives: "@
}

/// The body of the upstream request: one prompt part and fixed generation settings.
#[derive(Debug)]
pub struct UpstreamPayload {
    pub prompt: String,
    pub temperature_tenths: u32,
    pub max_output_tokens: u32,
    pub top_p_tenths: u32,
    pub top_k: u32,
}

/// A request ready to go out: the credential to send and the payload.
#[derive(Debug)]
pub struct UpstreamRequest {
    pub api_key: String,
    pub payload: UpstreamPayload,
}

/// Whether `part` occurs in `whole` as a contiguous run.
pub open spec fn contains(whole: Seq<char>, part: Seq<char>) -> bool {
    exists|i: int| 0 <= i && i + part.len() <= whole.len() && #[trigger] whole.subrange(i, i + part.len()) == part
}

/// The payload that asks for one polished rewrite of `text`.
pub fn build_payload(text: &str) -> (r: UpstreamPayload)
    ensures
        r.prompt@ == instruction() + text@,
        contains(r.prompt@, text@),
        r.temperature_tenths == TEMPERATURE_TENTHS,
        r.max_output_tokens == MAX_OUTPUT_TOKENS,
        r.top_p_tenths == TOP_P_TENTHS,
        r.top_k == TOP_K,
{
    let mut prompt = String::from_str(
        "Rewrite the following text in a more polished and professional way. Provide only ONE improved version, not multiple options. Return only the rewritten text without any explanations or alternatives: ",
    );
    prompt.append(text);
    proof {
        let n = instruction().len() as int;
        assert(prompt@.subrange(n, n + text@.len() as int) =~= text@);
    }
    UpstreamPayload {
        prompt,
        temperature_tenths: TEMPERATURE_TENTHS,
        max_output_tokens: MAX_OUTPUT_TOKENS,
        top_p_tenths: TOP_P_TENTHS,
        top_k: TOP_K,
    }
}

/// Checks the credential and, if it passes, builds the request for `text`.
/// An error here means that no call goes out.
pub fn prepare_request(credential: Option<&str>, text: &str) -> (r: Result<UpstreamRequest, RewriteError>)
    ensures
        r is Ok <==> (credential is Some && trimmed(credential->0@).len() >= MIN_CREDENTIAL_LEN),
        match r {
            Ok(req) => {
                &&& credential_verdict(opt_view(credential)) == Ok::<Seq<char>, Seq<char>>(req.api_key@)
                &&& req.payload.prompt@ == instruction() + text@
                &&& contains(req.payload.prompt@, text@)
                &&& req.payload.temperature_tenths == TEMPERATURE_TENTHS
                &&& req.payload.max_output_tokens == MAX_OUTPUT_TOKENS
                &&& req.payload.top_p_tenths == TOP_P_TENTHS
                &&& req.payload.top_k == TOP_K
            },
            Err(e) => e.kind == ErrorKind::ConfigError && credential_verdict(opt_view(credential))
                == Err::<Seq<char>, Seq<char>>(e.message@),
        },
{
    match check_credential(credential) {
        Ok(api_key) => Ok(UpstreamRequest { api_key, payload: build_payload(text) }),
        Err(e) => Err(e),
    }
}

} // verus!
