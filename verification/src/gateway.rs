//! The completion gateway contract: what a submission yields, and the
//! defaults resolved before a call is made.

use vstd::prelude::*;
use vstd::string::StringExecFns;

verus! {

/// Token usage counters reported alongside a completion.
#[derive(Clone, Copy, Debug, PartialEq, Eq, Structural)]
pub struct Usage {
    pub prompt_tokens: u32,
    pub completion_tokens: u32,
    pub total_tokens: u32,
}

/// A successful gateway response: completion texts in provider order, and
/// usage counters when the provider reports them.
#[derive(Debug)]
pub struct CompletionResult {
    pub texts: Vec<String>,
    pub usage: Option<Usage>,
}

/// The mathematical model of a gateway response.
pub struct CompletionModel {
    pub texts: Seq<Seq<char>>,
    pub usage: Option<Usage>,
}

impl View for CompletionResult {
    type V = CompletionModel;

    open spec fn view(&self) -> CompletionModel {
        CompletionModel { texts: self.texts.deep_view(), usage: self.usage }
    }
}

/// Why a gateway call failed. The controller treats every variant alike;
/// only the log carries the distinction.
#[derive(Clone, Copy, Debug, PartialEq, Eq, Structural)]
pub enum GatewayFailure {
    Network,
    MalformedRequest,
    ProviderRejection,
    ParseFailure,
    LocalIo,
}

/// The persona submitted when no override is configured.
pub fn default_persona() -> (r: &'static str)
    ensures
        r@ == "You are GTP-4 a Telegram chat bot"@,
{
    "You are GTP-4 a Telegram chat bot"
}

/// The model requested when no override is configured.
pub fn default_model() -> (r: &'static str)
    ensures
        r@ == "gpt-4"@,
{
    "gpt-4"
}

/// The persona a call submits: the override when one is given, the default
/// otherwise.
pub fn resolve_persona(o: &Option<String>) -> (r: String)
    ensures
        match o {
            Some(p) => r@ == p@,
            None => r@ == "You are GTP-4 a Telegram chat bot"@,
        },
{
    match o {
        Some(p) => p.clone(),
        None => String::from_str(default_persona()),
    }
}

/// The model a call requests: the override when one is given, the default
/// otherwise.
pub fn resolve_model(o: &Option<String>) -> (r: String)
    ensures
        match o {
            Some(m) => r@ == m@,
            None => r@ == "gpt-4"@,
        },
{
    match o {
        Some(m) => m.clone(),
        None => String::from_str(default_model()),
    }
}

} // verus!
