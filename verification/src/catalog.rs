//! The static catalog of sub-command names the surrounding application
//! exposes for discovery. Neither the resolver nor the invoker validates a
//! sub-command name against it; validation is left to the tool itself.

use vstd::prelude::*;
use vstd::string::StringExecFns;

verus! {

/// The catalog as a sequence of names, in its fixed order.
pub open spec fn spec_available_commands() -> Seq<Seq<char>> {
    seq![
        "generate-wallet"@,
        "check-balance"@,
        "send"@,
        "sign"@,
        "verify"@,
        "encrypt"@,
        "hash"@,
        "multichain"@,
        "web2-identity"@,
        "web2-proxy"@,
        "network-info"@,
        "get-block"@,
        "get-mempool"@,
        "get-transaction"@,
        "get-nonce"@,
        "batch-sign"@,
        "config"@,
        "bridge"@,
    ]
}

/// The recognized sub-command names, in their fixed order.
pub fn get_available_commands() -> (r: Vec<String>)
    ensures
        r@.len() == spec_available_commands().len(),
        forall|i: int| 0 <= i < r@.len() ==> r@[i]@ == #[trigger] spec_available_commands()[i],
{
    let mut out: Vec<String> = Vec::new();
    out.push(String::from_str("generate-wallet"));
    out.push(String::from_str("check-balance"));
    out.push(String::from_str("send"));
    out.push(String::from_str("sign"));
    out.push(String::from_str("verify"));
    out.push(String::from_str("encrypt"));
    out.push(String::from_str("hash"));
    out.push(String::from_str("multichain"));
    out.push(String::from_str("web2-identity"));
    out.push(String::from_str("web2-proxy"));
    out.push(String::from_str("network-info"));
    out.push(String::from_str("get-block"));
    out.push(String::from_str("get-mempool"));
    out.push(String::from_str("get-transaction"));
    out.push(String::from_str("get-nonce"));
    out.push(String::from_str("batch-sign"));
    out.push(String::from_str("config"));
    out.push(String::from_str("bridge"));
    out
}

} // verus!
