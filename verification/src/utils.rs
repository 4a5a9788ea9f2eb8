//! Validation of what a request names (address, network, function, amount,
//! block), and raw failure text put into categorized prose.

use vstd::prelude::*;
use crate::address::{address_digits, is_address_text, Address};
use crate::error::{EngineError, ErrorKind, ErrorView};
use crate::hexadecimal::hex_bytes;
use crate::text::{
    chars_contain_str, contains, decimal, decimal_string, is_alnum, is_alnum_char,
    is_alpha, is_alpha_char, is_hex_digit, is_hex_digit_char, join, joined, occurs_at, to_chars,
    trim,
    trimmed, utf8_len, views,
};
use crate::word::{has_hex_prefix, number_of_text, parse_number, U256};

verus! {

/// Why `s` is no address, or `None` if it is one: after trimming, it must be
/// `0x` or `0X`, then hexadecimal digits, 42 bytes in all.
pub open spec fn address_failure(s: Seq<char>) -> Option<ErrorView> {
    let t = trimmed(s);
    if t.len() == 0 {
        Some(ErrorView { kind: ErrorKind::AddressFormat, message: "Address cannot be empty"@ })
    } else if !has_hex_prefix(t) {
        Some(
            ErrorView {
                kind: ErrorKind::AddressFormat,
                message: "Invalid address format: '"@ + t
                    + "'. Ethereum addresses must start with '0x'"@,
            },
        )
    } else if utf8_len(t) != 42 {
        Some(
            ErrorView {
                kind: ErrorKind::AddressFormat,
                message: "Invalid address length: '"@ + t
                    + "'. Ethereum addresses must be exactly 42 characters (0x + 40 hex characters)"@,
            },
        )
    } else if !(forall|i: int| 2 <= i < t.len() ==> is_hex_digit(#[trigger] t[i])) {
        Some(
            ErrorView {
                kind: ErrorKind::AddressFormat,
                message: "Invalid address format: '"@ + t
                    + "'. Contains non-hexadecimal characters"@,
            },
        )
    } else {
        None
    }
}

/// A text passes [`address_failure`] exactly if, once trimmed, it is `0x` or
/// `0X` followed by forty hexadecimal digits.
pub proof fn address_accepted_iff_forty_digits(s: Seq<char>)
    ensures
        address_failure(s) is None <==> {
            let t = trimmed(s);
            &&& t.len() == 42
            &&& t[0] == '0'
            &&& (t[1] == 'x' || t[1] == 'X')
            &&& forall|i: int| 2 <= i < 42 ==> is_hex_digit(#[trigger] t[i])
        },
{
    let t = trimmed(s);
    if has_hex_prefix(t) && (forall|i: int| 2 <= i < t.len() ==> is_hex_digit(#[trigger] t[i])) {
        assert(vstd::utf8::is_ascii_chars(t)) by {
            assert forall|i: int| 0 <= i < t.len() implies '\0' <= #[trigger] t[i]
                <= '\u{7f}' by {
                if i >= 2 {
                    assert(is_hex_digit(t[i]));
                }
            }
        }
        vstd::utf8::is_ascii_chars_encode_utf8(t);
    }
}

/// Validates an address and gives its twenty bytes.
///
/// White space around the text is ignored. What is left must be `0x` or `0X`
/// followed by forty hexadecimal digits; the error says which of these fails
/// first.
#[verifier::loop_isolation(false)]
pub fn validate_address(address: &str) -> (r: Result<Address, EngineError>)
    ensures
        r is Ok <==> address_failure(address@) is None,
        r is Err ==> Some(r->Err_0@) == address_failure(address@),
        r is Ok ==> r->Ok_0.bytes@ == hex_bytes(trimmed(address@).skip(2)),
{
    let t = trim(address);
    let chars = to_chars(t.as_str());
    if chars.len() == 0 {
        return Err(
            EngineError::new(ErrorKind::AddressFormat, String::from_str("Address cannot be empty")),
        );
    }
    if !(chars.len() >= 2 && chars[0] == '0' && (chars[1] == 'x' || chars[1] == 'X')) {
        let mut m = String::from_str("Invalid address format: '");
        m.append(t.as_str());
        m.append("'. Ethereum addresses must start with '0x'");
        return Err(EngineError::new(ErrorKind::AddressFormat, m));
    }
    if t.as_str().as_bytes().len() != 42 {
        let mut m = String::from_str("Invalid address length: '");
        m.append(t.as_str());
        m.append(
            "'. Ethereum addresses must be exactly 42 characters (0x + 40 hex characters)",
        );
        return Err(EngineError::new(ErrorKind::AddressFormat, m));
    }
    let mut i: usize = 2;
    while i < chars.len()
        invariant
            2 <= i <= chars.len(),
            forall|k: int| 2 <= k < i ==> is_hex_digit(#[trigger] chars@[k]),
        decreases chars.len() - i,
    {
        if !is_hex_digit_char(chars[i]) {
            proof {
                assert(!is_hex_digit(t@[i as int]));
            }
            let mut m = String::from_str("Invalid address format: '");
            m.append(t.as_str());
            m.append("'. Contains non-hexadecimal characters");
            return Err(EngineError::new(ErrorKind::AddressFormat, m));
        }
        i += 1;
    }
    proof {
        address_accepted_iff_forty_digits(address@);
        assert(address_failure(address@) is None);
        assert(address_digits(t@) == t@.skip(2));
        assert(is_address_text(t@));
    }
    match Address::parse(t.as_str()) {
        Ok(a) => Ok(a),
        Err(e) => {
            let mut m = String::from_str("Invalid Ethereum address: '");
            m.append(t.as_str());
            m.append("'. Error: ");
            m.append(e.as_str());
            Err(EngineError::new(ErrorKind::AddressFormat, m))
        },
    }
}

/// Why `network` cannot be used, or `None` if it is one of `available`.
pub open spec fn network_failure(network: Seq<char>, available: Seq<Seq<char>>) -> Option<ErrorView> {
    if network.len() == 0 {
        Some(
            ErrorView { kind: ErrorKind::UnknownNetwork, message: "Network name cannot be empty"@ },
        )
    } else if !available.contains(network) {
        Some(
            ErrorView {
                kind: ErrorKind::UnknownNetwork,
                message: "Unknown network: '"@ + network + "'. Available networks: "@ + joined(
                    available,
                    ", "@,
                ),
            },
        )
    } else {
        None
    }
}

/// Whether `name` is one of `available`, by exact match.
pub fn is_available(name: &str, available: &[String]) -> (r: bool)
    ensures
        r == views(available@).contains(name@),
{
    let wanted = to_chars(name);
    let mut i: usize = 0;
    while i < available.len()
        invariant
            i <= available.len(),
            wanted@ == name@,
            forall|k: int| 0 <= k < i ==> (#[trigger] available@[k])@ != name@,
        decreases available.len() - i,
    {
        let have = to_chars(available[i].as_str());
        if crate::text::chars_eq(&have, &wanted) {
            proof {
                assert(views(available@)[i as int] == name@);
            }
            return true;
        }
        i += 1;
    }
    proof {
        assert forall|k: int| 0 <= k < views(available@).len() implies views(available@)[k]
            != name@ by {
            assert(available@[k]@ != name@);
        }
    }
    false
}

/// Validates a network name against the configured names: it must be one of
/// them, letter for letter.
pub fn validate_network(network: &str, available_networks: &[String]) -> (r: Result<
    (),
    EngineError,
>)
    ensures
        r is Ok <==> network_failure(network@, views(available_networks@)) is None,
        r is Err ==> Some(r->Err_0@) == network_failure(network@, views(available_networks@)),
{
    if network.unicode_len() == 0 {
        return Err(
            EngineError::new(
                ErrorKind::UnknownNetwork,
                String::from_str("Network name cannot be empty"),
            ),
        );
    }
    if !is_available(network, available_networks) {
        let names = slice_to_vec_of_strings(available_networks);
        let listed = join(&names, ", ");
        let mut m = String::from_str("Unknown network: '");
        m.append(network);
        m.append("'. Available networks: ");
        m.append(listed.as_str());
        return Err(EngineError::new(ErrorKind::UnknownNetwork, m));
    }
    Ok(())
}

/// A vector holding copies of the strings of `items`.
pub fn slice_to_vec_of_strings(items: &[String]) -> (v: Vec<String>)
    ensures
        views(v@) == views(items@),
{
    let mut out: Vec<String> = Vec::new();
    let mut i: usize = 0;
    while i < items.len()
        invariant
            i <= items.len(),
            out.len() == i,
            forall|k: int| 0 <= k < i ==> (#[trigger] out@[k])@ == items@[k]@,
        decreases items.len() - i,
    {
        out.push(items[i].clone());
        i += 1;
    }
    proof {
        assert(views(out@) =~= views(items@));
    }
    out
}

/// `c` may stand in a function name: a letter, a digit or an underscore.
pub open spec fn is_name_char(c: char) -> bool {
    is_alnum(c) || c == '_'
}

/// Why `name` is no function name, or `None` if it is one: a letter or an
/// underscore, then letters, digits and underscores.
pub open spec fn function_name_failure(name: Seq<char>) -> Option<ErrorView> {
    if name.len() == 0 {
        Some(
            ErrorView { kind: ErrorKind::FunctionName, message: "Function name cannot be empty"@ },
        )
    } else if !(is_alpha(name[0]) || name[0] == '_') {
        Some(
            ErrorView {
                kind: ErrorKind::FunctionName,
                message: "Invalid function name: '"@ + name
                    + "'. Function names must start with a letter or underscore"@,
            },
        )
    } else if !(forall|i: int| 0 <= i < name.len() ==> is_name_char(#[trigger] name[i])) {
        Some(
            ErrorView {
                kind: ErrorKind::FunctionName,
                message: "Invalid function name: '"@ + name
                    + "'. Function names can only contain letters, numbers, and underscores"@,
            },
        )
    } else {
        None
    }
}

/// Validates a function name as an identifier.
#[verifier::loop_isolation(false)]
pub fn validate_function_name(function_name: &str) -> (r: Result<(), EngineError>)
    ensures
        r is Ok <==> function_name_failure(function_name@) is None,
        r is Err ==> Some(r->Err_0@) == function_name_failure(function_name@),
{
    let chars = to_chars(function_name);
    if chars.len() == 0 {
        return Err(
            EngineError::new(
                ErrorKind::FunctionName,
                String::from_str("Function name cannot be empty"),
            ),
        );
    }
    if !(is_alpha_char(chars[0]) || chars[0] == '_') {
        let mut m = String::from_str("Invalid function name: '");
        m.append(function_name);
        m.append("'. Function names must start with a letter or underscore");
        return Err(EngineError::new(ErrorKind::FunctionName, m));
    }
    let mut i: usize = 0;
    while i < chars.len()
        invariant
            i <= chars.len(),
            forall|k: int| 0 <= k < i ==> is_name_char(#[trigger] chars@[k]),
        decreases chars.len() - i,
    {
        if !(is_alnum_char(chars[i]) || chars[i] == '_') {
            let mut m = String::from_str("Invalid function name: '");
            m.append(function_name);
            m.append("'. Function names can only contain letters, numbers, and underscores");
            return Err(EngineError::new(ErrorKind::FunctionName, m));
        }
        i += 1;
    }
    Ok(())
}

/// Why `s` gives no amount, or `None` if it does.
pub open spec fn value_failure(s: Seq<char>) -> Option<ErrorView> {
    if s.len() == 0 {
        Some(ErrorView { kind: ErrorKind::NumericValue, message: "Value cannot be empty"@ })
    } else if number_of_text(s) is Some {
        None
    } else if has_hex_prefix(s) {
        Some(
            ErrorView {
                kind: ErrorKind::NumericValue,
                message: "Invalid hexadecimal value: '"@ + s + "'"@,
            },
        )
    } else {
        Some(
            ErrorView {
                kind: ErrorKind::NumericValue,
                message: "Invalid numeric value: '"@ + s
                    + "'. Use decimal format or '0x' prefixed hex"@,
            },
        )
    }
}

/// Validates an amount and gives its number: hexadecimal digits behind `0x`,
/// or decimal digits.
pub fn validate_hex_value(value_str: &str) -> (r: Result<U256, EngineError>)
    ensures
        r is Ok <==> value_failure(value_str@) is None,
        r is Err ==> Some(r->Err_0@) == value_failure(value_str@),
        r is Ok ==> Some(r->Ok_0.value()) == number_of_text(value_str@),
{
    let chars = to_chars(value_str);
    if chars.len() == 0 {
        return Err(
            EngineError::new(ErrorKind::NumericValue, String::from_str("Value cannot be empty")),
        );
    }
    match parse_number(value_str) {
        Some(v) => Ok(v),
        None => {
            if chars.len() >= 2 && chars[0] == '0' && (chars[1] == 'x' || chars[1] == 'X') {
                let mut m = String::from_str("Invalid hexadecimal value: '");
                m.append(value_str);
                m.append("'");
                Err(EngineError::new(ErrorKind::NumericValue, m))
            } else {
                let mut m = String::from_str("Invalid numeric value: '");
                m.append(value_str);
                m.append("'. Use decimal format or '0x' prefixed hex");
                Err(EngineError::new(ErrorKind::NumericValue, m))
            }
        },
    }
}

/// The largest block number that is accepted.
pub open spec fn max_block_number() -> nat {
    0x7fff_ffff_ffff_ffff
}

/// Validates a block number: at most half of the 64-bit range; none means
/// block 0.
pub fn validate_block_number(block: Option<u64>) -> (r: Result<u64, EngineError>)
    ensures
        match block {
            None => r is Ok && r->Ok_0 == 0,
            Some(b) => if b <= max_block_number() {
                r is Ok && r->Ok_0 == b
            } else {
                r is Err && r->Err_0@ == (ErrorView {
                    kind: ErrorKind::BlockNumber,
                    message: "Block number "@ + decimal(b as nat)
                        + " is too large. Maximum supported block number is "@ + decimal(
                        max_block_number(),
                    ),
                })
            },
        },
{
    match block {
        Some(b) => {
            if b > u64::MAX / 2 {
                let mut m = String::from_str("Block number ");
                m.append(decimal_string(b).as_str());
                m.append(" is too large. Maximum supported block number is ");
                m.append(decimal_string(u64::MAX / 2).as_str());
                Err(EngineError::new(ErrorKind::BlockNumber, m))
            } else {
                Ok(b)
            }
        },
        None => Ok(0),
    }
}

/// The prose for a failure that the chain connection reported as `e`: the
/// first of the known causes whose mark stands in `e`, else `e` itself behind
/// a general heading.
pub open spec fn rpc_error_text(e: Seq<char>) -> Seq<char> {
    if contains(e, "execution reverted"@) {
        "Transaction failed: The contract function reverted execution. This usually means the function's requirements were not met or an assertion failed."@
    } else if contains(e, "insufficient funds"@) {
        "Transaction failed: Insufficient funds to cover gas costs. Make sure your account has enough ETH for gas fees."@
    } else if contains(e, "gas required exceeds allowance"@) {
        "Transaction failed: Gas limit too low. Try increasing the gas limit for this transaction."@
    } else if contains(e, "nonce too low"@) {
        "Transaction failed: Nonce too low. This usually means another transaction was already mined with this nonce."@
    } else if contains(e, "replacement transaction underpriced"@) {
        "Transaction failed: Gas price too low to replace pending transaction. Increase the gas price."@
    } else if contains(e, "connection refused"@) || contains(e, "network unreachable"@) {
        "Network error: Cannot connect to RPC endpoint. Check your internet connection and RPC URL configuration."@
    } else if contains(e, "timeout"@) {
        "Network error: Request timed out. The RPC endpoint may be overloaded or unreachable."@
    } else if contains(e, "rate limit"@) {
        "Rate limit error: Too many requests to the RPC endpoint. Try again in a few moments or use a different endpoint."@
    } else if contains(e, "method not found"@) {
        "RPC error: The requested method is not supported by this RPC endpoint. Try using a different endpoint."@
    } else {
        "RPC error: "@ + e
    }
}

/// Puts a failure of the chain connection into prose that names the
/// likely cause.
pub fn interpret_rpc_error(error: &str) -> (r: String)
    ensures
        r@ == rpc_error_text(error@),
{
    let e = to_chars(error);
    if chars_contain_str(&e, "execution reverted") {
        String::from_str(
            "Transaction failed: The contract function reverted execution. This usually means the function's requirements were not met or an assertion failed.",
        )
    } else if chars_contain_str(&e, "insufficient funds") {
        String::from_str(
            "Transaction failed: Insufficient funds to cover gas costs. Make sure your account has enough ETH for gas fees.",
        )
    } else if chars_contain_str(&e, "gas required exceeds allowance") {
        String::from_str(
            "Transaction failed: Gas limit too low. Try increasing the gas limit for this transaction.",
        )
    } else if chars_contain_str(&e, "nonce too low") {
        String::from_str(
            "Transaction failed: Nonce too low. This usually means another transaction was already mined with this nonce.",
        )
    } else if chars_contain_str(&e, "replacement transaction underpriced") {
        String::from_str(
            "Transaction failed: Gas price too low to replace pending transaction. Increase the gas price.",
        )
    } else if chars_contain_str(&e, "connection refused") || chars_contain_str(
        &e,
        "network unreachable",
    ) {
        String::from_str(
            "Network error: Cannot connect to RPC endpoint. Check your internet connection and RPC URL configuration.",
        )
    } else if chars_contain_str(&e, "timeout") {
        String::from_str(
            "Network error: Request timed out. The RPC endpoint may be overloaded or unreachable.",
        )
    } else if chars_contain_str(&e, "rate limit") {
        String::from_str(
            "Rate limit error: Too many requests to the RPC endpoint. Try again in a few moments or use a different endpoint.",
        )
    } else if chars_contain_str(&e, "method not found") {
        String::from_str(
            "RPC error: The requested method is not supported by this RPC endpoint. Try using a different endpoint.",
        )
    } else {
        let mut m = String::from_str("RPC error: ");
        m.append(error);
        m
    }
}

/// The prose for a failure `e` of the interface lookup for the contract at
/// `address`: the first of the known causes whose mark stands in `e`, else `e`
/// itself behind a general heading. A source that was not found and a source
/// that is not verified are one cause.
pub open spec fn abi_error_text(e: Seq<char>, address: Seq<char>) -> Seq<char> {
    if contains(e, "404"@) || contains(e, "not found"@) || contains(e, "not verified"@) {
        "Contract verification not found: The contract at "@ + address
            + " is not verified on Etherscan. Verified contracts are required for automatic ABI resolution."@
    } else if contains(e, "rate limit"@) || contains(e, "429"@) {
        "API rate limit: Too many requests to Etherscan API. Try again in a few moments or provide your own ETHERSCAN_API_KEY."@
    } else if contains(e, "invalid API key"@) || contains(e, "403"@) {
        "API authentication error: Invalid Etherscan API key. Check your ETHERSCAN_API_KEY environment variable."@
    } else if contains(e, "network"@) || contains(e, "connection"@) {
        "Network error: Cannot connect to Etherscan API. Check your internet connection."@
    } else if contains(e, "timeout"@) {
        "Timeout error: Request to Etherscan API timed out. Try again in a few moments."@
    } else {
        "ABI resolution error: "@ + e
    }
}

/// Puts a failure of the interface lookup into prose that names the
/// likely cause.
pub fn interpret_abi_error(error: &str, contract_address: &str) -> (r: String)
    ensures
        r@ == abi_error_text(error@, contract_address@),
{
    let e = to_chars(error);
    if chars_contain_str(&e, "404") || chars_contain_str(&e, "not found") || chars_contain_str(
        &e,
        "not verified",
    ) {
        let mut m = String::from_str("Contract verification not found: The contract at ");
        m.append(contract_address);
        m.append(
            " is not verified on Etherscan. Verified contracts are required for automatic ABI resolution.",
        );
        m
    } else if chars_contain_str(&e, "rate limit") || chars_contain_str(&e, "429") {
        String::from_str(
            "API rate limit: Too many requests to Etherscan API. Try again in a few moments or provide your own ETHERSCAN_API_KEY.",
        )
    } else if chars_contain_str(&e, "invalid API key") || chars_contain_str(&e, "403") {
        String::from_str(
            "API authentication error: Invalid Etherscan API key. Check your ETHERSCAN_API_KEY environment variable.",
        )
    } else if chars_contain_str(&e, "network") || chars_contain_str(&e, "connection") {
        String::from_str(
            "Network error: Cannot connect to Etherscan API. Check your internet connection.",
        )
    } else if chars_contain_str(&e, "timeout") {
        String::from_str(
            "Timeout error: Request to Etherscan API timed out. Try again in a few moments.",
        )
    } else {
        let mut m = String::from_str("ABI resolution error: ");
        m.append(error);
        m
    }
}

/// What is said of a contract whose source is not verified: the failure of
/// the lookup that ends on the mark of an unverified source is put into the
/// prose of the cause "not found or not verified", which names the contract.
pub proof fn unverified_is_not_found(address: Seq<char>)
    ensures
        abi_error_text("Contract source code is not verified on Etherscan"@, address)
            == "Contract verification not found: The contract at "@ + address
            + " is not verified on Etherscan. Verified contracts are required for automatic ABI resolution."@,
{
    reveal_strlit("Contract source code is not verified on Etherscan");
    reveal_strlit("not verified");
    let e = "Contract source code is not verified on Etherscan"@;
    assert(e.subrange(24, 36) =~= "not verified"@);
    assert(occurs_at(e, "not verified"@, 24));
}

} // verus!
