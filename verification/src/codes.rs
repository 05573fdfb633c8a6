//! Classification of numeric transaction type and status codes into fixed
//! string labels. Both classifications are total: every code outside the
//! known set maps to the sentinel label `Unknown`, never to a failure.

use vstd::prelude::*;
use vstd::string::StringExecFns;

verus! {

/// The fixed label of a transaction type code; the sentinel `Unknown` for
/// every code outside the known set.
pub open spec fn type_label(code: i32) -> Seq<char> {
    if code == 0 {
        "Legacy"@
    } else if code == 1 {
        "AccessList"@
    } else if code == 2 {
        "DynamicFee"@
    } else if code == 3 {
        "Blob"@
    } else if code == 100 {
        "ArbitrumDeposit"@
    } else if code == 101 {
        "ArbitrumUnsigned"@
    } else if code == 102 {
        "ArbitrumContract"@
    } else if code == 104 {
        "ArbitrumRetry"@
    } else if code == 105 {
        "ArbitrumSubmitRetryable"@
    } else if code == 106 {
        "ArbitrumInternal"@
    } else if code == 120 {
        "ArbitrumLegacy"@
    } else if code == 126 {
        "OptimismDeposit"@
    } else {
        "Unknown"@
    }
}

/// The fixed label of a transaction status code; the sentinel `Unknown` for
/// every code outside the known set. The code `0` itself stands for an
/// unknown status and carries the same label.
pub open spec fn status_label(code: i32) -> Seq<char> {
    if code == 1 {
        "Succeeded"@
    } else if code == 2 {
        "Failed"@
    } else if code == 3 {
        "Reverted"@
    } else {
        "Unknown"@
    }
}

/// The single status code that counts as success.
pub open spec fn spec_is_success(code: i32) -> bool {
    code == 1
}

/// Renders a transaction type code as its fixed label.
pub fn transaction_type_to_string(code: i32) -> (r: String)
    ensures
        r@ == type_label(code),
{
    if code == 0 {
        String::from_str("Legacy")
    } else if code == 1 {
        String::from_str("AccessList")
    } else if code == 2 {
        String::from_str("DynamicFee")
    } else if code == 3 {
        String::from_str("Blob")
    } else if code == 100 {
        String::from_str("ArbitrumDeposit")
    } else if code == 101 {
        String::from_str("ArbitrumUnsigned")
    } else if code == 102 {
        String::from_str("ArbitrumContract")
    } else if code == 104 {
        String::from_str("ArbitrumRetry")
    } else if code == 105 {
        String::from_str("ArbitrumSubmitRetryable")
    } else if code == 106 {
        String::from_str("ArbitrumInternal")
    } else if code == 120 {
        String::from_str("ArbitrumLegacy")
    } else if code == 126 {
        String::from_str("OptimismDeposit")
    } else {
        String::from_str("Unknown")
    }
}

/// Renders a transaction status code as its fixed label.
pub fn transaction_status_to_string(code: i32) -> (r: String)
    ensures
        r@ == status_label(code),
{
    if code == 1 {
        String::from_str("Succeeded")
    } else if code == 2 {
        String::from_str("Failed")
    } else if code == 3 {
        String::from_str("Reverted")
    } else {
        String::from_str("Unknown")
    }
}

/// A transaction is successful exactly when its status code is the single
/// designated success value.
pub fn is_transaction_success(status: i32) -> (r: bool)
    ensures
        r == spec_is_success(status),
{
    status == 1
}

/// Classification is a fixed total mapping: every status or type code
/// outside its known set maps to the sentinel label `Unknown`.
pub proof fn lemma_unknown_codes(code: i32)
    ensures
        !(1 <= code <= 3) ==> status_label(code) == "Unknown"@,
        !(code == 0 || code == 1 || code == 2 || code == 3 || code == 100 || code == 101
            || code == 102 || code == 104 || code == 105 || code == 106 || code == 120 || code
            == 126) ==> type_label(code) == "Unknown"@,
{
}

} // verus!
