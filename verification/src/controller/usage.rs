//! Usage commands (`usage ...`).
use vstd::prelude::*;

use super::ControllerType;

verus! {

/// Every usage command shows the usage help, whatever follows it.
pub fn determine_controller(_text: &str) -> (r: ControllerType)
    ensures
        r == ControllerType::UsageHelp,
{
    ControllerType::UsageHelp
}

} // verus!
