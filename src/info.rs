use vstd::prelude::*;
use vstd::string::StringExecFns;
use crate::error::DispatchError;
use crate::identity::ChainSpecification;
use crate::variant::{BuildConfig, VariantBindings};

verus! {

/// The node's name as shown in its version output.
pub fn impl_name() -> (r: String)
    ensures
        r@ == "Substrate Node"@,
{
    String::from_str("Substrate Node")
}

/// Where users of the node are sent for support.
pub fn support_url() -> (r: String)
    ensures
        r@ == "support.anonymous.an"@,
{
    String::from_str("support.anonymous.an")
}

/// The first year of the node's copyright notice.
pub fn copyright_start_year() -> (r: i32)
    ensures
        r == 2022,
{
    2022
}

impl BuildConfig {
    /// The runtime that runs natively for the chain specification `spec`:
    /// that of its variant, when the build contains it.
    pub fn native_runtime_version(&self, spec: &ChainSpecification) -> (r: Result<
        VariantBindings,
        DispatchError,
    >)
        ensures
            r == match self.spec_bindings(spec.variant) {
                Some(b) => Ok(b),
                None => Err(DispatchError::VariantUnavailable(spec.variant)),
            },
    {
        match self.bindings(spec.variant) {
            Some(b) => Ok(b),
            None => Err(DispatchError::VariantUnavailable(spec.variant)),
        }
    }
}

} // verus!
