use vstd::prelude::*;

verus! {

/// Errors raised by the EVSE's typed property store.
#[derive(Debug, Clone)]
pub enum EVSEError {
    /// A property was read as a type it does not hold.
    OcppPropertyError { t: String },
}

impl EVSEError {
    /// The type name that the failed read asked for.
    pub fn requested_type(&self) -> (r: &String)
        ensures
            match self {
                EVSEError::OcppPropertyError { t } => r == t,
            },
    {
        match self {
            EVSEError::OcppPropertyError { t } => t,
        }
    }
}

} // verus!
