//! Alternate path to the resolver, kept so existing callers that reach the
//! outcome type and the resolver through this module keep working.

pub use crate::core_logic::ShippingType;
pub use crate::core_logic::find_best_shipping;
