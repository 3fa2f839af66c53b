//! Connector integration layer of a payment switch: the translation between
//! the switch's connector-agnostic payment model and each processor's wire
//! model, with the status, amount and redirect abstractions they share.

pub mod aci;
pub mod amount;
pub mod dummy_connector;
pub mod encoding;
pub mod enums;
pub mod fiserv;
pub mod globalpay;
pub mod errors;
pub mod json;
pub mod nexinets;
pub mod noon;
pub mod payment_method_data;
pub mod payments;
pub mod redirect;
pub mod router_data;
pub mod secret;
pub mod text;

