//! Translation table from OpenType feature tags to Apple Advanced
//! Typography (AAT) feature types and selectors.
//!
//! An AAT-only font does not understand OpenType feature tags such as
//! `liga` or `smcp`. A shaping engine that wants to honour such a request
//! on an AAT font looks the tag up here and receives the AAT feature type
//! together with the selector values that switch the feature on and off.

pub mod feature_mappings;
pub mod feature_selector;
pub mod tag;
