//! Text-transformation helpers for a template engine whose values are
//! dynamically typed, together with the binding layer that checks
//! arity, converts each dynamic argument to the static type a helper
//! expects, and wraps the result back into a dynamic value.
//!
//! Every helper takes an ordered list of dynamic values and returns
//! either a dynamic result or a [`BindError`] saying why the call
//! could not proceed. Strings are indexed by codepoint throughout.

pub mod bind;
pub mod chars;
pub mod cut;
pub mod encode;
pub mod random;
pub mod numtext;
pub mod search;
pub mod splitjoin;
pub mod trims;
pub mod value;
pub mod words;

pub use cut::abbrev;
pub use cut::abbrevboth;
pub use cut::plural;
pub use cut::substring;
pub use cut::trunc;
pub use encode::base32decode;
pub use encode::base32encode;
pub use encode::base32_round_trip;
pub use encode::base64decode;
pub use encode::base64encode;
pub use encode::base64_round_trip;
pub use random::rand_alpha;
pub use random::rand_alpha_numeric;
pub use random::rand_ascii;
pub use random::rand_numeric;
pub use search::contains;
pub use search::has_prefix;
pub use search::has_suffix;
pub use search::replace;
pub use splitjoin::join;
pub use splitjoin::split;
pub use trims::trim;
pub use trims::trim_all;
pub use trims::trim_prefix;
pub use trims::trim_suffix;
pub use value::BindError;
pub use value::Value;
pub use words::initials;
pub use words::untitle;
