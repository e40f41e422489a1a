pub mod adaptor;
pub mod configuration;
pub mod decode;
pub mod discover;
pub mod info;
pub mod number;
pub mod snapshot;
pub mod supervisor;
pub mod watcher;

pub use adaptor::{DaikinAdaptor, Endpoint};
pub use configuration::Configuration;
pub use decode::{decode, hex_encode, percent_decode, DecodeError};
pub use info::{parse_pairs, Info, ProtocolError};
pub use watcher::DaikinWatcher;
