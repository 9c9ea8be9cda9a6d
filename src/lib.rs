use vstd::prelude::*;

pub mod codec;
pub mod error;
pub mod event;
pub mod framing;
pub mod ids;
pub mod json;
pub mod rpc;

pub use codec::{decode, decode_id, encode, parse_u64, Message};
pub use error::PluginError;
pub use event::{PluginEvent, PluginEventKind};
pub use framing::{frame_line, line_body};
pub use ids::IdAllocator;
pub use json::{take_members, JsonValue};
pub use rpc::{handle_rpc, Inbound, LapcePlugin, PluginServerRpcHandler};

verus! {

/// What the host tells a plugin of itself through its environment: the
/// plugin's install location, the operating system, the processor
/// architecture and the C library.
pub struct VoltEnvironment {}

impl VoltEnvironment {
    /// The value of a lookup of the host's environment, or `EnvironmentMissing`
    /// naming the variable where the lookup found nothing.
    pub fn require(name: String, value: Option<String>) -> (r: Result<String, PluginError>)
        ensures
            value is Some ==> r == Ok::<String, PluginError>(value->Some_0),
            value is None ==> r == Err::<String, PluginError>(PluginError::EnvironmentMissing(name)),
    {
        match value {
            Some(v) => Ok(v),
            None => Err(PluginError::EnvironmentMissing(name)),
        }
    }
}

} // verus!
