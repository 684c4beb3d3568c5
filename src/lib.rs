//! Live-development core of a documentation-site tool: change debouncing,
//! serialized rebuilds, and the hot-reload message hub.

pub mod assets;
pub mod protocol;
pub mod debounce;
pub mod coordinator;
pub mod hub;
pub mod session;
pub mod wire;
pub mod watch;

pub use assets::AssetPipeline;
