//! Relay of a live microphone stream from one host to a virtual microphone on
//! another.
//!
//! - `codec`: captured samples to the signed 16-bit little-endian wire format.
//! - `sender`: reconnection policy of the transmitting loop.
//! - `relay`: admission of inbound connections, one session at a time, into
//!   the named pipe behind the virtual microphone.
//! - `device`: setup, lookup and removal of the virtual microphone through the
//!   audio server's control plane.
//! - `config`: stream configuration, buffer sizes and server addresses.
//! - `text`: character-level helpers (whitespace, search, lines, fields).
//!
//! Every decision is made here; sockets, files, processes and audio devices
//! belong to the caller, which performs the actions returned and reports back.
pub mod codec;
pub mod config;
pub mod device;
pub mod relay;
pub mod sender;
pub mod text;

pub use codec::{convert_to_s16le, decode_s16le, WireSample};
pub use config::{
    parse_server_address, validate_buffer_size, AudioConfig, AudioFormat, ConfigError,
    DEFAULT_PORT, DEFAULT_SERVER_ADDRESS, MAX_BUFFER_SIZE,
};
pub use device::{
    cleanup_virtual_microphone, find_module_id, get_virtual_microphone_module_id,
    pipe_source_load_args, setup_virtual_microphone, setup_virtual_microphone_with_config,
    DeviceAction, DeviceError, DeviceEvent, ModuleCleanup, ModuleLookup, SetupTask,
    VirtualMicResult, DEFAULT_PIPE_PATH, DEFAULT_SOURCE_NAME,
};
pub use relay::{EndReason, RefuseReason, RelayAction, RelayEvent, RelayServer, RelayState};
pub use sender::{
    LinkState, ReconnectingSender, SenderAction, SenderEvent, BACKOFF_SECS, DEFAULT_BACKLOG_CHUNKS,
};
