//! Stream configuration and the checks applied to operator-supplied settings.
use vstd::prelude::*;

use crate::text::{all_space, has_char, opt_text, str_all_space, str_has_char};

verus! {

/// Largest accepted socket read buffer, in bytes.
pub const MAX_BUFFER_SIZE: usize = 65536;

/// A setting that was rejected before any work started.
#[derive(Debug, Clone, Copy, PartialEq, Eq, Structural)]
pub enum ConfigError {
    /// A buffer of zero bytes cannot carry any audio.
    ZeroBufferSize,
    /// The buffer exceeds `MAX_BUFFER_SIZE`; the rejected size is kept.
    BufferSizeTooLarge(usize),
}

/// Whether `size` is an accepted buffer size: between 1 and 65536 bytes.
pub open spec fn buffer_size_ok(size: int) -> bool {
    1 <= size <= MAX_BUFFER_SIZE
}

/// The outcome of checking a buffer size: the size itself when accepted, else
/// the reason for rejecting it.
pub open spec fn buffer_size_check(size: usize) -> Result<usize, ConfigError> {
    if size == 0 {
        Err(ConfigError::ZeroBufferSize)
    } else if size > MAX_BUFFER_SIZE {
        Err(ConfigError::BufferSizeTooLarge(size))
    } else {
        Ok(size)
    }
}

/// Checks a socket read buffer size and hands it back when it is accepted.
pub fn validate_buffer_size(size: usize) -> (r: Result<usize, ConfigError>)
    ensures
        r == buffer_size_check(size),
        r is Ok <==> buffer_size_ok(size as int),
{
    if size == 0 {
        Err(ConfigError::ZeroBufferSize)
    } else if size > MAX_BUFFER_SIZE {
        Err(ConfigError::BufferSizeTooLarge(size))
    } else {
        Ok(size)
    }
}

/// Port used when an address names none.
pub const DEFAULT_PORT: u16 = 8080;

/// Address used when none is given.
pub const DEFAULT_SERVER_ADDRESS: &'static str = "127.0.0.1:8080";

/// The address to connect to for an optional `host[:port]` text: the text
/// itself when it holds a colon, the text with the default port appended when
/// it does not, and the local default when it is absent or blank.
pub open spec fn server_address(addr: Option<Seq<char>>) -> Seq<char> {
    match addr {
        Some(a) => if all_space(a) {
            DEFAULT_SERVER_ADDRESS@
        } else if has_char(a, ':') {
            a
        } else {
            a + ":8080"@
        },
        None => DEFAULT_SERVER_ADDRESS@,
    }
}

/// Completes an optional server address with the default host and port.
pub fn parse_server_address(addr: Option<String>) -> (r: String)
    ensures
        r@ == server_address(opt_text(addr)),
{
    match addr {
        Some(a) => {
            if str_all_space(a.as_str()) {
                String::from_str(DEFAULT_SERVER_ADDRESS)
            } else if str_has_char(a.as_str(), ':') {
                a
            } else {
                a.concat(":8080")
            }
        },
        None => String::from_str(DEFAULT_SERVER_ADDRESS),
    }
}

/// Sample encodings that a stream can use.
#[derive(Debug, Clone, Copy, PartialEq, Eq, Structural)]
pub enum AudioFormat {
    /// Signed 16-bit little-endian samples, the wire format.
    S16LE,
    /// 32-bit floating point little-endian samples.
    F32LE,
}

/// Format of an audio stream, fixed for a whole session.
#[derive(Debug, Clone, Copy, PartialEq, Eq, Structural)]
pub struct AudioConfig {
    /// Samples per second and channel, in Hz.
    pub sample_rate: u32,
    /// Interleaved channels (1 for mono, 2 for stereo).
    pub channels: u16,
    /// Sample encoding.
    pub format: AudioFormat,
}

impl AudioConfig {
    /// A usable configuration has at least one channel and a positive rate.
    pub open spec fn wf(&self) -> bool {
        self.sample_rate > 0 && self.channels >= 1
    }

    /// Whether the configuration is usable.
    pub fn is_valid(&self) -> (r: bool)
        ensures
            r == self.wf(),
    {
        self.sample_rate > 0 && self.channels >= 1
    }
}

impl Default for AudioConfig {
    /// CD-quality stereo in the wire format: 44100 Hz, two channels, S16LE.
    fn default() -> (r: Self)
        ensures
            r.sample_rate == 44100,
            r.channels == 2,
            r.format == AudioFormat::S16LE,
            r.wf(),
    {
        AudioConfig { sample_rate: 44100, channels: 2, format: AudioFormat::S16LE }
    }
}

} // verus!
