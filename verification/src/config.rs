use vstd::prelude::*;
use tokio_tungstenite::tungstenite::protocol::WebSocketConfig;

verus! {

/// A size limit that may be lifted.
#[derive(Clone, Copy, Debug)]
pub enum Max {
    /// No limit.
    Unlimited,
    /// At most so many bytes.
    Number(usize),
}

/// What a caller may tune of one connection. Whatever is left out keeps the protocol's
/// default.
pub struct ConnectionConfig {
    pub read_buffer_size: Option<usize>,
    pub write_buffer_size: Option<usize>,
    pub max_write_buffer_size: Option<usize>,
    pub max_message_size: Option<Max>,
    pub max_frame_size: Option<Max>,
    pub accept_unmasked_frames: bool,
    /// Header fields to set on the upgrade request, as pairs of name and value.
    pub headers: Option<Vec<(String, String)>>,
}

/// The limits that the protocol layer runs one connection under.
#[derive(Clone, Copy, Debug)]
pub struct ProtocolLimits {
    pub read_buffer_size: usize,
    pub write_buffer_size: usize,
    pub max_write_buffer_size: usize,
    /// The largest message taken, where there is a limit.
    pub max_message_size: Option<usize>,
    /// The largest frame taken, where there is a limit.
    pub max_frame_size: Option<usize>,
    pub accept_unmasked_frames: bool,
}

/// The limits of the protocol layer where nothing is tuned: buffers of 128 KiB to read
/// and to write, a write buffer that may grow without bound, messages of at most 64 MiB
/// in frames of at most 16 MiB, and masked frames only.
pub open spec fn protocol_defaults() -> ProtocolLimits {
    ProtocolLimits {
        read_buffer_size: 131072,
        write_buffer_size: 131072,
        max_write_buffer_size: usize::MAX,
        max_message_size: Some(67108864usize),
        max_frame_size: Some(16777216usize),
        accept_unmasked_frames: false,
    }
}

/// Reads the defaults off `WebSocketConfig::default` of the `tungstenite` crate.
///
/// Believed of it: the defaults are the ones its documentation gives for each field.
#[verifier::external_body]
fn default_limits() -> (limits: ProtocolLimits)
    ensures
        limits == protocol_defaults(),
{
    let config = WebSocketConfig::default();
    ProtocolLimits {
        read_buffer_size: config.read_buffer_size,
        write_buffer_size: config.write_buffer_size,
        max_write_buffer_size: config.max_write_buffer_size,
        max_message_size: config.max_message_size,
        max_frame_size: config.max_frame_size,
        accept_unmasked_frames: config.accept_unmasked_frames,
    }
}

/// A limit as the protocol layer takes it.
pub open spec fn bound_of(max: Max) -> Option<usize> {
    match max {
        Max::Unlimited => None,
        Max::Number(bytes) => Some(bytes),
    }
}

/// A setting as tuned, else as it was.
pub open spec fn tuned<T>(setting: Option<T>, otherwise: T) -> T {
    match setting {
        Some(value) => value,
        None => otherwise,
    }
}

impl ConnectionConfig {
    /// The limits that this configuration asks for, over the limits that hold where it
    /// is silent. The choice on unmasked frames is always the configuration's own.
    pub open spec fn limits_over(self, base: ProtocolLimits) -> ProtocolLimits {
        ProtocolLimits {
            read_buffer_size: tuned(self.read_buffer_size, base.read_buffer_size),
            write_buffer_size: tuned(self.write_buffer_size, base.write_buffer_size),
            max_write_buffer_size: tuned(self.max_write_buffer_size, base.max_write_buffer_size),
            max_message_size: match self.max_message_size {
                Some(max) => bound_of(max),
                None => base.max_message_size,
            },
            max_frame_size: match self.max_frame_size {
                Some(max) => bound_of(max),
                None => base.max_frame_size,
            },
            accept_unmasked_frames: self.accept_unmasked_frames,
        }
    }

    /// The limits that this configuration asks for.
    pub open spec fn limits_spec(self) -> ProtocolLimits {
        self.limits_over(protocol_defaults())
    }

    /// The limits that a connection under this configuration runs with.
    pub fn limits(&self) -> (limits: ProtocolLimits)
        ensures
            limits == self.limits_spec(),
    {
        let mut limits = default_limits();
        limits.accept_unmasked_frames = self.accept_unmasked_frames;
        if let Some(read_buffer_size) = self.read_buffer_size {
            limits.read_buffer_size = read_buffer_size;
        }
        if let Some(write_buffer_size) = self.write_buffer_size {
            limits.write_buffer_size = write_buffer_size;
        }
        if let Some(max_write_buffer_size) = self.max_write_buffer_size {
            limits.max_write_buffer_size = max_write_buffer_size;
        }
        if let Some(max_message_size) = self.max_message_size {
            limits.max_message_size = match max_message_size {
                Max::Unlimited => None,
                Max::Number(bytes) => Some(bytes),
            };
        }
        if let Some(max_frame_size) = self.max_frame_size {
            limits.max_frame_size = match max_frame_size {
                Max::Unlimited => None,
                Max::Number(bytes) => Some(bytes),
            };
        }
        limits
    }
}

impl From<ConnectionConfig> for ProtocolLimits {
    fn from(config: ConnectionConfig) -> (limits: ProtocolLimits) {
        config.limits()
    }
}

impl vstd::std_specs::convert::FromSpecImpl<ConnectionConfig> for ProtocolLimits {
    open spec fn obeys_from_spec() -> bool {
        true
    }

    open spec fn from_spec(config: ConnectionConfig) -> ProtocolLimits {
        config.limits_spec()
    }
}

} // verus!
