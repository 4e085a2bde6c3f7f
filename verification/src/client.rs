//! Connection session: the state machine of one Modbus TCP client, the
//! validation and error mapping around raw register reads, and the typed
//! decoder of raw register words.
//!
//! The session works over plain values. The surrounding binary owns the
//! actual transport handle and drives each network operation: it calls a
//! `*_begin` function, performs the timeout-raced network call, and hands
//! the outcome back to the matching `*_finish` function, which applies the
//! state transition and maps the failure layers.

use vstd::prelude::*;
use vstd::string::StringExecFns;

use crate::errors::ModbusError;
use crate::text::spec_dec;
use crate::text::spec_hex4;
use crate::text::spec_bin16;
use crate::text::str_eq;
use crate::text::u16_to_bin16;
use crate::text::u16_to_hex4;
use crate::text::u64_to_dec;
use crate::types::AddressRange;
use crate::types::AddressReadResult;
use crate::types::ConnectionState;
use crate::types::ModbusConfig;
use crate::types::ReadResult;
use crate::types::spec_range_valid;

verus! {

broadcast use vstd::string::group_string_axioms;

/// How a connection attempt ended: the transport opened, the transport
/// reported a failure (with its message), or the timeout elapsed first.
pub enum ConnectOutcome {
    Opened,
    Failed(String),
    TimedOut,
}

/// How one raw register read ended: data arrived, the device answered with
/// a protocol exception (with its text), the transport itself failed (with
/// its message), or the timeout elapsed first.
pub enum RawReadOutcome {
    Data(Vec<u16>),
    Exception(String),
    Transport(String),
    TimedOut,
}

/// Widens two 16-bit register words into the canonical 32-bit raw value,
/// big-endian: `high` is the upper half, `low` the lower.
pub open spec fn spec_raw32(high: u16, low: u16) -> u32 {
    (high * 0x10000 + low) as u32
}

/// Combines a register pair into the canonical 32-bit raw value.
pub fn raw32(high: u16, low: u16) -> (r: u32)
    ensures
        r == spec_raw32(high, low),
{
    (high as u32) * 0x10000 + (low as u32)
}

/// The decimal text of a raw 32-bit value reinterpreted as two's-complement
/// signed.
pub open spec fn spec_i32_text(raw: u32) -> Seq<char> {
    if raw < 0x8000_0000 {
        spec_dec(raw as nat)
    } else {
        seq!['-'] + spec_dec((0x1_0000_0000 - raw) as nat)
    }
}

/// The decimal text of a register value reinterpreted as two's-complement
/// signed 16-bit.
pub open spec fn spec_i16_text(v: u16) -> Seq<char> {
    if v < 0x8000 {
        spec_dec(v as nat)
    } else {
        seq!['-'] + spec_dec((0x10000 - v) as nat)
    }
}

/// A register value under a display format: hexadecimal for `hex`, binary
/// for `bin`, decimal otherwise.
pub open spec fn spec_format_value(v: u16, format: Seq<char>) -> Seq<char> {
    if format == "hex"@ {
        spec_hex4(v)
    } else if format == "bin"@ {
        spec_bin16(v)
    } else {
        spec_dec(v as nat)
    }
}

/// Renders a raw 32-bit value as two's-complement signed decimal text.
fn i32_text(raw: u32) -> (r: String)
    ensures
        r@ == spec_i32_text(raw),
{
    if raw < 0x80000000 {
        u64_to_dec(raw as u64)
    } else {
        let mut s = String::from_str("-");
        s.append(u64_to_dec(0x100000000u64 - raw as u64).as_str());
        proof {
            reveal_strlit("-");
            assert(s@ =~= seq!['-'] + spec_dec((0x1_0000_0000 - raw) as nat));
        }
        s
    }
}

/// Renders a register value as two's-complement signed 16-bit decimal text.
fn i16_text(v: u16) -> (r: String)
    ensures
        r@ == spec_i16_text(v),
{
    if v < 0x8000 {
        u64_to_dec(v as u64)
    } else {
        let mut s = String::from_str("-");
        s.append(u64_to_dec(0x10000u64 - v as u64).as_str());
        proof {
            reveal_strlit("-");
            assert(s@ =~= seq!['-'] + spec_dec((0x10000 - v) as nat));
        }
        s
    }
}

/// Renders a register value under a display format.
fn format_value(value: u16, format: &str) -> (r: String)
    ensures
        r@ == spec_format_value(value, format@),
{
    if str_eq(format, "hex") {
        u16_to_hex4(value)
    } else if str_eq(format, "bin") {
        u16_to_bin16(value)
    } else {
        u64_to_dec(value as u64)
    }
}

/// The Debug-style text of a connection state, as the connection-info
/// summary prints it.
pub open spec fn spec_state_text(s: ConnectionState) -> Seq<char> {
    match s {
        ConnectionState::Disconnected => "Disconnected"@,
        ConnectionState::Connecting => "Connecting"@,
        ConnectionState::Connected => "Connected"@,
        ConnectionState::Error(m) => "Error(\""@ + m@ + "\")"@,
    }
}

/// One Modbus TCP client session: its configuration, its connection state,
/// and whether a live transport handle is currently held for it.
pub struct ModbusClient {
    pub config: ModbusConfig,
    pub state: ConnectionState,
    pub has_transport: bool,
}

impl ModbusClient {
    /// The session counts as connected only when the state is exactly
    /// `Connected` and a transport handle is held — both, not either alone.
    pub open spec fn spec_is_connected(&self) -> bool {
        self.state is Connected && self.has_transport
    }

    /// The session invariant: the `Connected` state is never held without a
    /// transport handle. Constructors establish it and every transition
    /// preserves it.
    pub open spec fn wf(&self) -> bool {
        self.state is Connected ==> self.has_transport
    }

    /// A fresh session: default configuration, disconnected, no transport.
    pub fn new() -> (r: ModbusClient)
        ensures
            r.config.ip@ == "192.168.1.199"@,
            r.config.port == 502,
            r.config.timeout_ms == 3000,
            r.config.slave_id == 1,
            r.state is Disconnected,
            !r.has_transport,
            r.wf(),
    {
        ModbusClient {
            config: ModbusConfig::default(),
            state: ConnectionState::Disconnected,
            has_transport: false,
        }
    }

    /// A fresh session with the given configuration.
    pub fn with_config(config: ModbusConfig) -> (r: ModbusClient)
        ensures
            r.config == config,
            r.state is Disconnected,
            !r.has_transport,
            r.wf(),
    {
        ModbusClient { config, state: ConnectionState::Disconnected, has_transport: false }
    }

    /// Whether the session is connected: state exactly `Connected` and a
    /// transport handle held.
    pub fn is_connected(&self) -> (r: bool)
        ensures
            r == self.spec_is_connected(),
    {
        (match self.state {
            ConnectionState::Connected => true,
            _ => false,
        }) && self.has_transport
    }

    /// A read-only snapshot of the connection state.
    pub fn get_state(&self) -> (r: &ConnectionState)
        ensures
            *r == self.state,
    {
        &self.state
    }

    /// A read-only snapshot of the configuration.
    pub fn get_config(&self) -> (r: &ModbusConfig)
        ensures
            *r == self.config,
    {
        &self.config
    }

    /// Stages a new slave id; the surrounding binary also applies it to the
    /// live transport when one exists.
    pub fn set_slave_id(&mut self, slave_id: u8)
        ensures
            final(self).config.slave_id == slave_id,
            final(self).config.ip == old(self).config.ip,
            final(self).config.port == old(self).config.port,
            final(self).config.timeout_ms == old(self).config.timeout_ms,
            final(self).state == old(self).state,
            final(self).has_transport == old(self).has_transport,
            old(self).wf() ==> final(self).wf(),
    {
        self.config.slave_id = slave_id;
    }

    /// Stages a new timeout, applied on the next network operation.
    pub fn set_timeout(&mut self, timeout_ms: u32)
        ensures
            final(self).config.timeout_ms == timeout_ms,
            final(self).config.ip == old(self).config.ip,
            final(self).config.port == old(self).config.port,
            final(self).config.slave_id == old(self).config.slave_id,
            final(self).state == old(self).state,
            final(self).has_transport == old(self).has_transport,
            old(self).wf() ==> final(self).wf(),
    {
        self.config.timeout_ms = timeout_ms;
    }

    /// Validates the configuration: host non-empty, port nonzero, timeout
    /// between 1 and 60000 milliseconds; each violation is a distinct
    /// `ConfigError`, checked in that order.
    pub fn validate_config(&self) -> (r: Result<(), ModbusError>)
        ensures
            r is Ok <==> (self.config.ip@.len() > 0 && self.config.port != 0 && 0
                < self.config.timeout_ms <= 60000),
            self.config.ip@.len() == 0 ==> (r matches Err(ModbusError::ConfigError(m)) && m@
                == "IP地址不能为空"@),
            self.config.ip@.len() > 0 && self.config.port == 0 ==> (r matches Err(
                ModbusError::ConfigError(m),
            ) && m@ == "端口号不能为0"@),
            self.config.ip@.len() > 0 && self.config.port != 0 && self.config.timeout_ms == 0 ==> (
            r matches Err(ModbusError::ConfigError(m)) && m@ == "超时时间不能为0"@),
            self.config.ip@.len() > 0 && self.config.port != 0 && self.config.timeout_ms > 60000
                ==> (r matches Err(ModbusError::ConfigError(m)) && m@ == "超时时间不能超过60秒"@),
    {
        if self.config.ip.as_str().is_empty() {
            Err(ModbusError::ConfigError(String::from_str("IP地址不能为空")))
        } else if self.config.port == 0 {
            Err(ModbusError::ConfigError(String::from_str("端口号不能为0")))
        } else if self.config.timeout_ms == 0 {
            Err(ModbusError::ConfigError(String::from_str("超时时间不能为0")))
        } else if self.config.timeout_ms > 60000 {
            Err(ModbusError::ConfigError(String::from_str("超时时间不能超过60秒")))
        } else {
            Ok(())
        }
    }

    /// A human-readable summary of state and configuration.
    pub fn get_connection_info(&self) -> (r: String)
        ensures
            r@ == "状态: "@ + spec_state_text(self.state) + ", 设备: "@ + self.config.ip@ + ":"@
                + spec_dec(self.config.port as nat) + ", 从站ID: "@ + spec_dec(
                self.config.slave_id as nat,
            ) + ", 超时: "@ + spec_dec(self.config.timeout_ms as nat) + "ms"@,
    {
        let mut s = String::from_str("状态: ");
        match &self.state {
            ConnectionState::Disconnected => s.append("Disconnected"),
            ConnectionState::Connecting => s.append("Connecting"),
            ConnectionState::Connected => s.append("Connected"),
            ConnectionState::Error(m) => {
                s.append("Error(\"");
                s.append(m.as_str());
                s.append("\")");
            },
        }
        s.append(", 设备: ");
        s.append(self.config.ip.as_str());
        s.append(":");
        s.append(u64_to_dec(self.config.port as u64).as_str());
        s.append(", 从站ID: ");
        s.append(u64_to_dec(self.config.slave_id as u64).as_str());
        s.append(", 超时: ");
        s.append(u64_to_dec(self.config.timeout_ms as u64).as_str());
        s.append("ms");
        s
    }

    /// Releases the transport handle (the surrounding binary drops the real
    /// one) and unconditionally moves to `Disconnected`. Always succeeds.
    pub fn disconnect(&mut self) -> (r: Result<(), ModbusError>)
        ensures
            r is Ok,
            final(self).state is Disconnected,
            !final(self).has_transport,
            final(self).config == old(self).config,
            final(self).wf(),
    {
        self.has_transport = false;
        self.state = ConnectionState::Disconnected;
        Ok(())
    }

    /// Starts a connection attempt: rejects an empty host or a zero port
    /// with `ConfigError` before any network work, otherwise records the
    /// target in the configuration and moves to `Connecting`.
    pub fn connect_begin(&mut self, ip: &str, port: u16) -> (r: Result<(), ModbusError>)
        ensures
            ip@.len() == 0 ==> (r matches Err(ModbusError::ConfigError(m)) && m@
                == "IP地址不能为空"@ && *final(self) == *old(self)),
            ip@.len() > 0 && port == 0 ==> (r matches Err(ModbusError::ConfigError(m)) && m@
                == "端口号不能为0"@ && *final(self) == *old(self)),
            ip@.len() > 0 && port != 0 ==> (r is Ok && final(self).state is Connecting && final(self).config.ip@ == ip@ && final(self).config.port == port && final(self).config.timeout_ms
                == old(self).config.timeout_ms && final(self).config.slave_id == old(self).config.slave_id && final(self).has_transport == old(self).has_transport),
            old(self).wf() ==> final(self).wf(),
    {
        if ip.is_empty() {
            return Err(ModbusError::ConfigError(String::from_str("IP地址不能为空")));
        }
        if port == 0 {
            return Err(ModbusError::ConfigError(String::from_str("端口号不能为0")));
        }
        self.state = ConnectionState::Connecting;
        self.config.ip = String::from_str(ip);
        self.config.port = port;
        Ok(())
    }

    /// The transition for a host:port text that did not resolve to a socket
    /// address: the attempt ends in `Error` and reports `ConnectionFailed`,
    /// before any transport is opened.
    pub fn connect_resolve_failed(&mut self, detail: &str) -> (r: ModbusError)
        ensures
            r matches ModbusError::ConnectionFailed(m) && m@ == "Invalid address: "@ + detail@,
            final(self).state matches ConnectionState::Error(sm) && sm@ == "Invalid address: "@
                + detail@,
            final(self).config == old(self).config,
            final(self).has_transport == old(self).has_transport,
            final(self).wf(),
    {
        let mut m = String::from_str("Invalid address: ");
        m.append(detail);
        self.state = ConnectionState::Error(m.clone());
        ModbusError::ConnectionFailed(m)
    }

    /// Releases any transport held from an earlier connection before a new
    /// attempt, moving to `Disconnected` exactly as a disconnect would.
    pub fn connect_clear_existing(&mut self)
        ensures
            old(self).has_transport ==> (final(self).state is Disconnected && !final(self).has_transport && final(self).config == old(self).config),
            !old(self).has_transport ==> *final(self) == *old(self),
            old(self).wf() ==> final(self).wf(),
    {
        if self.has_transport {
            self.has_transport = false;
            self.state = ConnectionState::Disconnected;
        }
    }

    /// Applies the outcome of the timeout-raced transport open. Success
    /// moves to `Connected` with the handle held; a transport failure moves
    /// to `Error` and returns `ConnectionFailed`; an elapsed timeout moves
    /// to `Error("Connection timeout")` and returns `Timeout`.
    pub fn connect_finish(&mut self, outcome: ConnectOutcome) -> (r: Result<(), ModbusError>)
        ensures
            final(self).config == old(self).config,
            outcome is Opened ==> (r is Ok && final(self).state is Connected && final(self).has_transport),
            outcome matches ConnectOutcome::Failed(t) ==> ((r matches Err(
                ModbusError::ConnectionFailed(m),
            ) && m@ == "Connection failed: "@ + t@) && (final(self).state matches
                ConnectionState::Error(sm) && sm@ == "Connection failed: "@ + t@) && final(self).has_transport == old(self).has_transport),
            outcome is TimedOut ==> ((r matches Err(e) && e is Timeout) && (final(self).state matches ConnectionState::Error(sm) && sm@ == "Connection timeout"@) && final(self).has_transport == old(self).has_transport),
            final(self).wf(),
    {
        match outcome {
            ConnectOutcome::Opened => {
                self.has_transport = true;
                self.state = ConnectionState::Connected;
                Ok(())
            },
            ConnectOutcome::Failed(t) => {
                let mut m = String::from_str("Connection failed: ");
                m.append(t.as_str());
                self.state = ConnectionState::Error(m.clone());
                Err(ModbusError::ConnectionFailed(m))
            },
            ConnectOutcome::TimedOut => {
                self.state = ConnectionState::Error(String::from_str("Connection timeout"));
                Err(ModbusError::Timeout)
            },
        }
    }

    /// The validation that precedes every ordinary register read: the range
    /// must be valid and the session connected, in that order, before any
    /// network work.
    pub fn read_precheck(&self, range: &AddressRange) -> (r: Result<(), ModbusError>)
        ensures
            !spec_range_valid(range.start, range.count) ==> r == Err::<(), ModbusError>(
                ModbusError::InvalidAddressRange { start: range.start, count: range.count },
            ),
            spec_range_valid(range.start, range.count) && !self.spec_is_connected() ==> r
                == Err::<(), ModbusError>(ModbusError::NotConnected),
            spec_range_valid(range.start, range.count) && self.spec_is_connected() ==> r is Ok,
    {
        if !range.is_valid() {
            Err(ModbusError::InvalidAddressRange { start: range.start, count: range.count })
        } else if !self.is_connected() {
            Err(ModbusError::NotConnected)
        } else {
            Ok(())
        }
    }

    /// The check that guards the raw read primitive itself: a transport
    /// handle must be held.
    pub fn raw_read_begin(&self) -> (r: Result<(), ModbusError>)
        ensures
            r is Ok <==> self.has_transport,
            !self.has_transport ==> r == Err::<(), ModbusError>(ModbusError::NotConnected),
    {
        if self.has_transport {
            Ok(())
        } else {
            Err(ModbusError::NotConnected)
        }
    }

    /// Applies the outcome of the timeout-raced raw read, distinguishing
    /// the three failure layers: an elapsed timeout returns `Timeout`, a
    /// transport failure and a device protocol exception each return
    /// `DeviceError` with the layer named in the message. Every failure
    /// moves the state to `Error`; only data leaves the state untouched.
    pub fn raw_read_finish(&mut self, outcome: RawReadOutcome) -> (r: Result<
        Vec<u16>,
        ModbusError,
    >)
        ensures
            final(self).config == old(self).config,
            final(self).has_transport == old(self).has_transport,
            outcome matches RawReadOutcome::Data(d) ==> (r matches Ok(v) && v == d && *final(self) == *old(self)),
            outcome matches RawReadOutcome::Exception(t) ==> ((r matches Err(
                ModbusError::DeviceError(m),
            ) && m@ == "Modbus exception: "@ + t@) && (final(self).state matches
                ConnectionState::Error(sm) && sm@ == "Modbus exception: "@ + t@)),
            outcome matches RawReadOutcome::Transport(t) ==> ((r matches Err(
                ModbusError::DeviceError(m),
            ) && m@ == "Transport error: "@ + t@) && (final(self).state matches
                ConnectionState::Error(sm) && sm@ == "Transport error: "@ + t@)),
            outcome is TimedOut ==> ((r matches Err(e) && e is Timeout) && (final(self).state
                matches ConnectionState::Error(sm) && sm@ == "Read timeout"@)),
            old(self).wf() ==> final(self).wf(),
    {
        match outcome {
            RawReadOutcome::Data(d) => Ok(d),
            RawReadOutcome::Exception(t) => {
                let mut m = String::from_str("Modbus exception: ");
                m.append(t.as_str());
                self.state = ConnectionState::Error(m.clone());
                Err(ModbusError::DeviceError(m))
            },
            RawReadOutcome::Transport(t) => {
                let mut m = String::from_str("Transport error: ");
                m.append(t.as_str());
                self.state = ConnectionState::Error(m.clone());
                Err(ModbusError::DeviceError(m))
            },
            RawReadOutcome::TimedOut => {
                self.state = ConnectionState::Error(String::from_str("Read timeout"));
                Err(ModbusError::Timeout)
            },
        }
    }

    /// The decision that precedes the connectivity probe: a session that is
    /// not connected reports `false` outright, an answer rather than an
    /// error, and no read is issued for it.
    pub fn test_connection_skip(&self) -> (r: Option<bool>)
        ensures
            !self.spec_is_connected() ==> r == Some(false),
            self.spec_is_connected() ==> r is None,
    {
        if self.is_connected() {
            None
        } else {
            Some(false)
        }
    }

    /// Applies the outcome of the connectivity probe: data proves the
    /// connection, and so does a `DeviceError` (the device answered, even
    /// if it rejected the probe); any other failure moves the state to
    /// `Error("Connection test failed")` and reports no connectivity.
    pub fn test_connection_finish(&mut self, outcome: Result<Vec<u16>, ModbusError>) -> (r: bool)
        ensures
            final(self).config == old(self).config,
            final(self).has_transport == old(self).has_transport,
            outcome is Ok ==> (r && *final(self) == *old(self)),
            (outcome matches Err(e) && e is DeviceError) ==> (r && *final(self) == *old(self)),
            (outcome matches Err(e) && !(e is DeviceError)) ==> (!r && (final(self).state matches
                ConnectionState::Error(sm) && sm@ == "Connection test failed"@)),
            old(self).wf() ==> final(self).wf(),
    {
        match outcome {
            Ok(_) => true,
            Err(ModbusError::DeviceError(_)) => true,
            Err(_) => {
                self.state = ConnectionState::Error(String::from_str("Connection test failed"));
                false
            },
        }
    }

    /// Wraps the words of a successful raw read into a `ReadResult` with
    /// the capture timestamp and a summary message.
    pub fn make_read_result(range: AddressRange, data: Vec<u16>, timestamp: String) -> (r:
        ReadResult)
        ensures
            r.success,
            r.data == data,
            r.address_range == range,
            r.timestamp == timestamp,
            r.message@ == "成功读取 "@ + spec_dec(data@.len()) + " 个寄存器"@,
    {
        let len = data.len();
        let mut message = String::from_str("成功读取 ");
        message.append(u64_to_dec(len as u64).as_str());
        message.append(" 个寄存器");
        ReadResult { success: true, data, address_range: range, timestamp, message }
    }

    /// Applies a configuration update from the shell: the timeout must lie
    /// between 1 and 60000 milliseconds, or nothing changes.
    pub fn set_config_checked(&mut self, timeout_ms: u32, slave_id: u8) -> (r: Result<(), String>)
        ensures
            (timeout_ms == 0 || timeout_ms > 60000) ==> ((r matches Err(m) && m@
                == "超时时间必须在 1ms 到 60000ms 之间"@) && *final(self) == *old(self)),
            (0 < timeout_ms <= 60000) ==> (r is Ok && final(self).config.timeout_ms == timeout_ms
                && final(self).config.slave_id == slave_id && final(self).config.ip == old(
                self,
            ).config.ip && final(self).config.port == old(self).config.port && final(self).state
                == old(self).state && final(self).has_transport == old(self).has_transport),
            old(self).wf() ==> final(self).wf(),
    {
        if timeout_ms == 0 || timeout_ms > 60000 {
            return Err(String::from_str("超时时间必须在 1ms 到 60000ms 之间"));
        }
        self.set_timeout(timeout_ms);
        self.set_slave_id(slave_id);
        Ok(())
    }

    /// Decodes one register (or one register pair) into an address result.
    ///
    /// The requested type decides the shape: the 32-bit types consume
    /// `value` and `next_value` big-endian; when `next_value` is absent
    /// they silently downgrade to `uint16` semantics over `value` alone,
    /// recorded in the effective `data_type` field. `int16` reinterprets
    /// the single register as signed. Everything else renders the single
    /// register under the display format.
    ///
    /// IEEE-754 rendering is the one step the engine cannot perform over
    /// plain integers, so the caller supplies `render_float`, which must
    /// accept any 32-bit pattern; its output is taken as the decoded text.
    pub fn create_address_result<F: Fn(u32) -> String>(
        address: u16,
        value: u16,
        format: &str,
        timestamp: &str,
        error: Option<String>,
        data_type: &str,
        next_value: Option<u16>,
        render_float: F,
    ) -> (r: AddressReadResult)
        requires
            forall|bits: u32| call_requires(render_float, (bits,)),
        ensures
            r.address == address,
            r.timestamp@ == timestamp@,
            r.success == (error is None),
            r.error == error,
            data_type@ == "float32"@ ==> (next_value matches Some(n) ==> (r.raw_value
                == spec_raw32(value, n) && call_ensures(
                render_float,
                (spec_raw32(value, n),),
                r.parsed_value,
            ) && r.data_type@ == "float32"@)),
            data_type@ == "uint32"@ ==> (next_value matches Some(n) ==> (r.raw_value == spec_raw32(
                value,
                n,
            ) && r.parsed_value@ == spec_dec(spec_raw32(value, n) as nat) && r.data_type@
                == "uint32"@)),
            data_type@ == "int32"@ ==> (next_value matches Some(n) ==> (r.raw_value == spec_raw32(
                value,
                n,
            ) && r.parsed_value@ == spec_i32_text(spec_raw32(value, n)) && r.data_type@
                == "int32"@)),
            ((data_type@ == "float32"@ || data_type@ == "uint32"@ || data_type@ == "int32"@)
                && next_value is None) ==> (r.raw_value == value && r.parsed_value@
                == spec_format_value(value, format@) && r.data_type@ == "uint16"@),
            (data_type@ == "int16"@) ==> (r.raw_value == value && r.parsed_value@ == spec_i16_text(
                value,
            ) && r.data_type@ == "int16"@),
            (data_type@ != "float32"@ && data_type@ != "uint32"@ && data_type@ != "int32"@
                && data_type@ != "int16"@) ==> (r.raw_value == value && r.parsed_value@
                == spec_format_value(value, format@) && r.data_type@ == data_type@),
    {
        proof {
            reveal_strlit("float32");
            reveal_strlit("uint32");
            reveal_strlit("int32");
            reveal_strlit("int16");
            reveal_strlit("uint16");
            assert("float32"@.len() == 7 && "uint32"@.len() == 6 && "int32"@.len() == 5
                && "int16"@.len() == 5 && "uint16"@.len() == 6);
            assert("float32"@ != "uint32"@ && "float32"@ != "int32"@ && "float32"@ != "int16"@);
            assert("uint32"@[0] == 'u' && "int32"@[0] == 'i' && "int16"@[0] == 'i');
            assert("uint32"@ != "int32"@ && "uint32"@ != "int16"@);
            assert("int32"@[3] == '3' && "int16"@[3] == '1');
            assert("int32"@ != "int16"@);
        }
        let (raw_value, parsed_value, actual_data_type): (u32, String, String) = if str_eq(
            data_type,
            "float32",
        ) {
            match next_value {
                Some(next) => {
                    let raw = raw32(value, next);
                    (raw, render_float(raw), String::from_str("float32"))
                },
                None => (value as u32, format_value(value, format), String::from_str("uint16")),
            }
        } else if str_eq(data_type, "uint32") {
            match next_value {
                Some(next) => {
                    let raw = raw32(value, next);
                    (raw, u64_to_dec(raw as u64), String::from_str("uint32"))
                },
                None => (value as u32, format_value(value, format), String::from_str("uint16")),
            }
        } else if str_eq(data_type, "int32") {
            match next_value {
                Some(next) => {
                    let raw = raw32(value, next);
                    (raw, i32_text(raw), String::from_str("int32"))
                },
                None => (value as u32, format_value(value, format), String::from_str("uint16")),
            }
        } else if str_eq(data_type, "int16") {
            (value as u32, i16_text(value), String::from_str("int16"))
        } else {
            (value as u32, format_value(value, format), String::from_str(data_type))
        };
        let success = match &error {
            Option::None => true,
            Option::Some(_) => false,
        };
        AddressReadResult {
            address,
            raw_value,
            parsed_value,
            timestamp: String::from_str(timestamp),
            success,
            error,
            data_type: actual_data_type,
        }
    }
}

/// A session is never connected while its state is anything but exactly
/// `Connected`: in particular, never immediately after construction.
pub proof fn lemma_not_connected_unless_connected_state(c: &ModbusClient)
    requires
        !(c.state is Connected),
    ensures
        !c.spec_is_connected(),
{
}

} // verus!
