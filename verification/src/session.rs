//! The session lifecycle: a small closed state machine over the connection
//! mode, with checked resource acquisition and typed error translation.
//!
//! A session owns one connection handle.  The handle is the zero sentinel
//! until a successful connect and again after shutdown.  The mode chosen at
//! construction is fixed and drives exactly one pair of matching
//! connect/disconnect transitions: an embedded session starts the in-process
//! engine and later stops it before the global shutdown; a standalone session
//! connects to an address and later disconnects before the global shutdown.
//!
//! The native calls themselves are performed by an unverified driver.  Each
//! transition here either plans the calls the driver owes (as plain values)
//! or interprets the statuses the driver got back.
use vstd::prelude::*;
use crate::error::DCGMError;
use crate::error::DCGM_ST_OK;
use crate::error::check_status;
use crate::error::spec_error_message;
use crate::parse::parse_u32;
use crate::parse::spec_dec_value;
use crate::parse::spec_parse_u32_ok;
use crate::version::make_version2;
use crate::version::spec_version_tag;

verus! {

/// How a session reaches the native engine.
#[derive(Clone, Copy, Debug, PartialEq, Eq, Structural)]
pub enum Mode {
    /// Run the engine in-process.
    Embedded,
    /// Connect to an engine that already runs elsewhere.
    Standalone,
    /// Placeholder for starting a host engine; never implemented.
    StartHostengine,
}

/// Lifecycle phase of a session.
#[derive(Clone, Copy, Debug, PartialEq, Eq, Structural)]
pub enum SessionState {
    /// Built and validated, not yet connected.
    Created,
    /// Holding a live connection handle.
    Connected,
    /// Shut down; the handle is invalid again.
    Closed,
}

/// Operation mode for an embedded engine: automatic background operation.
pub const DCGM_OPERATION_MODE_AUTO: u32 = 1;

/// Connect timeout baked into every standalone connection, in milliseconds.
pub const CONNECT_TIMEOUT_MS: u32 = 3000000;

/// Byte size of the native connection descriptor: four 32-bit fields.
pub const CONNECT_PARAMS_SIZE: u32 = 16;

/// The connection descriptor handed to a standalone connect call: a version
/// tag, the fixed timeout, a persistence flag and a socket-type flag.
#[derive(Clone, Copy, Debug, PartialEq, Eq, Structural)]
pub struct ConnectParams {
    pub version: u32,
    pub timeoutMs: u32,
    pub persistAfterDisconnect: u32,
    pub addressIsUnixSocket: u32,
}

/// The one native call that establishes a connection, as the chosen mode
/// requires it.
#[derive(Debug)]
pub enum ConnectCall {
    /// Start the in-process engine in the given operation mode.
    StartEmbedded { op_mode: u32 },
    /// Connect to a standalone engine at the given address.
    ConnectRemote { address: String, params: ConnectParams },
}

/// One native call of a shutdown sequence.
#[derive(Clone, Copy, Debug, PartialEq, Eq, Structural)]
pub enum StopCall {
    /// Stop the in-process engine.
    StopEmbedded,
    /// Disconnect from the standalone engine.
    Disconnect,
    /// Shut the native library down globally.
    GlobalShutdown,
}

/// Whether a standalone argument list is well-formed: at least an address and
/// a socket-type flag, each flag a decimal integer, with the optional third
/// argument the persistence flag.
pub open spec fn spec_standalone_args_ok(args: Seq<String>) -> bool {
    &&& args.len() >= 2
    &&& spec_parse_u32_ok(args[1]@)
    &&& args.len() == 3 ==> spec_parse_u32_ok(args[2]@)
}

/// The connection descriptor owed for a standalone argument list.
pub open spec fn spec_connect_params(args: Seq<String>) -> ConnectParams {
    ConnectParams {
        version: spec_version_tag(CONNECT_PARAMS_SIZE, 2),
        timeoutMs: CONNECT_TIMEOUT_MS,
        persistAfterDisconnect: if args.len() == 3 {
            spec_dec_value(args[2]@) as u32
        } else {
            0
        },
        addressIsUnixSocket: spec_dec_value(args[1]@) as u32,
    }
}

/// What a standalone connect plan returns for an argument list: the exact
/// call on well-formed arguments, the exact validation error otherwise.
pub open spec fn standalone_plan_matches(args: Seq<String>, r: Result<
    ConnectCall,
    DCGMError,
>) -> bool {
    &&& (r is Ok <==> spec_standalone_args_ok(args))
    &&& (args.len() < 2 ==> (r matches Err(e) && e.message@
        == "missing dcgm address and / or isUnixSocket"@))
    &&& (args.len() >= 2 && !spec_parse_u32_ok(args[1]@) ==> (r matches Err(e) && e.message@
        == "invalid isUnixSocket argument"@))
    &&& (args.len() == 3 && spec_parse_u32_ok(args[1]@) && !spec_parse_u32_ok(args[2]@)
        ==> (r matches Err(e) && e.message@ == "invalid persistAfterDisconnect argument"@))
    &&& (r matches Ok(call) ==> (call matches ConnectCall::ConnectRemote { address, params }
        && address@ == args[0]@ && params == spec_connect_params(args)))
}

/// What the connect plan returns for a mode and argument list.
pub open spec fn connect_plan_matches(m: Mode, args: Seq<String>, r: Result<
    ConnectCall,
    DCGMError,
>) -> bool {
    match m {
        Mode::Embedded => r matches Ok(c) && (c matches ConnectCall::StartEmbedded { op_mode }
            && op_mode == DCGM_OPERATION_MODE_AUTO),
        Mode::Standalone => standalone_plan_matches(args, r),
        Mode::StartHostengine => r matches Err(e) && e.message@ == "Not implemented"@,
    }
}

/// A session: the mode fixed at construction, the connection handle, and the
/// lifecycle phase.
#[derive(Debug)]
pub struct DcgmLibSafe {
    stop_mode: Mode,
    handle: u64,
    state: SessionState,
}

impl DcgmLibSafe {
    /// The mode fixed at construction.
    pub closed spec fn spec_mode(&self) -> Mode {
        self.stop_mode
    }

    /// The lifecycle phase.
    pub closed spec fn spec_state(&self) -> SessionState {
        self.state
    }

    /// The connection handle.
    pub closed spec fn spec_handle(&self) -> u64 {
        self.handle
    }

    /// Well-formed: the handle is the zero sentinel unless connected.
    pub open spec fn wf(&self) -> bool {
        self.spec_state() != SessionState::Connected ==> self.spec_handle() == 0
    }

    /// The mode this session was built with.
    pub fn mode(&self) -> (r: Mode)
        ensures
            r == self.spec_mode(),
    {
        self.stop_mode
    }

    /// The connection handle the driver passes to every native call.
    pub fn handle(&self) -> (r: u64)
        ensures
            r == self.spec_handle(),
    {
        self.handle
    }

    /// Whether the session currently holds a live connection.
    pub fn is_connected(&self) -> (r: bool)
        ensures
            r == (self.spec_state() == SessionState::Connected),
    {
        match self.state {
            SessionState::Connected => true,
            _ => false,
        }
    }

    /// Validates the mode and arguments and returns the new session together
    /// with the connect call the driver owes.  The session starts unconnected
    /// with the zero sentinel handle; it becomes connected only through
    /// [`DcgmLibSafe::completeConnect`].  No call is owed on a validation
    /// failure.
    pub fn new(m: Mode, args: &Vec<String>) -> (r: Result<(DcgmLibSafe, ConnectCall), DCGMError>)
        ensures
            r matches Ok(p) ==> {
                &&& p.0.wf()
                &&& p.0.spec_mode() == m
                &&& p.0.spec_state() == SessionState::Created
                &&& p.0.spec_handle() == 0
                &&& connect_plan_matches(m, args@, Ok(p.1))
            },
            r matches Err(e) ==> connect_plan_matches(m, args@, Err(e)),
    {
        match Self::connectToDcgm(m, args) {
            Ok(call) => Ok(
                (DcgmLibSafe { stop_mode: m, handle: 0, state: SessionState::Created }, call),
            ),
            Err(e) => Err(e),
        }
    }

    /// Dispatches on the connection mode: embedded sessions start the
    /// in-process engine, standalone sessions connect to an address, and the
    /// host-engine placeholder always fails.
    pub fn connectToDcgm(m: Mode, args: &Vec<String>) -> (r: Result<ConnectCall, DCGMError>)
        ensures
            connect_plan_matches(m, args@, r),
    {
        match m {
            Mode::Embedded => Ok(Self::startEmbedded()),
            Mode::Standalone => Self::connectStandalone(args),
            Mode::StartHostengine => Err(DCGMError::from_text("Not implemented")),
        }
    }

    /// The embedded connect call: start the in-process engine in automatic
    /// operation mode.
    pub fn startEmbedded() -> (r: ConnectCall)
        ensures
            r matches ConnectCall::StartEmbedded { op_mode } && op_mode
                == DCGM_OPERATION_MODE_AUTO,
    {
        ConnectCall::StartEmbedded { op_mode: DCGM_OPERATION_MODE_AUTO }
    }

    /// The standalone connect call: fails with a validation error when fewer
    /// than two arguments are given or a flag does not parse; otherwise
    /// builds the connection descriptor around the supplied address.
    pub fn connectStandalone(args: &Vec<String>) -> (r: Result<ConnectCall, DCGMError>)
        ensures
            standalone_plan_matches(args@, r),
    {
        if args.len() < 2 {
            return Err(DCGMError::from_text("missing dcgm address and / or isUnixSocket"));
        }
        let address_is_unix_socket = match parse_u32(args[1].as_str()) {
            Some(v) => v,
            None => {
                return Err(DCGMError::from_text("invalid isUnixSocket argument"));
            },
        };
        let persist_after_disconnect: u32 = if args.len() == 3 {
            match parse_u32(args[2].as_str()) {
                Some(v) => v,
                None => {
                    return Err(DCGMError::from_text("invalid persistAfterDisconnect argument"));
                },
            }
        } else {
            0
        };
        let params = ConnectParams {
            version: make_version2(CONNECT_PARAMS_SIZE),
            timeoutMs: CONNECT_TIMEOUT_MS,
            persistAfterDisconnect: persist_after_disconnect,
            addressIsUnixSocket: address_is_unix_socket,
        };
        Ok(ConnectCall::ConnectRemote { address: args[0].clone(), params })
    }

    /// Applies the outcome of the connect call: on the success status the
    /// session becomes connected and records the handle the native library
    /// assigned; on any other status the translated error comes back and the
    /// session is unchanged.
    pub fn completeConnect(&mut self, code: i32, native: Option<String>, handle: u64) -> (r:
        Result<(), DCGMError>)
        requires
            old(self).spec_state() == SessionState::Created,
            old(self).wf(),
        ensures
            final(self).wf(),
            final(self).spec_mode() == old(self).spec_mode(),
            r is Ok <==> code == DCGM_ST_OK,
            code == DCGM_ST_OK ==> final(self).spec_state() == SessionState::Connected
                && final(self).spec_handle() == handle,
            code != DCGM_ST_OK ==> *final(self) == *old(self),
            r matches Err(e) ==> e.message@ == spec_error_message(
                code as int,
                native.deep_view(),
            ),
    {
        match check_status(code, native) {
            Ok(u) => {
                self.handle = handle;
                self.state = SessionState::Connected;
                Ok(u)
            },
            Err(e) => Err(e),
        }
    }

    /// The embedded stop sequence: stop the in-process engine, then shut the
    /// library down globally.
    pub fn stopEmbedded(&self) -> (r: Vec<StopCall>)
        ensures
            r@ =~= seq![StopCall::StopEmbedded, StopCall::GlobalShutdown],
    {
        let mut calls: Vec<StopCall> = Vec::new();
        calls.push(StopCall::StopEmbedded);
        calls.push(StopCall::GlobalShutdown);
        calls
    }

    /// The standalone stop sequence: disconnect, then shut the library down
    /// globally.
    pub fn disconnectStandalone(&self) -> (r: Vec<StopCall>)
        ensures
            r@ =~= seq![StopCall::Disconnect, StopCall::GlobalShutdown],
    {
        let mut calls: Vec<StopCall> = Vec::new();
        calls.push(StopCall::Disconnect);
        calls.push(StopCall::GlobalShutdown);
        calls
    }

    /// Dispatches the stop sequence owed for the mode fixed at construction:
    /// embedded sessions stop the in-process engine and then shut down
    /// globally, standalone sessions disconnect and then shut down globally,
    /// and the host-engine placeholder always fails.
    pub fn shutdown(&self) -> (r: Result<Vec<StopCall>, DCGMError>)
        ensures
            self.spec_mode() == Mode::Embedded ==> (r matches Ok(calls) && calls@ =~= seq![
                StopCall::StopEmbedded,
                StopCall::GlobalShutdown,
            ]),
            self.spec_mode() == Mode::Standalone ==> (r matches Ok(calls) && calls@ =~= seq![
                StopCall::Disconnect,
                StopCall::GlobalShutdown,
            ]),
            self.spec_mode() == Mode::StartHostengine ==> (r matches Err(e) && e.message@
                == "Not implemented"@),
    {
        match self.stop_mode {
            Mode::Embedded => Ok(self.stopEmbedded()),
            Mode::Standalone => Ok(self.disconnectStandalone()),
            Mode::StartHostengine => Err(DCGMError::from_text("Not implemented")),
        }
    }

    /// Applies the outcome of a stop sequence.  The first status is from the
    /// mode's own stop call; the second is from the global shutdown, which
    /// the driver makes only when the first call succeeded.  On full success
    /// the session is closed and the handle returns to the zero sentinel; on
    /// failure the translated error of whichever call failed comes back and
    /// the session is unchanged.
    pub fn completeShutdown(
        &mut self,
        first_code: i32,
        first_native: Option<String>,
        second: Option<(i32, Option<String>)>,
    ) -> (r: Result<(), DCGMError>)
        requires
            old(self).wf(),
            second is Some <==> first_code == DCGM_ST_OK,
        ensures
            final(self).wf(),
            final(self).spec_mode() == old(self).spec_mode(),
            r is Ok <==> (first_code == DCGM_ST_OK && second is Some && second.unwrap().0
                == DCGM_ST_OK),
            r is Ok ==> final(self).spec_state() == SessionState::Closed
                && final(self).spec_handle() == 0,
            !(r is Ok) ==> *final(self) == *old(self),
            first_code != DCGM_ST_OK ==> (r matches Err(e) && e.message@ == spec_error_message(
                first_code as int,
                first_native.deep_view(),
            )),
            first_code == DCGM_ST_OK && second is Some && second.unwrap().0 != DCGM_ST_OK
                ==> (r matches Err(e) && e.message@ == spec_error_message(
                second.unwrap().0 as int,
                second.unwrap().1.deep_view(),
            )),
    {
        match check_status(first_code, first_native) {
            Err(e) => Err(e),
            Ok(_) => match second {
                Some((second_code, second_native)) => match check_status(
                    second_code,
                    second_native,
                ) {
                    Err(e) => Err(e),
                    Ok(u) => {
                        self.state = SessionState::Closed;
                        self.handle = 0;
                        Ok(u)
                    },
                },
                None => vstd::pervasive::unreached(),
            },
        }
    }
}

} // verus!
