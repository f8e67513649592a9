//! The protocol engine: command construction, response validation, typed
//! value decoding, and the dispatch of subscription results into per-domain
//! caches.
//!
//! The engine performs no I/O. A command is built into the output buffer (or
//! returned as a message); the caller frames and sends it, receives one frame,
//! and hands the payload back to the matching `*_response` function.
use vstd::prelude::*;
use vstd::hash_map::StringHashMap;
use std::collections::HashMap;
use crate::constants::{
    CMD_CLOSE, CMD_GETVERSION, INVALID_DOUBLE_VALUE, CMD_LOAD, CMD_SETORDER, CMD_SIMSTEP, POSITION_2D, POSITION_3D,
    RESPONSE_SUBSCRIBE_EDGE_VARIABLE, RESPONSE_SUBSCRIBE_GUI_VARIABLE,
    RESPONSE_SUBSCRIBE_INDUCTIONLOOP_VARIABLE, RESPONSE_SUBSCRIBE_JUNCTION_VARIABLE,
    RESPONSE_SUBSCRIBE_LANEAREA_VARIABLE, RESPONSE_SUBSCRIBE_LANE_VARIABLE,
    RESPONSE_SUBSCRIBE_MULTIENTRYEXIT_VARIABLE, RESPONSE_SUBSCRIBE_PERSON_VARIABLE,
    RESPONSE_SUBSCRIBE_POI_VARIABLE, RESPONSE_SUBSCRIBE_POLYGON_VARIABLE,
    RESPONSE_SUBSCRIBE_REROUTER_VARIABLE, RESPONSE_SUBSCRIBE_ROUTEPROBE_VARIABLE,
    RESPONSE_SUBSCRIBE_ROUTE_VARIABLE, RESPONSE_SUBSCRIBE_SIM_VARIABLE,
    RESPONSE_SUBSCRIBE_TL_VARIABLE, RESPONSE_SUBSCRIBE_VEHICLETYPE_VARIABLE,
    RESPONSE_SUBSCRIBE_VEHICLE_VARIABLE, RTYPE_ERR, RTYPE_NOTIMPLEMENTED, RTYPE_OK, TYPE_COLOR,
    TYPE_DOUBLE, TYPE_DOUBLELIST, TYPE_INTEGER, TYPE_STRING, TYPE_STRINGLIST, TYPE_UBYTE,
    VAR_ACCELERATION, VAR_ANGLE, VAR_POSITION, VAR_SPEED,
};
use crate::error::TraciError;
use crate::storage::{
    enc_f64, enc_i32, enc_string, enc_string_list, lemma_f64_round_trip, lemma_window, parse_f64,
    parse_f64_list, parse_i32, parse_string, parse_string_list, parse_u8, string_fits, strings_view, Storage,
};
use vstd::utf8::encode_utf8;
use crate::types::{
    ctx_model, parse_value, results_model, subs_model, ContextSubscriptionResults, SubscriptionResults, TraciColor,
    SubscribedKinematics, TraciPosition, TraciResults, TraciValue, ValueModel,
};

verus! {

broadcast use vstd::std_specs::hash::group_hash_axioms;

// ---------------------------------------------------------------------------
// Response headers
// ---------------------------------------------------------------------------

/// A result-status block at byte `p`: a length byte, the echoed command id,
/// the result type and a message; then the position after it.
pub open spec fn parse_status(b: Seq<u8>, p: int) -> Option<(u8, u8, Seq<char>, int)> {
    match parse_u8(b, p) {
        Some((_len, p1)) => match parse_u8(b, p1) {
            Some((cmd, p2)) => match parse_u8(b, p2) {
                Some((rtype, p3)) => match parse_string(b, p3) {
                    Some((msg, p4)) => Some((cmd, rtype, msg, p4)),
                    None => None,
                },
                None => None,
            },
            None => None,
        },
        None => None,
    }
}

/// Whether the status block at `p` reports success for `command` (any command
/// when `ignore_command_id`).
pub open spec fn status_ok(b: Seq<u8>, p: int, command: u8, ignore_command_id: bool) -> bool {
    match parse_status(b, p) {
        Some((c, t, _m, _q)) => (ignore_command_id || c == command) && t == RTYPE_OK,
        None => false,
    }
}

/// The position right after the status block at `p`.
pub open spec fn status_end(b: Seq<u8>, p: int) -> int {
    match parse_status(b, p) {
        Some((_c, _t, _m, q)) => q,
        None => p,
    }
}

/// What a result-status check returns on the bytes `b` from `p`.
pub open spec fn status_result_ok(
    b: Seq<u8>,
    p: int,
    command: u8,
    ignore_command_id: bool,
    r: Result<(), TraciError>,
) -> bool {
    match parse_status(b, p) {
        Some((c, t, m, _q)) => if !ignore_command_id && c != command {
            r matches Err(e) && e.is_protocol()
        } else if t == RTYPE_OK {
            r is Ok
        } else if t == RTYPE_NOTIMPLEMENTED {
            r matches Err(TraciError::NotImplemented(x)) && x@ == m
        } else if t == RTYPE_ERR {
            r matches Err(TraciError::SimulationError(x)) && x@ == m
        } else {
            r matches Err(e) && e.is_protocol()
        },
        None => r matches Err(e) && e.is_protocol(),
    }
}

/// The id of the response to a get command.
pub open spec fn response_id(command: u8) -> u8 {
    ((command as int + 0x10) % 256) as u8
}

/// The head of a command response at `p`: a length byte (a zero byte followed
/// by an `i32` length in the extended form) and the command id; then the
/// position after it.
pub open spec fn parse_response_head(b: Seq<u8>, p: int) -> Option<(u8, int)> {
    match parse_u8(b, p) {
        Some((len, p1)) => {
            let p2 = if len == 0 {
                match parse_i32(b, p1) {
                    Some((_l, q)) => q,
                    None => -1,
                }
            } else {
                p1
            };
            parse_u8(b, p2)
        },
        None => None,
    }
}

/// The echo that follows the head of a typed get response at `p`: the
/// variable id, the object id and the value type tag; then the position after.
pub open spec fn parse_value_echo(b: Seq<u8>, p: int) -> Option<(u8, Seq<char>, u8, int)> {
    match parse_u8(b, p) {
        Some((var, p1)) => match parse_string(b, p1) {
            Some((obj, p2)) => match parse_u8(b, p2) {
                Some((tag, p3)) => Some((var, obj, tag, p3)),
                None => None,
            },
            None => None,
        },
        None => None,
    }
}

/// What a get-response header check returns on the bytes `b` from `p`, and
/// where it leaves the cursor (`q`) when it succeeds.
pub open spec fn get_result_ok(
    b: Seq<u8>,
    p: int,
    command: u8,
    expected_type: Option<u8>,
    ignore_command_id: bool,
    r: Result<u8, TraciError>,
    q: int,
) -> bool {
    match parse_response_head(b, p) {
        Some((c, p1)) => if !ignore_command_id && c != response_id(command) {
            r matches Err(e) && e.is_protocol()
        } else {
            match expected_type {
                None => r == Ok::<u8, TraciError>(c) && q == p1,
                Some(t) => match parse_value_echo(b, p1) {
                    Some((_v, _o, tag, p2)) => if tag == t {
                        r == Ok::<u8, TraciError>(c) && q == p2
                    } else {
                        r matches Err(e) && e.is_protocol()
                    },
                    None => r matches Err(e) && e.is_protocol(),
                },
            }
        },
        None => r matches Err(e) && e.is_protocol(),
    }
}

// ---------------------------------------------------------------------------
// Subscription bodies
// ---------------------------------------------------------------------------

/// One subscribed variable at `p`: its id, a status byte, a type tag and the
/// value; `None` unless the status is success and the value decodes.
pub open spec fn parse_var(b: Seq<u8>, p: int) -> Option<(u8, ValueModel, int)> {
    match parse_u8(b, p) {
        Some((id, p1)) => match parse_u8(b, p1) {
            Some((status, p2)) => match parse_u8(b, p2) {
                Some((tag, p3)) => if status != RTYPE_OK {
                    None
                } else {
                    match parse_value(b, p3, tag) {
                        Some((v, q)) => Some((id, v, q)),
                        None => None,
                    }
                },
                None => None,
            },
            None => None,
        },
        None => None,
    }
}

/// `n` subscribed variables from `p`, collected by id (a later one replaces
/// an earlier one with the same id).
pub open spec fn parse_vars(b: Seq<u8>, p: int, n: nat) -> Option<(Map<u8, ValueModel>, int)>
    decreases n,
{
    if n == 0 {
        Some((Map::empty(), p))
    } else {
        match parse_vars(b, p, (n - 1) as nat) {
            Some((m, q)) => match parse_var(b, q) {
                Some((id, v, r)) => Some((m.insert(id, v), r)),
                None => None,
            },
            None => None,
        }
    }
}

// ---------------------------------------------------------------------------
// Commands
// ---------------------------------------------------------------------------

/// The length header of a command whose body (header excluded) is `len`
/// bytes: one byte when `len` fits in 255, else a zero byte and an `i32`
/// length that counts its own four bytes too.
pub open spec fn length_header(len: int) -> Seq<u8> {
    if len <= 255 {
        seq![len as u8]
    } else {
        seq![0u8] + enc_i32((len + 4) as i32)
    }
}

/// Length of a get/set command body: length byte, command id, variable id,
/// the object id as a string, and the extra payload.
pub open spec fn command_len(obj: Seq<char>, extra: Seq<u8>) -> int {
    (1 + 1 + 1 + 4 + encode_utf8(obj).len() + extra.len()) as int
}

/// A get/set command addressed to object `obj`, with `extra` after it.
pub open spec fn command_bytes(cmd: u8, var: u8, obj: Seq<char>, extra: Seq<u8>) -> Seq<u8> {
    length_header(command_len(obj, extra)) + seq![cmd, var] + enc_string(obj) + extra
}

/// A subscription-filter command: no object id.
pub open spec fn filter_command_bytes(cmd: u8, filter_type: u8, extra: Seq<u8>) -> Seq<u8> {
    length_header((1 + 1 + 1 + extra.len()) as int) + seq![cmd, filter_type] + extra
}

/// Whether a command whose body is `len` bytes can carry its length.
pub open spec fn command_fits(len: nat) -> bool {
    len + 4 <= i32::MAX
}

/// The set-order command.
pub open spec fn set_order_bytes(order: i32) -> Seq<u8> {
    seq![6u8, CMD_SETORDER] + enc_i32(order)
}

/// The step command, with the target time as a double bit pattern.
pub open spec fn simulation_step_bytes(time: u64) -> Seq<u8> {
    seq![10u8, CMD_SIMSTEP] + enc_f64(time)
}

/// The load command: the arguments as a string list, in the extended form.
pub open spec fn load_bytes(args: Seq<Seq<char>>) -> Seq<u8> {
    seq![0u8] + enc_i32((7 + enc_string_list(args).len()) as i32) + seq![
        CMD_LOAD,
        TYPE_STRINGLIST,
    ] + enc_string_list(args)
}

/// A command of a single id and no body.
pub open spec fn bare_command_bytes(cmd: u8) -> Seq<u8> {
    seq![2u8, cmd]
}

/// Bytes of a subscription's variable list: a count byte, then each id.
pub open spec fn var_list_bytes(vars: Seq<u8>) -> Seq<u8> {
    seq![vars.len() as u8] + vars
}

/// A variable-subscription command.
pub open spec fn subscribe_variable_bytes(
    dom: u8,
    obj: Seq<char>,
    begin: u64,
    end: u64,
    vars: Seq<u8>,
) -> Seq<u8> {
    seq![0u8] + enc_i32((5 + 1 + 8 + 8 + 4 + encode_utf8(obj).len() + 1 + vars.len()) as i32)
        + seq![dom] + enc_f64(begin) + enc_f64(end) + enc_string(obj) + var_list_bytes(vars)
}

/// A context-subscription command.
pub open spec fn subscribe_context_bytes(
    dom: u8,
    obj: Seq<char>,
    begin: u64,
    end: u64,
    domain: u8,
    range: u64,
    vars: Seq<u8>,
) -> Seq<u8> {
    seq![0u8] + enc_i32(
        (5 + 1 + 8 + 8 + 4 + encode_utf8(obj).len() + 1 + 8 + 1 + vars.len()) as i32,
    ) + seq![dom] + enc_f64(begin) + enc_f64(end) + enc_string(obj) + seq![domain] + enc_f64(
        range,
    ) + var_list_bytes(vars)
}

/// The version response that follows the status block at `p`: a length
/// byte, the echoed id, the protocol version and the server's version text.
pub open spec fn parse_version(b: Seq<u8>, p: int) -> Option<(i32, Seq<char>, int)> {
    match parse_u8(b, p) {
        Some((_len, p1)) => match parse_u8(b, p1) {
            Some((_cmd, p2)) => match parse_i32(b, p2) {
                Some((v, p3)) => match parse_string(b, p3) {
                    Some((s, p4)) => Some((v, s, p4)),
                    None => None,
                },
                None => None,
            },
            None => None,
        },
        None => None,
    }
}

/// The unit result of a check that returns a value.
pub open spec fn without_value<T>(r: Result<T, TraciError>) -> Result<(), TraciError> {
    match r {
        Ok(_) => Ok(()),
        Err(e) => Err(e),
    }
}

// ---------------------------------------------------------------------------
// Domains
// ---------------------------------------------------------------------------

/// Number of object domains.
pub const NUM_DOMAINS: usize = 17;

/// An object domain; routes pushed subscription results to its caches.
#[derive(Debug, Clone, Copy, PartialEq, Eq, Structural, Hash)]
pub enum DomainId {
    Edge,
    Gui,
    InductionLoop,
    Junction,
    Lane,
    LaneArea,
    MultiEntryExit,
    Person,
    Poi,
    Polygon,
    Rerouter,
    Route,
    RouteProbe,
    Simulation,
    TrafficLight,
    Vehicle,
    VehicleType,
}

impl DomainId {
    /// The position of the domain's caches in the client.
    pub open spec fn spec_index(self) -> int {
        match self {
            DomainId::Edge => 0,
            DomainId::Gui => 1,
            DomainId::InductionLoop => 2,
            DomainId::Junction => 3,
            DomainId::Lane => 4,
            DomainId::LaneArea => 5,
            DomainId::MultiEntryExit => 6,
            DomainId::Person => 7,
            DomainId::Poi => 8,
            DomainId::Polygon => 9,
            DomainId::Rerouter => 10,
            DomainId::Route => 11,
            DomainId::RouteProbe => 12,
            DomainId::Simulation => 13,
            DomainId::TrafficLight => 14,
            DomainId::Vehicle => 15,
            DomainId::VehicleType => 16,
        }
    }

    /// The position of the domain's caches in the client.
    pub fn index(self) -> (r: usize)
        ensures
            r == self.spec_index(),
            r < NUM_DOMAINS,
    {
        match self {
            DomainId::Edge => 0,
            DomainId::Gui => 1,
            DomainId::InductionLoop => 2,
            DomainId::Junction => 3,
            DomainId::Lane => 4,
            DomainId::LaneArea => 5,
            DomainId::MultiEntryExit => 6,
            DomainId::Person => 7,
            DomainId::Poi => 8,
            DomainId::Polygon => 9,
            DomainId::Rerouter => 10,
            DomainId::Route => 11,
            DomainId::RouteProbe => 12,
            DomainId::Simulation => 13,
            DomainId::TrafficLight => 14,
            DomainId::Vehicle => 15,
            DomainId::VehicleType => 16,
        }
    }

    /// The domain whose variable-subscription responses carry id `cmd`.
    pub open spec fn spec_from_response(cmd: u8) -> Option<DomainId> {
        if cmd == RESPONSE_SUBSCRIBE_EDGE_VARIABLE {
            Some(DomainId::Edge)
        } else if cmd == RESPONSE_SUBSCRIBE_GUI_VARIABLE {
            Some(DomainId::Gui)
        } else if cmd == RESPONSE_SUBSCRIBE_INDUCTIONLOOP_VARIABLE {
            Some(DomainId::InductionLoop)
        } else if cmd == RESPONSE_SUBSCRIBE_JUNCTION_VARIABLE {
            Some(DomainId::Junction)
        } else if cmd == RESPONSE_SUBSCRIBE_LANE_VARIABLE {
            Some(DomainId::Lane)
        } else if cmd == RESPONSE_SUBSCRIBE_LANEAREA_VARIABLE {
            Some(DomainId::LaneArea)
        } else if cmd == RESPONSE_SUBSCRIBE_MULTIENTRYEXIT_VARIABLE {
            Some(DomainId::MultiEntryExit)
        } else if cmd == RESPONSE_SUBSCRIBE_PERSON_VARIABLE {
            Some(DomainId::Person)
        } else if cmd == RESPONSE_SUBSCRIBE_POI_VARIABLE {
            Some(DomainId::Poi)
        } else if cmd == RESPONSE_SUBSCRIBE_POLYGON_VARIABLE {
            Some(DomainId::Polygon)
        } else if cmd == RESPONSE_SUBSCRIBE_REROUTER_VARIABLE {
            Some(DomainId::Rerouter)
        } else if cmd == RESPONSE_SUBSCRIBE_ROUTE_VARIABLE {
            Some(DomainId::Route)
        } else if cmd == RESPONSE_SUBSCRIBE_ROUTEPROBE_VARIABLE {
            Some(DomainId::RouteProbe)
        } else if cmd == RESPONSE_SUBSCRIBE_SIM_VARIABLE {
            Some(DomainId::Simulation)
        } else if cmd == RESPONSE_SUBSCRIBE_TL_VARIABLE {
            Some(DomainId::TrafficLight)
        } else if cmd == RESPONSE_SUBSCRIBE_VEHICLE_VARIABLE {
            Some(DomainId::Vehicle)
        } else if cmd == RESPONSE_SUBSCRIBE_VEHICLETYPE_VARIABLE {
            Some(DomainId::VehicleType)
        } else {
            None
        }
    }

    /// The domain whose variable-subscription responses carry id `cmd`, if any.
    pub fn from_response(cmd: u8) -> (r: Option<DomainId>)
        ensures
            r == DomainId::spec_from_response(cmd),
    {
        if cmd == RESPONSE_SUBSCRIBE_EDGE_VARIABLE {
            Some(DomainId::Edge)
        } else if cmd == RESPONSE_SUBSCRIBE_GUI_VARIABLE {
            Some(DomainId::Gui)
        } else if cmd == RESPONSE_SUBSCRIBE_INDUCTIONLOOP_VARIABLE {
            Some(DomainId::InductionLoop)
        } else if cmd == RESPONSE_SUBSCRIBE_JUNCTION_VARIABLE {
            Some(DomainId::Junction)
        } else if cmd == RESPONSE_SUBSCRIBE_LANE_VARIABLE {
            Some(DomainId::Lane)
        } else if cmd == RESPONSE_SUBSCRIBE_LANEAREA_VARIABLE {
            Some(DomainId::LaneArea)
        } else if cmd == RESPONSE_SUBSCRIBE_MULTIENTRYEXIT_VARIABLE {
            Some(DomainId::MultiEntryExit)
        } else if cmd == RESPONSE_SUBSCRIBE_PERSON_VARIABLE {
            Some(DomainId::Person)
        } else if cmd == RESPONSE_SUBSCRIBE_POI_VARIABLE {
            Some(DomainId::Poi)
        } else if cmd == RESPONSE_SUBSCRIBE_POLYGON_VARIABLE {
            Some(DomainId::Polygon)
        } else if cmd == RESPONSE_SUBSCRIBE_REROUTER_VARIABLE {
            Some(DomainId::Rerouter)
        } else if cmd == RESPONSE_SUBSCRIBE_ROUTE_VARIABLE {
            Some(DomainId::Route)
        } else if cmd == RESPONSE_SUBSCRIBE_ROUTEPROBE_VARIABLE {
            Some(DomainId::RouteProbe)
        } else if cmd == RESPONSE_SUBSCRIBE_SIM_VARIABLE {
            Some(DomainId::Simulation)
        } else if cmd == RESPONSE_SUBSCRIBE_TL_VARIABLE {
            Some(DomainId::TrafficLight)
        } else if cmd == RESPONSE_SUBSCRIBE_VEHICLE_VARIABLE {
            Some(DomainId::Vehicle)
        } else if cmd == RESPONSE_SUBSCRIBE_VEHICLETYPE_VARIABLE {
            Some(DomainId::VehicleType)
        } else {
            None
        }
    }
}

// ---------------------------------------------------------------------------
// Header checks and value decoding
// ---------------------------------------------------------------------------

/// Checks a result-status block read from `in_msg`.
///
/// Succeeds when the echoed id is `command` (or `ignore_command_id`) and the
/// result type is success; the server's not-implemented and error reports come
/// back as `NotImplemented` and `SimulationError` with the server's message;
/// anything else is a `Protocol` error.
pub fn check_result_state(in_msg: &mut Storage, command: u8, ignore_command_id: bool) -> (r:
    Result<(), TraciError>)
    ensures
        status_result_ok(old(in_msg)@, old(in_msg).cursor(), command, ignore_command_id, r),
        r is Ok ==> final(in_msg).cursor() == status_end(old(in_msg)@, old(in_msg).cursor()),
        final(in_msg)@ == old(in_msg)@,
{
    let _cmd_len = in_msg.read_u8()?;
    let cmd_id = in_msg.read_u8()?;
    if !ignore_command_id && cmd_id != command {
        return Err(TraciError::protocol("Received status for an unexpected command"));
    }
    let result_type = in_msg.read_u8()?;
    let msg = in_msg.read_string()?;
    if result_type == RTYPE_OK {
        Ok(())
    } else if result_type == RTYPE_NOTIMPLEMENTED {
        Err(TraciError::NotImplemented(msg))
    } else if result_type == RTYPE_ERR {
        Err(TraciError::SimulationError(msg))
    } else {
        Err(TraciError::protocol("Unknown result type"))
    }
}

/// Checks the header of a get response read from `in_msg` and returns the
/// response's command id.
///
/// Unless `ignore_command_id`, the id must be `command + 0x10`. With an
/// `expected_type`, the variable-id and object-id echo are skipped and the
/// value type tag must equal it.
pub fn check_command_get_result(
    in_msg: &mut Storage,
    command: u8,
    expected_type: Option<u8>,
    ignore_command_id: bool,
) -> (r: Result<u8, TraciError>)
    ensures
        get_result_ok(
            old(in_msg)@,
            old(in_msg).cursor(),
            command,
            expected_type,
            ignore_command_id,
            r,
            final(in_msg).cursor(),
        ),
        final(in_msg)@ == old(in_msg)@,
{
    let length = in_msg.read_u8()?;
    if length == 0 {
        let _ext = in_msg.read_i32()?;
    }
    let cmd_id = in_msg.read_u8()?;
    if !ignore_command_id && cmd_id != command.wrapping_add(0x10) {
        return Err(TraciError::protocol("Received response for an unexpected command"));
    }
    match expected_type {
        Some(exp_type) => {
            let _var = in_msg.read_u8()?;
            let _obj = in_msg.read_string()?;
            let value_type = in_msg.read_u8()?;
            if value_type != exp_type {
                return Err(TraciError::protocol("Unexpected value type"));
            }
            Ok(cmd_id)
        },
        None => Ok(cmd_id),
    }
}

/// Decodes one value of kind `type_id` (its tag already read).
///
/// Doubles, integers, strings, string and double lists, colours, 2-D and 3-D
/// positions, and unsigned bytes (widened to `Int`) are decoded; any other tag
/// is refused with a `Protocol` error, since its length is unknown.
pub fn read_typed_value(in_msg: &mut Storage, type_id: u8) -> (r: Result<TraciValue, TraciError>)
    ensures
        match parse_value(old(in_msg)@, old(in_msg).cursor(), type_id) {
            Some((v, q)) => r matches Ok(x) && x@ == v && final(in_msg).cursor() == q,
            None => r matches Err(e) && e.is_protocol(),
        },
        final(in_msg)@ == old(in_msg)@,
{
    if type_id == TYPE_DOUBLE {
        Ok(TraciValue::Double(in_msg.read_f64()?))
    } else if type_id == TYPE_INTEGER {
        Ok(TraciValue::Int(in_msg.read_i32()?))
    } else if type_id == TYPE_STRING {
        Ok(TraciValue::String(in_msg.read_string()?))
    } else if type_id == TYPE_STRINGLIST {
        Ok(TraciValue::StringList(in_msg.read_string_list()?))
    } else if type_id == TYPE_DOUBLELIST {
        Ok(TraciValue::DoubleList(in_msg.read_f64_list()?))
    } else if type_id == TYPE_COLOR {
        let r = in_msg.read_u8()?;
        let g = in_msg.read_u8()?;
        let b = in_msg.read_u8()?;
        let a = in_msg.read_u8()?;
        Ok(TraciValue::Color(TraciColor::new(r, g, b, a)))
    } else if type_id == POSITION_2D {
        let x = in_msg.read_f64()?;
        let y = in_msg.read_f64()?;
        Ok(TraciValue::Pos2D { x, y })
    } else if type_id == POSITION_3D {
        let x = in_msg.read_f64()?;
        let y = in_msg.read_f64()?;
        let z = in_msg.read_f64()?;
        Ok(TraciValue::Pos3D { x, y, z })
    } else if type_id == TYPE_UBYTE {
        Ok(TraciValue::Int(in_msg.read_u8()? as i32))
    } else {
        Err(TraciError::protocol("Unknown value type"))
    }
}

/// Decodes `var_count` subscribed variables, each an id, a status byte, a type
/// tag and a value. A status other than success is a `Protocol` error.
pub fn read_variables(in_msg: &mut Storage, var_count: usize) -> (r: Result<
    TraciResults,
    TraciError,
>)
    ensures
        match parse_vars(old(in_msg)@, old(in_msg).cursor(), var_count as nat) {
            Some((m, q)) => r matches Ok(x) && results_model(x@) == m && final(in_msg).cursor()
                == q,
            None => r matches Err(e) && e.is_protocol(),
        },
        final(in_msg)@ == old(in_msg)@,
{
    let ghost b = in_msg@;
    let ghost p0 = in_msg.cursor();
    let mut results: TraciResults = HashMap::new();
    let mut i: usize = 0;
    while i < var_count
        invariant
            i <= var_count,
            in_msg@ == b,
            b == old(in_msg)@,
            p0 == old(in_msg).cursor(),
            parse_vars(b, p0, i as nat) == Some((results_model(results@), in_msg.cursor())),
        decreases var_count - i,
    {
        let var_id = match in_msg.read_u8() {
            Ok(v) => v,
            Err(e) => {
                proof {
                    lemma_parse_vars_none_from(b, p0, (i + 1) as nat, var_count as nat);
                }
                return Err(e);
            },
        };
        let status = match in_msg.read_u8() {
            Ok(v) => v,
            Err(e) => {
                proof {
                    lemma_parse_vars_none_from(b, p0, (i + 1) as nat, var_count as nat);
                }
                return Err(e);
            },
        };
        let type_id = match in_msg.read_u8() {
            Ok(v) => v,
            Err(e) => {
                proof {
                    lemma_parse_vars_none_from(b, p0, (i + 1) as nat, var_count as nat);
                }
                return Err(e);
            },
        };
        if status != RTYPE_OK {
            proof {
                lemma_parse_vars_none_from(b, p0, (i + 1) as nat, var_count as nat);
            }
            return Err(TraciError::protocol("A subscribed variable reported a failure"));
        }
        let value = match read_typed_value(in_msg, type_id) {
            Ok(v) => v,
            Err(e) => {
                proof {
                    lemma_parse_vars_none_from(b, p0, (i + 1) as nat, var_count as nat);
                }
                return Err(e);
            },
        };
        let ghost before = results@;
        let ghost vm = value@;
        results.insert(var_id, value);
        proof {
            assert(results_model(results@) =~= results_model(before).insert(var_id, vm));
        }
        i = i + 1;
    }
    Ok(results)
}

proof fn lemma_parse_vars_none_from(b: Seq<u8>, p: int, k: nat, n: nat)
    requires
        parse_vars(b, p, k) is None,
        k <= n,
    ensures
        parse_vars(b, p, n) is None,
    decreases n - k,
{
    if k < n {
        lemma_parse_vars_none_from(b, p, k, (n - 1) as nat);
    }
}

// ---------------------------------------------------------------------------
// Subscription dispatch
// ---------------------------------------------------------------------------

/// The content of one domain's caches.
pub struct ScopeModel {
    pub vars: Map<Seq<char>, Map<u8, ValueModel>>,
    pub ctx: Map<Seq<char>, Map<Seq<char>, Map<u8, ValueModel>>>,
}

/// Caches that hold nothing.
pub open spec fn empty_scope() -> ScopeModel {
    ScopeModel { vars: Map::empty(), ctx: Map::empty() }
}

/// The content of a domain's caches.
pub open spec fn scope_model(s: &ScopeData) -> ScopeModel {
    ScopeModel {
        vars: subs_model(s.subscription_results@),
        ctx: ctx_model(s.context_subscription_results@),
    }
}

/// A variable-subscription body at `p`: the object id, a variable count and
/// the variables.
pub open spec fn parse_var_sub(b: Seq<u8>, p: int) -> Option<(Seq<char>, Map<u8, ValueModel>, int)> {
    match parse_string(b, p) {
        Some((obj, p1)) => match parse_u8(b, p1) {
            Some((n, p2)) => match parse_vars(b, p2, n as nat) {
                Some((m, q)) => Some((obj, m, q)),
                None => None,
            },
            None => None,
        },
        None => None,
    }
}

/// `n` found objects of a context subscription from `p`, each an object id
/// and `var_count` variables, collected by object id.
pub open spec fn parse_ctx_objects(b: Seq<u8>, p: int, var_count: nat, n: nat) -> Option<
    (Map<Seq<char>, Map<u8, ValueModel>>, int),
>
    decreases n,
{
    if n == 0 {
        Some((Map::empty(), p))
    } else {
        match parse_ctx_objects(b, p, var_count, (n - 1) as nat) {
            Some((m, q)) => match parse_string(b, q) {
                Some((obj, q1)) => match parse_vars(b, q1, var_count) {
                    Some((vals, r)) => Some((m.insert(obj, vals), r)),
                    None => None,
                },
                None => None,
            },
            None => None,
        }
    }
}

/// A context-subscription body at `p`: the anchor id, a context-domain byte
/// (skipped), a variable count, an `i32` object count (none when negative) and
/// the objects.
pub open spec fn parse_ctx_sub(b: Seq<u8>, p: int) -> Option<
    (Seq<char>, Map<Seq<char>, Map<u8, ValueModel>>, int),
> {
    match parse_string(b, p) {
        Some((anchor, p1)) => match parse_u8(b, p1) {
            Some((_dom, p2)) => match parse_u8(b, p2) {
                Some((var_count, p3)) => match parse_i32(b, p3) {
                    Some((n, p4)) => match parse_ctx_objects(
                        b,
                        p4,
                        var_count as nat,
                        if n < 0 {
                            0
                        } else {
                            n as nat
                        },
                    ) {
                        Some((objs, q)) => Some((anchor, objs, q)),
                        None => None,
                    },
                    None => None,
                },
                None => None,
            },
            None => None,
        },
        None => None,
    }
}

/// Whether a response id is a variable-subscription response.
pub open spec fn is_variable_response(cmd: u8) -> bool {
    RESPONSE_SUBSCRIBE_INDUCTIONLOOP_VARIABLE <= cmd <= RESPONSE_SUBSCRIBE_PERSON_VARIABLE
}

/// The variable-response id under which a context response id is routed.
pub open spec fn context_route_id(cmd: u8) -> u8 {
    ((cmd as int + 0x50) % 256) as u8
}

/// `caches` with the values of `obj` stored in the domain of response id `cmd`
/// (unchanged when no domain answers to `cmd`).
pub open spec fn with_vars(
    caches: Seq<ScopeModel>,
    cmd: u8,
    obj: Seq<char>,
    vals: Map<u8, ValueModel>,
) -> Seq<ScopeModel> {
    match DomainId::spec_from_response(cmd) {
        Some(d) => caches.update(
            d.spec_index(),
            ScopeModel {
                vars: caches[d.spec_index()].vars.insert(obj, vals),
                ctx: caches[d.spec_index()].ctx,
            },
        ),
        None => caches,
    }
}

/// `caches` with the objects found around `anchor` stored in the domain of
/// response id `cmd` (unchanged when no domain answers to `cmd`).
pub open spec fn with_ctx(
    caches: Seq<ScopeModel>,
    cmd: u8,
    anchor: Seq<char>,
    objs: Map<Seq<char>, Map<u8, ValueModel>>,
) -> Seq<ScopeModel> {
    match DomainId::spec_from_response(cmd) {
        Some(d) => caches.update(
            d.spec_index(),
            ScopeModel {
                vars: caches[d.spec_index()].vars,
                ctx: caches[d.spec_index()].ctx.insert(anchor, objs),
            },
        ),
        None => caches,
    }
}

/// One pushed subscription response at `p`, applied to `caches`.
pub open spec fn apply_sub(b: Seq<u8>, p: int, caches: Seq<ScopeModel>) -> Option<
    (Seq<ScopeModel>, int),
> {
    match parse_response_head(b, p) {
        Some((cmd, p1)) => if is_variable_response(cmd) {
            match parse_var_sub(b, p1) {
                Some((obj, vals, q)) => Some((with_vars(caches, cmd, obj, vals), q)),
                None => None,
            }
        } else {
            match parse_ctx_sub(b, p1) {
                Some((anchor, objs, q)) => Some(
                    (with_ctx(caches, context_route_id(cmd), anchor, objs), q),
                ),
                None => None,
            }
        },
        None => None,
    }
}

/// `n` pushed subscription responses from `p`, applied in order to `caches`.
pub open spec fn apply_subs(b: Seq<u8>, p: int, n: nat, caches: Seq<ScopeModel>) -> Option<
    (Seq<ScopeModel>, int),
>
    decreases n,
{
    if n == 0 {
        Some((caches, p))
    } else {
        match apply_subs(b, p, (n - 1) as nat, caches) {
            Some((c, q)) => apply_sub(b, q, c),
            None => None,
        }
    }
}

/// `caches` with every domain emptied.
pub open spec fn cleared(caches: Seq<ScopeModel>) -> Seq<ScopeModel> {
    Seq::new(caches.len(), |i: int| empty_scope())
}

/// The caches after a step response whose subscription batch starts at `p`
/// (an `i32` count, none when negative, then the responses): every cache is
/// emptied, then filled from this batch alone.
pub open spec fn step_caches(b: Seq<u8>, p: int, before: Seq<ScopeModel>) -> Option<
    Seq<ScopeModel>,
> {
    match parse_i32(b, p) {
        Some((n, q)) => match apply_subs(
            b,
            q,
            if n < 0 {
                0
            } else {
                n as nat
            },
            cleared(before),
        ) {
            Some((c, _r)) => Some(c),
            None => None,
        },
        None => None,
    }
}

/// Subscription result caches of one domain, filled anew at every step.
pub struct ScopeData {
    pub subscription_results: SubscriptionResults,
    pub context_subscription_results: ContextSubscriptionResults,
}

impl ScopeData {
    /// Empty caches.
    pub fn new() -> (r: ScopeData)
        ensures
            scope_model(&r) == empty_scope(),
    {
        let r = ScopeData {
            subscription_results: StringHashMap::new(),
            context_subscription_results: StringHashMap::new(),
        };
        assert(scope_model(&r).vars =~= Map::empty());
        assert(scope_model(&r).ctx =~= Map::empty());
        r
    }

    /// The variable-subscription results of `obj_id`, if the last step had any.
    pub fn get_subscription_results(&self, obj_id: &str) -> (r: Option<&TraciResults>)
        ensures
            match r {
                Some(v) => self.subscription_results@.contains_key(obj_id@) && *v
                    == self.subscription_results@[obj_id@],
                None => !self.subscription_results@.contains_key(obj_id@),
            },
    {
        self.subscription_results.get(obj_id)
    }

    /// All variable-subscription results of the last step.
    pub fn get_all_subscription_results(&self) -> (r: &SubscriptionResults)
        ensures
            r == &self.subscription_results,
    {
        &self.subscription_results
    }

    /// The context-subscription results around `obj_id`, if the last step had any.
    pub fn get_context_subscription_results(&self, obj_id: &str) -> (r: Option<
        &SubscriptionResults,
    >)
        ensures
            match r {
                Some(v) => self.context_subscription_results@.contains_key(obj_id@) && *v
                    == self.context_subscription_results@[obj_id@],
                None => !self.context_subscription_results@.contains_key(obj_id@),
            },
    {
        self.context_subscription_results.get(obj_id)
    }

    /// The kinematic state of vehicle `vehicle_id` from the variable cache:
    /// its 2-D position, speed, acceleration and angle, when all four are there
    /// with those kinds of value.
    pub fn get_subscribed_kinematics(&self, vehicle_id: &str) -> (r: Option<SubscribedKinematics>)
        ensures
            r == kinematics_of(scope_model(self).vars, vehicle_id@),
    {
        let results = match self.subscription_results.get(vehicle_id) {
            Some(x) => x,
            None => return None,
        };
        proof {
            assert(results_model(results@) == scope_model(self).vars[vehicle_id@]);
        }
        let position = match results.get(&VAR_POSITION) {
            Some(TraciValue::Pos2D { x, y }) => TraciPosition::new_2d(*x, *y),
            _ => return None,
        };
        let speed = match results.get(&VAR_SPEED) {
            Some(TraciValue::Double(v)) => *v,
            _ => return None,
        };
        let acceleration = match results.get(&VAR_ACCELERATION) {
            Some(TraciValue::Double(v)) => *v,
            _ => return None,
        };
        let angle = match results.get(&VAR_ANGLE) {
            Some(TraciValue::Double(v)) => *v,
            _ => return None,
        };
        Some(SubscribedKinematics { position, speed, acceleration, angle })
    }

    /// All context-subscription results of the last step.
    pub fn get_all_context_subscription_results(&self) -> (r: &ContextSubscriptionResults)
        ensures
            r == &self.context_subscription_results,
    {
        &self.context_subscription_results
    }
}

/// Protocol state of one client: whether its connection is open, the command
/// buffer, the last response, and the subscription caches of every domain.
pub struct TraciClient {
    connected: bool,
    output: Storage,
    input: Storage,
    scopes: Vec<ScopeData>,
}

impl TraciClient {
    /// One cache pair per domain.
    pub closed spec fn wf(&self) -> bool {
        self.scopes@.len() == NUM_DOMAINS
    }

    /// The content of every domain's caches, by domain index.
    pub closed spec fn caches(&self) -> Seq<ScopeModel> {
        self.scopes@.map_values(|s: ScopeData| scope_model(&s))
    }

    /// Whether the connection is open.
    pub closed spec fn is_open(&self) -> bool {
        self.connected
    }

    /// The command built last.
    pub closed spec fn output_bytes(&self) -> Seq<u8> {
        self.output@
    }

    /// The response received last, and its read cursor.
    pub closed spec fn input_buf(&self) -> Storage {
        self.input
    }

    /// The state of a client whose connection has just been opened: empty
    /// buffers and empty caches.
    pub fn new() -> (r: TraciClient)
        ensures
            r.wf(),
            r.is_open(),
            r.caches() == Seq::new(NUM_DOMAINS as nat, |i: int| empty_scope()),
            r.output_bytes() == Seq::<u8>::empty(),
    {
        TraciClient {
            connected: true,
            output: Storage::new(),
            input: Storage::new(),
            scopes: Self::fresh_scopes(),
        }
    }

    fn fresh_scopes() -> (r: Vec<ScopeData>)
        ensures
            r@.len() == NUM_DOMAINS,
            r@.map_values(|s: ScopeData| scope_model(&s)) == Seq::new(
                NUM_DOMAINS as nat,
                |i: int| empty_scope(),
            ),
    {
        let mut v: Vec<ScopeData> = Vec::new();
        let mut i: usize = 0;
        while i < NUM_DOMAINS
            invariant
                i <= NUM_DOMAINS,
                v@.len() == i,
                forall|j: int| 0 <= j < i ==> scope_model(&#[trigger] v@[j]) == empty_scope(),
            decreases NUM_DOMAINS - i,
        {
            v.push(ScopeData::new());
            i = i + 1;
        }
        assert(v@.map_values(|s: ScopeData| scope_model(&s)) =~= Seq::new(
            NUM_DOMAINS as nat,
            |i: int| empty_scope(),
        ));
        v
    }

    /// Whether the connection is open.
    pub fn is_connected(&self) -> (r: bool)
        ensures
            r == self.is_open(),
    {
        self.connected
    }

    /// The caches of domain `d`.
    pub fn scope(&self, d: DomainId) -> (r: &ScopeData)
        requires
            self.wf(),
        ensures
            scope_model(r) == self.caches()[d.spec_index()],
    {
        &self.scopes[d.index()]
    }

    /// Fails with a `Connection` error once the connection is closed.
    fn ensure_open(&self) -> (r: Result<(), TraciError>)
        ensures
            r is Ok <==> self.is_open(),
            r matches Err(e) ==> e.is_connection(),
    {
        if self.connected {
            Ok(())
        } else {
            Err(TraciError::connection("The connection is not open"))
        }
    }

    /// Marks the connection as closed; every later request fails.
    pub fn disconnect(&mut self)
        ensures
            !final(self).is_open(),
            final(self).wf() == old(self).wf(),
            final(self).caches() == old(self).caches(),
    {
        self.connected = false;
    }

    /// Builds a get or set command for object `obj_id` in the output buffer,
    /// replacing what it held, with `add`'s bytes (if any) after the object id.
    ///
    /// The length header is one byte when the command, header excluded, is at
    /// most 255 bytes long, and otherwise a zero byte and an `i32` length.
    pub fn create_command(&mut self, cmd_id: u8, var_id: u8, obj_id: &str, add: Option<&Storage>)
        requires
            command_fits(
                command_len(
                    obj_id@,
                    match add {
                        Some(s) => s@,
                        None => Seq::<u8>::empty(),
                    },
                ) as nat,
            ),
        ensures
            final(self).output_bytes() == command_bytes(
                cmd_id,
                var_id,
                obj_id@,
                match add {
                    Some(s) => s@,
                    None => Seq::<u8>::empty(),
                },
            ),
            command_len(
                obj_id@,
                match add {
                    Some(s) => s@,
                    None => Seq::<u8>::empty(),
                },
            ) <= 255 <==> final(self).output_bytes()[0] != 0,
            final(self).wf() == old(self).wf(),
            final(self).caches() == old(self).caches(),
            final(self).is_open() == old(self).is_open(),
            final(self).input_buf() == old(self).input_buf(),
    {
        let ghost extra = match add {
            Some(s) => s@,
            None => Seq::<u8>::empty(),
        };
        self.output.reset();
        let extra_len: usize = match add {
            Some(s) => s.len(),
            None => 0,
        };
        let length: usize = 1 + 1 + 1 + 4 + obj_id.len() + extra_len;
        if length <= 255 {
            self.output.write_u8(length as u8);
        } else {
            self.output.write_u8(0);
            self.output.write_i32((length + 4) as i32);
        }
        self.output.write_u8(cmd_id);
        self.output.write_u8(var_id);
        self.output.write_string(obj_id);
        match add {
            Some(s) => self.output.write_packet(s.as_bytes()),
            None => {},
        }
        assert(self.output@ =~= command_bytes(cmd_id, var_id, obj_id@, extra));
    }

    /// Builds a subscription-filter command in the output buffer, replacing
    /// what it held: like a get/set command, without an object id.
    pub fn create_filter_command(&mut self, cmd_id: u8, filter_type: u8, add: Option<&Storage>)
        requires
            command_fits(
                3 + match add {
                    Some(s) => s@.len(),
                    None => 0,
                },
            ),
        ensures
            final(self).output_bytes() == filter_command_bytes(
                cmd_id,
                filter_type,
                match add {
                    Some(s) => s@,
                    None => Seq::<u8>::empty(),
                },
            ),
            final(self).wf() == old(self).wf(),
            final(self).caches() == old(self).caches(),
            final(self).is_open() == old(self).is_open(),
            final(self).input_buf() == old(self).input_buf(),
    {
        let ghost extra = match add {
            Some(s) => s@,
            None => Seq::<u8>::empty(),
        };
        self.output.reset();
        let extra_len: usize = match add {
            Some(s) => s.len(),
            None => 0,
        };
        let length: usize = 1 + 1 + 1 + extra_len;
        if length <= 255 {
            self.output.write_u8(length as u8);
        } else {
            self.output.write_u8(0);
            self.output.write_i32((length + 4) as i32);
        }
        self.output.write_u8(cmd_id);
        self.output.write_u8(filter_type);
        match add {
            Some(s) => self.output.write_packet(s.as_bytes()),
            None => {},
        }
        assert(self.output@ =~= filter_command_bytes(cmd_id, filter_type, extra));
    }

    /// The command to send for the pending get or set: the built command while
    /// the connection is open; `None`, nothing to do, once it is closed.
    pub fn command_to_send(&self) -> (r: Option<&Storage>)
        ensures
            r is Some <==> self.is_open(),
            r matches Some(s) ==> s@ == self.output_bytes(),
    {
        if self.connected {
            Some(&self.output)
        } else {
            None
        }
    }

    /// Takes the response to a get command: checks its result status, then
    /// its get-response header (see `check_command_get_result`), and keeps it
    /// as the input for the value reads that follow. Returns the response id.
    pub fn process_get_response(
        &mut self,
        response: Storage,
        command: u8,
        expected_type: Option<u8>,
    ) -> (r: Result<u8, TraciError>)
        ensures
            final(self).input_buf()@ == response@,
            if status_ok(response@, response.cursor(), command, false) {
                get_result_ok(
                    response@,
                    status_end(response@, response.cursor()),
                    command,
                    expected_type,
                    false,
                    r,
                    final(self).input_buf().cursor(),
                )
            } else {
                status_result_ok(response@, response.cursor(), command, false, without_value(r))
            },
            final(self).wf() == old(self).wf(),
            final(self).caches() == old(self).caches(),
            final(self).is_open() == old(self).is_open(),
            final(self).output_bytes() == old(self).output_bytes(),
    {
        self.input = response;
        check_result_state(&mut self.input, command, false)?;
        check_command_get_result(&mut self.input, command, expected_type, false)
    }

    /// Takes the response to a set command: checks its result status only,
    /// and keeps it as the input.
    pub fn process_set_response(&mut self, response: Storage, command: u8) -> (r: Result<
        (),
        TraciError,
    >)
        ensures
            final(self).input_buf()@ == response@,
            status_result_ok(response@, response.cursor(), command, false, r),
            r is Ok ==> final(self).input_buf().cursor() == status_end(
                response@,
                response.cursor(),
            ),
            final(self).wf() == old(self).wf(),
            final(self).caches() == old(self).caches(),
            final(self).is_open() == old(self).is_open(),
            final(self).output_bytes() == old(self).output_bytes(),
    {
        self.input = response;
        check_result_state(&mut self.input, command, false)
    }

    /// The set-order command, while the connection is open.
    pub fn set_order_request(&self, order: i32) -> (r: Result<Storage, TraciError>)
        ensures
            match r {
                Ok(m) => self.is_open() && m@ == set_order_bytes(order),
                Err(e) => !self.is_open() && e.is_connection(),
            },
    {
        self.ensure_open()?;
        let mut msg = Storage::new();
        msg.write_u8(1 + 1 + 4);
        msg.write_u8(CMD_SETORDER);
        msg.write_i32(order);
        assert(msg@ =~= set_order_bytes(order));
        Ok(msg)
    }

    /// The step command (target time as a double bit pattern), while the
    /// connection is open.
    pub fn simulation_step_request(&self, time: u64) -> (r: Result<Storage, TraciError>)
        ensures
            match r {
                Ok(m) => self.is_open() && m@ == simulation_step_bytes(time),
                Err(e) => !self.is_open() && e.is_connection(),
            },
    {
        self.ensure_open()?;
        let mut msg = Storage::new();
        msg.write_u8(1 + 1 + 8);
        msg.write_u8(CMD_SIMSTEP);
        msg.write_f64(time);
        assert(msg@ =~= simulation_step_bytes(time));
        Ok(msg)
    }

    /// The load command with the simulator's arguments, while the connection
    /// is open.
    pub fn load_request(&self, args: &[String]) -> (r: Result<Storage, TraciError>)
        requires
            args@.len() <= i32::MAX,
            forall|i: int| 0 <= i < args@.len() ==> string_fits(#[trigger] args@[i]@),
            command_fits(7 + enc_string_list(strings_view(args@)).len()),
        ensures
            match r {
                Ok(m) => self.is_open() && m@ == load_bytes(strings_view(args@)),
                Err(e) => !self.is_open() && e.is_connection(),
            },
    {
        self.ensure_open()?;
        let mut list = Storage::new();
        list.write_string_list(args);
        let mut msg = Storage::new();
        msg.write_u8(0);
        msg.write_i32((list.len() + 7) as i32);
        msg.write_u8(CMD_LOAD);
        msg.write_u8(TYPE_STRINGLIST);
        msg.append_storage(&list);
        assert(msg@ =~= load_bytes(strings_view(args@)));
        Ok(msg)
    }

    /// The version command, while the connection is open.
    pub fn get_version_request(&self) -> (r: Result<Storage, TraciError>)
        ensures
            match r {
                Ok(m) => self.is_open() && m@ == bare_command_bytes(CMD_GETVERSION),
                Err(e) => !self.is_open() && e.is_connection(),
            },
    {
        self.ensure_open()?;
        let mut msg = Storage::new();
        msg.write_u8(2);
        msg.write_u8(CMD_GETVERSION);
        assert(msg@ =~= bare_command_bytes(CMD_GETVERSION));
        Ok(msg)
    }

    /// The close command, while the connection is open.
    pub fn close_request(&self) -> (r: Result<Storage, TraciError>)
        ensures
            match r {
                Ok(m) => self.is_open() && m@ == bare_command_bytes(CMD_CLOSE),
                Err(e) => !self.is_open() && e.is_connection(),
            },
    {
        self.ensure_open()?;
        let mut msg = Storage::new();
        msg.write_u8(2);
        msg.write_u8(CMD_CLOSE);
        assert(msg@ =~= bare_command_bytes(CMD_CLOSE));
        Ok(msg)
    }

    /// Takes the response to the close command; on success the connection
    /// counts as closed from then on.
    pub fn close_response(&mut self, response: Storage) -> (r: Result<(), TraciError>)
        ensures
            status_result_ok(response@, response.cursor(), CMD_CLOSE, false, r),
            r is Ok ==> !final(self).is_open(),
            r is Err ==> final(self).is_open() == old(self).is_open(),
            final(self).wf() == old(self).wf(),
            final(self).caches() == old(self).caches(),
    {
        let mut msg = response;
        check_result_state(&mut msg, CMD_CLOSE, false)?;
        self.connected = false;
        Ok(())
    }

    /// A variable-subscription command for object `obj_id` of the domain
    /// whose subscribe command is `dom_id`, while the connection is open.
    pub fn subscribe_object_variable_request(
        &self,
        dom_id: u8,
        obj_id: &str,
        begin_time: u64,
        end_time: u64,
        vars: &[u8],
    ) -> (r: Result<Storage, TraciError>)
        requires
            vars@.len() <= 255,
            command_fits(27 + encode_utf8(obj_id@).len() + vars@.len()),
        ensures
            match r {
                Ok(m) => self.is_open() && m@ == subscribe_variable_bytes(
                    dom_id,
                    obj_id@,
                    begin_time,
                    end_time,
                    vars@,
                ),
                Err(e) => !self.is_open() && e.is_connection(),
            },
    {
        self.ensure_open()?;
        let mut msg = Storage::new();
        let var_no = vars.len();
        msg.write_u8(0);
        msg.write_i32((5 + 1 + 8 + 8 + 4 + obj_id.len() + 1 + var_no) as i32);
        msg.write_u8(dom_id);
        msg.write_f64(begin_time);
        msg.write_f64(end_time);
        msg.write_string(obj_id);
        msg.write_u8(var_no as u8);
        msg.write_packet(vars);
        assert(msg@ =~= subscribe_variable_bytes(dom_id, obj_id@, begin_time, end_time, vars@));
        Ok(msg)
    }

    /// A context-subscription command for the objects of domain `domain`
    /// within `range` (a double bit pattern) of object `obj_id`, while the
    /// connection is open.
    pub fn subscribe_object_context_request(
        &self,
        dom_id: u8,
        obj_id: &str,
        begin_time: u64,
        end_time: u64,
        domain: u8,
        range: u64,
        vars: &[u8],
    ) -> (r: Result<Storage, TraciError>)
        requires
            vars@.len() <= 255,
            command_fits(36 + encode_utf8(obj_id@).len() + vars@.len()),
        ensures
            match r {
                Ok(m) => self.is_open() && m@ == subscribe_context_bytes(
                    dom_id,
                    obj_id@,
                    begin_time,
                    end_time,
                    domain,
                    range,
                    vars@,
                ),
                Err(e) => !self.is_open() && e.is_connection(),
            },
    {
        self.ensure_open()?;
        let mut msg = Storage::new();
        let var_no = vars.len();
        msg.write_u8(0);
        msg.write_i32((5 + 1 + 8 + 8 + 4 + obj_id.len() + 1 + 8 + 1 + var_no) as i32);
        msg.write_u8(dom_id);
        msg.write_f64(begin_time);
        msg.write_f64(end_time);
        msg.write_string(obj_id);
        msg.write_u8(domain);
        msg.write_f64(range);
        msg.write_u8(var_no as u8);
        msg.write_packet(vars);
        assert(msg@ =~= subscribe_context_bytes(
            dom_id,
            obj_id@,
            begin_time,
            end_time,
            domain,
            range,
            vars@,
        ));
        Ok(msg)
    }

    /// Hands out the last response, with its cursor, for a record reader;
    /// the client keeps an empty input in its place.
    pub fn take_input(&mut self) -> (r: Storage)
        ensures
            r == old(self).input_buf(),
            final(self).input_buf()@ == Seq::<u8>::empty(),
            final(self).wf() == old(self).wf(),
            final(self).caches() == old(self).caches(),
            final(self).is_open() == old(self).is_open(),
            final(self).output_bytes() == old(self).output_bytes(),
    {
        let mut r = Storage::new();
        std::mem::swap(&mut r, &mut self.input);
        r
    }

    /// Reads a double (bit pattern) from the last response.
    pub fn read_double_from_input(&mut self) -> (r: Result<u64, TraciError>)
        ensures
            match parse_f64(old(self).input_buf()@, old(self).input_buf().cursor()) {
                Some((v, q)) => r matches Ok(x) && x == v && final(self).input_buf().cursor() == q,
                None => r matches Err(e) && e.is_protocol(),
            },
            final(self).input_buf()@ == old(self).input_buf()@,
            final(self).wf() == old(self).wf(),
            final(self).caches() == old(self).caches(),
            final(self).is_open() == old(self).is_open(),
            final(self).output_bytes() == old(self).output_bytes(),
    {
        self.input.read_f64()
    }

    /// Reads an `i32` from the last response.
    pub fn read_int_from_input(&mut self) -> (r: Result<i32, TraciError>)
        ensures
            match parse_i32(old(self).input_buf()@, old(self).input_buf().cursor()) {
                Some((v, q)) => r matches Ok(x) && x == v && final(self).input_buf().cursor() == q,
                None => r matches Err(e) && e.is_protocol(),
            },
            final(self).input_buf()@ == old(self).input_buf()@,
            final(self).wf() == old(self).wf(),
            final(self).caches() == old(self).caches(),
            final(self).is_open() == old(self).is_open(),
            final(self).output_bytes() == old(self).output_bytes(),
    {
        self.input.read_i32()
    }

    /// Reads an unsigned byte from the last response.
    pub fn read_ubyte_from_input(&mut self) -> (r: Result<u8, TraciError>)
        ensures
            match parse_u8(old(self).input_buf()@, old(self).input_buf().cursor()) {
                Some((v, q)) => r matches Ok(x) && x == v && final(self).input_buf().cursor() == q,
                None => r matches Err(e) && e.is_protocol(),
            },
            final(self).input_buf()@ == old(self).input_buf()@,
            final(self).wf() == old(self).wf(),
            final(self).caches() == old(self).caches(),
            final(self).is_open() == old(self).is_open(),
            final(self).output_bytes() == old(self).output_bytes(),
    {
        self.input.read_u8()
    }

    /// Reads a string from the last response.
    pub fn read_string_from_input(&mut self) -> (r: Result<String, TraciError>)
        ensures
            match parse_string(old(self).input_buf()@, old(self).input_buf().cursor()) {
                Some((v, q)) => r matches Ok(x) && x@ == v && final(self).input_buf().cursor() == q,
                None => r matches Err(e) && e.is_protocol(),
            },
            final(self).input_buf()@ == old(self).input_buf()@,
            final(self).wf() == old(self).wf(),
            final(self).caches() == old(self).caches(),
            final(self).is_open() == old(self).is_open(),
            final(self).output_bytes() == old(self).output_bytes(),
    {
        self.input.read_string()
    }

    /// Reads a string list from the last response.
    pub fn read_string_list_from_input(&mut self) -> (r: Result<Vec<String>, TraciError>)
        ensures
            match parse_string_list(old(self).input_buf()@, old(self).input_buf().cursor()) {
                Some((v, q)) => r matches Ok(x) && strings_view(x@) == v && final(self).input_buf().cursor() == q,
                None => r matches Err(e) && e.is_protocol(),
            },
            final(self).input_buf()@ == old(self).input_buf()@,
            final(self).wf() == old(self).wf(),
            final(self).caches() == old(self).caches(),
            final(self).is_open() == old(self).is_open(),
            final(self).output_bytes() == old(self).output_bytes(),
    {
        self.input.read_string_list()
    }

    /// Reads a double list (bit patterns) from the last response.
    pub fn read_f64_list_from_input(&mut self) -> (r: Result<Vec<u64>, TraciError>)
        ensures
            match parse_f64_list(old(self).input_buf()@, old(self).input_buf().cursor()) {
                Some((v, q)) => r matches Ok(x) && x@ == v && final(self).input_buf().cursor() == q,
                None => r matches Err(e) && e.is_protocol(),
            },
            final(self).input_buf()@ == old(self).input_buf()@,
            final(self).wf() == old(self).wf(),
            final(self).caches() == old(self).caches(),
            final(self).is_open() == old(self).is_open(),
            final(self).output_bytes() == old(self).output_bytes(),
    {
        self.input.read_f64_list()
    }

    /// Reads a 2-D position (two doubles) from the last response.
    pub fn read_pos_2d_from_input(&mut self) -> (r: Result<TraciPosition, TraciError>)
        ensures
            match parse_value(old(self).input_buf()@, old(self).input_buf().cursor(), POSITION_2D) {
                Some((ValueModel::Pos2D(x, y), q)) => r == Ok::<TraciPosition, TraciError>(
                    TraciPosition { x, y, z: INVALID_DOUBLE_VALUE },
                ) && final(self).input_buf().cursor() == q,
                _ => r matches Err(e) && e.is_protocol(),
            },
            final(self).input_buf()@ == old(self).input_buf()@,
            final(self).wf() == old(self).wf(),
            final(self).caches() == old(self).caches(),
            final(self).is_open() == old(self).is_open(),
            final(self).output_bytes() == old(self).output_bytes(),
    {
        let x = self.input.read_f64()?;
        let y = self.input.read_f64()?;
        Ok(TraciPosition::new_2d(x, y))
    }

    /// Reads a 3-D position (three doubles) from the last response.
    pub fn read_pos_3d_from_input(&mut self) -> (r: Result<TraciPosition, TraciError>)
        ensures
            match parse_value(old(self).input_buf()@, old(self).input_buf().cursor(), POSITION_3D) {
                Some((ValueModel::Pos3D(x, y, z), q)) => r == Ok::<TraciPosition, TraciError>(
                    TraciPosition { x, y, z },
                ) && final(self).input_buf().cursor() == q,
                _ => r matches Err(e) && e.is_protocol(),
            },
            final(self).input_buf()@ == old(self).input_buf()@,
            final(self).wf() == old(self).wf(),
            final(self).caches() == old(self).caches(),
            final(self).is_open() == old(self).is_open(),
            final(self).output_bytes() == old(self).output_bytes(),
    {
        let x = self.input.read_f64()?;
        let y = self.input.read_f64()?;
        let z = self.input.read_f64()?;
        Ok(TraciPosition::new_3d(x, y, z))
    }

    /// Reads a colour (four bytes: red, green, blue, alpha) from the last response.
    pub fn read_color_from_input(&mut self) -> (r: Result<TraciColor, TraciError>)
        ensures
            match parse_value(old(self).input_buf()@, old(self).input_buf().cursor(), TYPE_COLOR) {
                Some((ValueModel::Color(c), q)) => r == Ok::<TraciColor, TraciError>(c)
                    && final(self).input_buf().cursor() == q,
                _ => r matches Err(e) && e.is_protocol(),
            },
            final(self).input_buf()@ == old(self).input_buf()@,
            final(self).wf() == old(self).wf(),
            final(self).caches() == old(self).caches(),
            final(self).is_open() == old(self).is_open(),
            final(self).output_bytes() == old(self).output_bytes(),
    {
        let r = self.input.read_u8()?;
        let g = self.input.read_u8()?;
        let b = self.input.read_u8()?;
        let a = self.input.read_u8()?;
        Ok(TraciColor::new(r, g, b, a))
    }

    /// Reads a polygon from the last response: a vertex count byte, then each
    /// vertex as two doubles.
    pub fn read_polygon_from_input(&mut self) -> (r: Result<Vec<TraciPosition>, TraciError>)
        ensures
            match parse_polygon(old(self).input_buf()@, old(self).input_buf().cursor()) {
                Some((v, q)) => r matches Ok(x) && x@ == v && final(self).input_buf().cursor()
                    == q,
                None => r matches Err(e) && e.is_protocol(),
            },
            final(self).input_buf()@ == old(self).input_buf()@,
            final(self).wf() == old(self).wf(),
            final(self).caches() == old(self).caches(),
            final(self).is_open() == old(self).is_open(),
            final(self).output_bytes() == old(self).output_bytes(),
    {
        let n = self.input.read_u8()?;
        let ghost b = self.input@;
        let ghost p1 = self.input.cursor();
        let mut pts: Vec<TraciPosition> = Vec::new();
        let mut i: u8 = 0;
        while i < n
            invariant
                i <= n,
                self.input@ == b,
                b == old(self).input@,
                parse_u8(b, old(self).input.cursor()) == Some((n, p1)),
                self.wf() == old(self).wf(),
                self.caches() == old(self).caches(),
                self.connected == old(self).connected,
                self.output == old(self).output,
                parse_points(b, p1, i as nat) == Some((pts@, self.input.cursor())),
            decreases n - i,
        {
            let x = match self.input.read_f64() {
                Ok(x) => x,
                Err(e) => {
                    proof {
                        lemma_parse_points_none_from(b, p1, (i + 1) as nat, n as nat);
                    }
                    return Err(e);
                },
            };
            let y = match self.input.read_f64() {
                Ok(y) => y,
                Err(e) => {
                    proof {
                        lemma_parse_points_none_from(b, p1, (i + 1) as nat, n as nat);
                    }
                    return Err(e);
                },
            };
            pts.push(TraciPosition::new_2d(x, y));
            i = i + 1;
        }
        Ok(pts)
    }

    /// Empties every domain's caches.
    fn clear_subscriptions(&mut self)
        requires
            old(self).wf(),
        ensures
            final(self).wf(),
            final(self).caches() == cleared(old(self).caches()),
            final(self).connected == old(self).connected,
            final(self).output == old(self).output,
    {
        self.scopes = Self::fresh_scopes();
        assert(self.caches() =~= cleared(old(self).caches()));
    }

    /// Stores the objects found around `anchor` in the context cache of domain `d`.
    fn store_ctx(&mut self, d: DomainId, anchor: String, objs: SubscriptionResults)
        requires
            old(self).wf(),
        ensures
            final(self).wf(),
            final(self).caches() == old(self).caches().update(
                d.spec_index(),
                ScopeModel {
                    vars: old(self).caches()[d.spec_index()].vars,
                    ctx: old(self).caches()[d.spec_index()].ctx.insert(
                        anchor@,
                        subs_model(objs@),
                    ),
                },
            ),
            final(self).connected == old(self).connected,
            final(self).output == old(self).output,
    {
        let i = d.index();
        let mut sd = self.scopes.remove(i);
        let ghost before = sd.context_subscription_results@;
        let ghost key = anchor@;
        let ghost val = objs@;
        sd.context_subscription_results.insert(anchor, objs);
        assert(ctx_model(sd.context_subscription_results@) =~= ctx_model(before).insert(
            key,
            subs_model(val),
        ));
        self.scopes.insert(i, sd);
        assert(self.caches() =~= old(self).caches().update(
            d.spec_index(),
            ScopeModel {
                vars: old(self).caches()[d.spec_index()].vars,
                ctx: old(self).caches()[d.spec_index()].ctx.insert(key, subs_model(val)),
            },
        ));
    }

    /// Reads a variable-subscription body and stores it in the domain of
    /// response id `cmd_id`, replacing what that object had.
    fn read_variable_subscription(&mut self, cmd_id: u8, in_msg: &mut Storage) -> (r: Result<
        (),
        TraciError,
    >)
        requires
            old(self).wf(),
        ensures
            final(self).wf(),
            final(self).connected == old(self).connected,
            final(self).output == old(self).output,
            match parse_var_sub(old(in_msg)@, old(in_msg).cursor()) {
                Some((obj, vals, q)) => r is Ok && final(self).caches() == with_vars(
                    old(self).caches(),
                    cmd_id,
                    obj,
                    vals,
                ) && final(in_msg).cursor() == q,
                None => r matches Err(e) && e.is_protocol(),
            },
            final(in_msg)@ == old(in_msg)@,
    {
        let object_id = in_msg.read_string()?;
        let var_count = in_msg.read_u8()?;
        let results = read_variables(in_msg, var_count as usize)?;
        match DomainId::from_response(cmd_id) {
            Some(d) => self.store_vars(d, object_id, results),
            None => {},
        }
        Ok(())
    }

    /// Reads a context-subscription body and stores it in the domain of
    /// response id `cmd_id`, replacing what that anchor had.
    fn read_context_subscription(&mut self, cmd_id: u8, in_msg: &mut Storage) -> (r: Result<
        (),
        TraciError,
    >)
        requires
            old(self).wf(),
        ensures
            final(self).wf(),
            final(self).connected == old(self).connected,
            final(self).output == old(self).output,
            match parse_ctx_sub(old(in_msg)@, old(in_msg).cursor()) {
                Some((anchor, objs, q)) => r is Ok && final(self).caches() == with_ctx(
                    old(self).caches(),
                    cmd_id,
                    anchor,
                    objs,
                ) && final(in_msg).cursor() == q,
                None => r matches Err(e) && e.is_protocol(),
            },
            final(in_msg)@ == old(in_msg)@,
    {
        let context_id = in_msg.read_string()?;
        let _context_domain = in_msg.read_u8()?;
        let var_count = in_msg.read_u8()?;
        let num_objects = in_msg.read_i32()?;
        let ghost b = in_msg@;
        let ghost p4 = in_msg.cursor();
        let ghost nn: nat = if num_objects < 0 {
            0
        } else {
            num_objects as nat
        };
        assert(parse_ctx_sub(b, old(in_msg).cursor()) == match parse_ctx_objects(
            b,
            p4,
            var_count as nat,
            nn,
        ) {
            Some((objs, q)) => Some((context_id@, objs, q)),
            None => None::<(Seq<char>, Map<Seq<char>, Map<u8, ValueModel>>, int)>,
        });
        let mut ctx_results: SubscriptionResults = StringHashMap::new();
        proof {
            assert(subs_model(ctx_results@) =~= Map::empty());
        }
        let mut i: i32 = 0;
        while i < num_objects
            invariant
                0 <= i,
                i <= (if num_objects < 0 {
                    0
                } else {
                    num_objects
                }),
                in_msg@ == b,
                b == old(in_msg)@,
                self.wf(),
                self.caches() == old(self).caches(),
                self.connected == old(self).connected,
                self.output == old(self).output,
                nn == (if num_objects < 0 {
                    0
                } else {
                    num_objects as nat
                }),
                parse_ctx_sub(b, old(in_msg).cursor()) == match parse_ctx_objects(
                    b,
                    p4,
                    var_count as nat,
                    nn,
                ) {
                    Some((objs, q)) => Some((context_id@, objs, q)),
                    None => None::<(Seq<char>, Map<Seq<char>, Map<u8, ValueModel>>, int)>,
                },
                parse_ctx_objects(b, p4, var_count as nat, i as nat) == Some(
                    (subs_model(ctx_results@), in_msg.cursor()),
                ),
            decreases num_objects - i,
        {
            let object_id = match in_msg.read_string() {
                Ok(s) => s,
                Err(e) => {
                    proof {
                        lemma_parse_ctx_objects_none_from(
                            b,
                            p4,
                            var_count as nat,
                            (i + 1) as nat,
                            num_objects as nat,
                        );
                    }
                    return Err(e);
                },
            };
            let results = match read_variables(in_msg, var_count as usize) {
                Ok(x) => x,
                Err(e) => {
                    proof {
                        lemma_parse_ctx_objects_none_from(
                            b,
                            p4,
                            var_count as nat,
                            (i + 1) as nat,
                            num_objects as nat,
                        );
                    }
                    return Err(e);
                },
            };
            let ghost before = ctx_results@;
            let ghost key = object_id@;
            let ghost val = results@;
            ctx_results.insert(object_id, results);
            assert(subs_model(ctx_results@) =~= subs_model(before).insert(key, results_model(val)));
            i = i + 1;
        }
        match DomainId::from_response(cmd_id) {
            Some(d) => self.store_ctx(d, context_id, ctx_results),
            None => {},
        }
        Ok(())
    }

    /// Reads one pushed subscription response and stores it: a response id in
    /// the variable range is a variable subscription of that domain; any other
    /// is a context subscription, routed by its id plus 0x50.
    #[verifier::rlimit(40)]
    fn read_subscription(&mut self, in_msg: &mut Storage) -> (r: Result<(), TraciError>)
        requires
            old(self).wf(),
        ensures
            final(self).wf(),
            final(self).connected == old(self).connected,
            final(self).output == old(self).output,
            match apply_sub(old(in_msg)@, old(in_msg).cursor(), old(self).caches()) {
                Some((c, q)) => r is Ok && final(self).caches() == c && final(in_msg).cursor()
                    == q,
                None => r matches Err(e) && e.is_protocol(),
            },
            final(in_msg)@ == old(in_msg)@,
    {
        let cmd_id = check_command_get_result(in_msg, 0, None, true)?;
        if RESPONSE_SUBSCRIBE_INDUCTIONLOOP_VARIABLE <= cmd_id && cmd_id
            <= RESPONSE_SUBSCRIBE_PERSON_VARIABLE {
            self.read_variable_subscription(cmd_id, in_msg)
        } else {
            self.read_context_subscription(cmd_id.wrapping_add(0x50), in_msg)
        }
    }

    /// Handles the response to a step command.
    ///
    /// After a successful status, every domain's caches are emptied, then the
    /// batch of pushed subscription responses (an `i32` count, then each
    /// response) is read and stored. A failed status comes back as the status
    /// check returns it, with the caches untouched.
    pub fn simulation_step_response(&mut self, in_msg: Storage) -> (r: Result<(), TraciError>)
        requires
            old(self).wf(),
        ensures
            final(self).wf(),
            final(self).is_open() == old(self).is_open(),
            final(self).output_bytes() == old(self).output_bytes(),
            if status_ok(in_msg@, in_msg.cursor(), CMD_SIMSTEP, false) {
                match step_caches(
                    in_msg@,
                    status_end(in_msg@, in_msg.cursor()),
                    old(self).caches(),
                ) {
                    Some(c) => r is Ok && final(self).caches() == c,
                    None => r matches Err(e) && e.is_protocol(),
                }
            } else {
                status_result_ok(in_msg@, in_msg.cursor(), CMD_SIMSTEP, false, r)
                    && final(self).caches() == old(self).caches()
            },
    {
        let mut msg = in_msg;
        let ghost b = msg@;
        let ghost p0 = msg.cursor();
        check_result_state(&mut msg, CMD_SIMSTEP, false)?;
        self.clear_subscriptions();
        let num_subs = msg.read_i32()?;
        let ghost p1 = msg.cursor();
        let ghost start = self.caches();
        let mut i: i32 = 0;
        while i < num_subs
            invariant
                0 <= i,
                i <= (if num_subs < 0 {
                    0
                } else {
                    num_subs
                }),
                self.wf(),
                self.connected == old(self).connected,
                self.output == old(self).output,
                msg@ == b,
                b == in_msg@,
                p0 == in_msg.cursor(),
                status_ok(b, p0, CMD_SIMSTEP, false),
                start == cleared(old(self).caches()),
                parse_i32(b, status_end(b, p0)) == Some((num_subs, p1)),
                apply_subs(b, p1, i as nat, start) == Some((self.caches(), msg.cursor())),
            decreases num_subs - i,
        {
            match self.read_subscription(&mut msg) {
                Ok(()) => {},
                Err(e) => {
                    proof {
                        lemma_apply_subs_none_from(b, p1, start, (i + 1) as nat, num_subs as nat);
                    }
                    return Err(e);
                },
            }
            i = i + 1;
        }
        Ok(())
    }

    /// Stores the values of `obj` in the variable cache of domain `d`.
    fn store_vars(&mut self, d: DomainId, obj: String, vals: TraciResults)
        requires
            old(self).wf(),
        ensures
            final(self).wf(),
            final(self).caches() == old(self).caches().update(
                d.spec_index(),
                ScopeModel {
                    vars: old(self).caches()[d.spec_index()].vars.insert(
                        obj@,
                        results_model(vals@),
                    ),
                    ctx: old(self).caches()[d.spec_index()].ctx,
                },
            ),
            final(self).connected == old(self).connected,
            final(self).output == old(self).output,
    {
        let i = d.index();
        let mut sd = self.scopes.remove(i);
        let ghost before = sd.subscription_results@;
        let ghost key = obj@;
        let ghost val = vals@;
        sd.subscription_results.insert(obj, vals);
        assert(subs_model(sd.subscription_results@) =~= subs_model(before).insert(
            key,
            results_model(val),
        ));
        self.scopes.insert(i, sd);
        assert(self.caches() =~= old(self).caches().update(
            d.spec_index(),
            ScopeModel {
                vars: old(self).caches()[d.spec_index()].vars.insert(key, results_model(val)),
                ctx: old(self).caches()[d.spec_index()].ctx,
            },
        ));
    }
}

proof fn lemma_parse_ctx_objects_none_from(b: Seq<u8>, p: int, var_count: nat, k: nat, n: nat)
    requires
        parse_ctx_objects(b, p, var_count, k) is None,
        k <= n,
    ensures
        parse_ctx_objects(b, p, var_count, n) is None,
    decreases n - k,
{
    if k < n {
        lemma_parse_ctx_objects_none_from(b, p, var_count, k, (n - 1) as nat);
    }
}

proof fn lemma_apply_subs_none_from(b: Seq<u8>, p: int, caches: Seq<ScopeModel>, k: nat, n: nat)
    requires
        apply_subs(b, p, k, caches) is None,
        k <= n,
    ensures
        apply_subs(b, p, n, caches) is None,
    decreases n - k,
{
    if k < n {
        lemma_apply_subs_none_from(b, p, caches, k, (n - 1) as nat);
    }
}

/// Reads the response to the version command: after a successful status, the
/// protocol version number and the server's version text.
pub fn get_version_response(response: Storage) -> (r: Result<(i32, String), TraciError>)
    ensures
        if status_ok(response@, response.cursor(), CMD_GETVERSION, false) {
            match parse_version(response@, status_end(response@, response.cursor())) {
                Some((v, s, _q)) => r matches Ok((x, y)) && x == v && y@ == s,
                None => r matches Err(e) && e.is_protocol(),
            }
        } else {
            status_result_ok(
                response@,
                response.cursor(),
                CMD_GETVERSION,
                false,
                without_value(r),
            )
        },
{
    let mut msg = response;
    check_result_state(&mut msg, CMD_GETVERSION, false)?;
    let _len = msg.read_u8()?;
    let _cmd = msg.read_u8()?;
    let version = msg.read_i32()?;
    let sumo_version = msg.read_string()?;
    Ok((version, sumo_version))
}

/// `n` 2-D points from `p`, each two doubles.
pub open spec fn parse_points(b: Seq<u8>, p: int, n: nat) -> Option<(Seq<TraciPosition>, int)>
    decreases n,
{
    if n == 0 {
        Some((seq![], p))
    } else {
        match parse_points(b, p, (n - 1) as nat) {
            Some((l, q)) => match parse_f64(b, q) {
                Some((x, q1)) => match parse_f64(b, q1) {
                    Some((y, r)) => Some(
                        (l.push(TraciPosition { x, y, z: INVALID_DOUBLE_VALUE }), r),
                    ),
                    None => None,
                },
                None => None,
            },
            None => None,
        }
    }
}

/// A polygon at `p`: a vertex count byte, then the vertices.
pub open spec fn parse_polygon(b: Seq<u8>, p: int) -> Option<(Seq<TraciPosition>, int)> {
    match parse_u8(b, p) {
        Some((n, q)) => parse_points(b, q, n as nat),
        None => None,
    }
}

proof fn lemma_parse_points_none_from(b: Seq<u8>, p: int, k: nat, n: nat)
    requires
        parse_points(b, p, k) is None,
        k <= n,
    ensures
        parse_points(b, p, n) is None,
    decreases n - k,
{
    if k < n {
        lemma_parse_points_none_from(b, p, k, (n - 1) as nat);
    }
}

/// Each step starts afresh: the caches a step response leaves depend on that
/// response alone. Whatever two clients held before (say, the results of two
/// different earlier steps), the same step response leaves both with the same
/// caches, so no entry of an earlier step survives.
pub proof fn lemma_step_forgets_previous(
    b: Seq<u8>,
    p: int,
    first: Seq<ScopeModel>,
    second: Seq<ScopeModel>,
)
    requires
        first.len() == NUM_DOMAINS,
        second.len() == NUM_DOMAINS,
    ensures
        step_caches(b, p, first) == step_caches(b, p, second),
{
    assert(cleared(first) =~= cleared(second));
}

/// The kinematic state of object `id` in a variable cache, when its position
/// is a 2-D position and its speed, acceleration and angle are doubles.
pub open spec fn kinematics_of(vars: Map<Seq<char>, Map<u8, ValueModel>>, id: Seq<char>) -> Option<
    SubscribedKinematics,
> {
    if vars.contains_key(id) && vars[id].contains_key(VAR_POSITION) && vars[id].contains_key(
        VAR_SPEED,
    ) && vars[id].contains_key(VAR_ACCELERATION) && vars[id].contains_key(VAR_ANGLE) {
        match (
            vars[id][VAR_POSITION],
            vars[id][VAR_SPEED],
            vars[id][VAR_ACCELERATION],
            vars[id][VAR_ANGLE],
        ) {
            (
                ValueModel::Pos2D(x, y),
                ValueModel::Double(speed),
                ValueModel::Double(acceleration),
                ValueModel::Double(angle),
            ) => Some(
                SubscribedKinematics {
                    position: TraciPosition { x, y, z: INVALID_DOUBLE_VALUE },
                    speed,
                    acceleration,
                    angle,
                },
            ),
            _ => None,
        }
    } else {
        None
    }
}

/// The vertices of a polygon, each as two doubles, one after the other.
pub open spec fn enc_points(l: Seq<TraciPosition>) -> Seq<u8>
    decreases l.len(),
{
    if l.len() == 0 {
        seq![]
    } else {
        enc_points(l.drop_last()) + enc_f64(l.last().x) + enc_f64(l.last().y)
    }
}

/// A polygon: its vertex count as a byte, then the vertices.
pub open spec fn enc_polygon(l: Seq<TraciPosition>) -> Seq<u8> {
    seq![l.len() as u8] + enc_points(l)
}

proof fn lemma_points_round_trip(b: Seq<u8>, p: int, l: Seq<TraciPosition>)
    requires
        forall|i: int| 0 <= i < l.len() ==> (#[trigger] l[i]).z == INVALID_DOUBLE_VALUE,
        0 <= p,
        p + enc_points(l).len() <= b.len(),
        b.subrange(p, p + enc_points(l).len()) == enc_points(l),
    ensures
        parse_points(b, p, l.len()) == Some((l, p + enc_points(l).len())),
    decreases l.len(),
{
    if l.len() > 0 {
        let front = l.drop_last();
        let v = l.last();
        let e = enc_points(l);
        let ef = enc_points(front);
        let n = ef.len() as int;
        assert(e == ef + enc_f64(v.x) + enc_f64(v.y));
        lemma_window(b, p, e, 0, ef.len() as int);
        assert(e.subrange(0, ef.len() as int) =~= ef);
        lemma_points_round_trip(b, p, front);
        let q = p + ef.len();
        lemma_window(b, p, e, n, n + 8);
        assert(e.subrange(n, n + 8) =~= enc_f64(v.x));
        lemma_f64_round_trip(b, q, v.x);
        lemma_window(b, p, e, n + 8, n + 16);
        assert(e.subrange(n + 8, n + 16) =~= enc_f64(v.y));
        lemma_f64_round_trip(b, q + 8, v.y);
        assert(front.push(TraciPosition { x: v.x, y: v.y, z: INVALID_DOUBLE_VALUE }) =~= l);
    }
}

/// Round trip of polygons: wherever the encoding of a polygon of at most 255
/// 2-D vertices stands, reading a polygon there gives it back and stops right
/// after it.
pub proof fn lemma_polygon_round_trip(b: Seq<u8>, p: int, l: Seq<TraciPosition>)
    requires
        l.len() <= 255,
        forall|i: int| 0 <= i < l.len() ==> (#[trigger] l[i]).z == INVALID_DOUBLE_VALUE,
        0 <= p,
        p + enc_polygon(l).len() <= b.len(),
        b.subrange(p, p + enc_polygon(l).len()) == enc_polygon(l),
    ensures
        parse_polygon(b, p) == Some((l, p + enc_polygon(l).len())),
{
    let e = enc_polygon(l);
    lemma_window(b, p, e, 0, 1);
    assert(b[p] == e[0]) by {
        assert(b.subrange(p, p + 1)[0] == b[p]);
    }
    lemma_window(b, p, e, 1, e.len() as int);
    assert(e.subrange(1, e.len() as int) =~= enc_points(l));
    lemma_points_round_trip(b, p + 1, l);
}

} // verus!
