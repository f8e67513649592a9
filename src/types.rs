//! The typed value model: every value that a response can carry, the records
//! that some commands return, and the subscription result caches.
//!
//! Doubles are held as their IEEE-754 bit pattern (`u64`).
use vstd::prelude::*;
use vstd::hash_map::StringHashMap;
use std::collections::HashMap;
use crate::constants::{
    INVALID_DOUBLE_VALUE, INVALID_INT_VALUE, POSITION_2D, POSITION_3D, TYPE_COLOR, TYPE_DOUBLE, TYPE_DOUBLELIST,
    TYPE_INTEGER, TYPE_STRING, TYPE_STRINGLIST, TYPE_UBYTE,
};
use crate::storage::{
    enc_f64, enc_f64_list, enc_i32, enc_string, enc_string_list, parse_f64, parse_f64_list,
    parse_i32, parse_string, parse_string_list, parse_u8, string_fits, strings_view,
    lemma_window, lemma_i32_round_trip, lemma_f64_round_trip, lemma_string_round_trip,
    lemma_string_list_round_trip, lemma_f64_list_round_trip,
};

verus! {

// ---------------------------------------------------------------------------
// Records
// ---------------------------------------------------------------------------

/// A 2-D or 3-D position. A 2-D position has `z == INVALID_DOUBLE_VALUE`.
#[derive(Debug, Clone, Copy, PartialEq, Eq)]
pub struct TraciPosition {
    pub x: u64,
    pub y: u64,
    pub z: u64,
}

impl TraciPosition {
    pub fn new_2d(x: u64, y: u64) -> (r: TraciPosition)
        ensures
            r == (TraciPosition { x, y, z: INVALID_DOUBLE_VALUE }),
    {
        TraciPosition { x, y, z: INVALID_DOUBLE_VALUE }
    }

    pub fn new_3d(x: u64, y: u64, z: u64) -> (r: TraciPosition)
        ensures
            r == (TraciPosition { x, y, z }),
    {
        TraciPosition { x, y, z }
    }

    /// Whether `z` holds a valid coordinate.
    pub fn is_3d(&self) -> (r: bool)
        ensures
            r == (self.z != INVALID_DOUBLE_VALUE),
    {
        self.z != INVALID_DOUBLE_VALUE
    }
}

impl Default for TraciPosition {
    fn default() -> (r: TraciPosition)
        ensures
            r == (TraciPosition {
                x: INVALID_DOUBLE_VALUE,
                y: INVALID_DOUBLE_VALUE,
                z: INVALID_DOUBLE_VALUE,
            }),
    {
        TraciPosition { x: INVALID_DOUBLE_VALUE, y: INVALID_DOUBLE_VALUE, z: INVALID_DOUBLE_VALUE }
    }
}

/// A position on the road network: edge, offset along it, lane index.
#[derive(Debug, Clone, PartialEq)]
pub struct TraciRoadPosition {
    pub edge_id: String,
    pub pos: u64,
    pub lane_index: i32,
}

/// An RGBA colour, one byte per channel.
#[derive(Debug, Clone, Copy, PartialEq, Eq)]
pub struct TraciColor {
    pub r: u8,
    pub g: u8,
    pub b: u8,
    pub a: u8,
}

impl TraciColor {
    pub fn new(r: u8, g: u8, b: u8, a: u8) -> (c: TraciColor)
        ensures
            c == (TraciColor { r, g, b, a }),
    {
        TraciColor { r, g, b, a }
    }
}

impl Default for TraciColor {
    /// Opaque black.
    fn default() -> (c: TraciColor)
        ensures
            c == (TraciColor { r: 0, g: 0, b: 0, a: 255 }),
    {
        TraciColor { r: 0, g: 0, b: 0, a: 255 }
    }
}

/// One phase of a traffic-light programme.
#[derive(Debug, Clone, PartialEq)]
pub struct TraciPhase {
    pub duration: u64,
    pub state: String,
    pub min_dur: u64,
    pub max_dur: u64,
    pub next: Vec<i32>,
    pub name: String,
}

impl Default for TraciPhase {
    /// A phase of invalid durations, empty state and name, and no successors.
    fn default() -> (r: TraciPhase)
        ensures
            r.duration == INVALID_DOUBLE_VALUE,
            r.state@ == Seq::<char>::empty(),
            r.min_dur == INVALID_DOUBLE_VALUE,
            r.max_dur == INVALID_DOUBLE_VALUE,
            r.next@ == Seq::<i32>::empty(),
            r.name@ == Seq::<char>::empty(),
    {
        TraciPhase {
            duration: INVALID_DOUBLE_VALUE,
            state: String::new(),
            min_dur: INVALID_DOUBLE_VALUE,
            max_dur: INVALID_DOUBLE_VALUE,
            next: Vec::new(),
            name: String::new(),
        }
    }
}

/// A complete traffic-light programme.
#[derive(Debug, Clone, PartialEq)]
pub struct TraciLogic {
    pub program_id: String,
    /// Programme type (0 = static, 3 = actuated, ...).
    pub type_: i32,
    pub current_phase_index: i32,
    pub phases: Vec<TraciPhase>,
    /// Key/value parameters, keys unique.
    pub sub_parameter: Vec<(String, String)>,
}

/// One lane-to-lane connection.
#[derive(Debug, Clone, PartialEq)]
pub struct TraciConnection {
    pub approached_lane: String,
    pub has_prio: bool,
    pub is_open: bool,
    pub has_foe: bool,
    pub approached_internal: String,
    pub state: String,
    pub direction: String,
    pub length: u64,
}

/// One lane-to-lane link controlled by a traffic light.
#[derive(Debug, Clone, PartialEq)]
pub struct TraciLink {
    pub from_lane: String,
    pub via_lane: String,
    pub to_lane: String,
}

/// Per-vehicle data of an induction loop.
#[derive(Debug, Clone, PartialEq)]
pub struct TraciVehicleData {
    pub id: String,
    pub length: u64,
    pub entry_time: u64,
    pub leave_time: u64,
    pub type_id: String,
}

/// One upcoming traffic light of a vehicle.
#[derive(Debug, Clone, PartialEq)]
pub struct TraciNextTLSData {
    pub id: String,
    pub tl_index: i32,
    pub dist: u64,
    /// The current phase state character (`'r'`, `'g'`, `'y'`, ...).
    pub state: char,
}

/// Best-lane information of a vehicle.
#[derive(Debug, Clone, PartialEq)]
pub struct TraciBestLanesData {
    pub lane_id: String,
    pub length: u64,
    pub occupation: u64,
    pub best_lane_offset: i32,
    pub allows_continuation: bool,
    pub continuation_lanes: Vec<String>,
}

/// A journey stage of a person, or a found route.
#[derive(Debug, Clone, PartialEq)]
pub struct TraciStage {
    pub type_: i32,
    pub v_type: String,
    pub line: String,
    pub dest_stop: String,
    pub edges: Vec<String>,
    pub travel_time: u64,
    pub cost: u64,
    pub length: u64,
    pub intended: String,
    pub depart: u64,
    pub depart_pos: u64,
    pub arrival_pos: u64,
    pub description: String,
}

impl Default for TraciStage {
    /// A stage of invalid type and numbers, and empty texts and edges.
    fn default() -> (r: TraciStage)
        ensures
            r.type_ == INVALID_INT_VALUE,
            r.v_type@ == Seq::<char>::empty(),
            r.line@ == Seq::<char>::empty(),
            r.dest_stop@ == Seq::<char>::empty(),
            r.edges@ == Seq::<String>::empty(),
            r.travel_time == INVALID_DOUBLE_VALUE,
            r.cost == INVALID_DOUBLE_VALUE,
            r.length == INVALID_DOUBLE_VALUE,
            r.intended@ == Seq::<char>::empty(),
            r.depart == INVALID_DOUBLE_VALUE,
            r.depart_pos == INVALID_DOUBLE_VALUE,
            r.arrival_pos == INVALID_DOUBLE_VALUE,
            r.description@ == Seq::<char>::empty(),
    {
        TraciStage {
            type_: INVALID_INT_VALUE,
            v_type: String::new(),
            line: String::new(),
            dest_stop: String::new(),
            edges: Vec::new(),
            travel_time: INVALID_DOUBLE_VALUE,
            cost: INVALID_DOUBLE_VALUE,
            length: INVALID_DOUBLE_VALUE,
            intended: String::new(),
            depart: INVALID_DOUBLE_VALUE,
            depart_pos: INVALID_DOUBLE_VALUE,
            arrival_pos: INVALID_DOUBLE_VALUE,
            description: String::new(),
        }
    }
}

/// Data of an upcoming or past stop of a vehicle.
#[derive(Debug, Clone, PartialEq)]
pub struct TraciNextStopData {
    pub lane: String,
    pub start_pos: u64,
    pub end_pos: u64,
    pub stopping_place_id: String,
    pub stop_flags: i32,
    pub duration: u64,
    pub until: u64,
    pub intended_arrival: u64,
    pub arrival: u64,
    pub depart: u64,
    pub split: String,
    pub join: String,
    pub act_type: String,
    pub trip_id: String,
    pub line: String,
    pub speed: u64,
}

/// A taxi reservation.
#[derive(Debug, Clone, PartialEq)]
pub struct TraciReservation {
    pub id: String,
    pub persons: Vec<String>,
    pub group: String,
    pub from_edge: String,
    pub to_edge: String,
    pub depart_pos: u64,
    pub arrival_pos: u64,
    pub depart: u64,
    pub reservation_time: u64,
    pub state: i32,
}

/// Data of one collision.
#[derive(Debug, Clone, PartialEq)]
pub struct TraciCollision {
    pub collider: String,
    pub victim: String,
    pub collider_type: String,
    pub victim_type: String,
    pub collider_speed: u64,
    pub victim_speed: u64,
    pub type_: String,
    pub lane: String,
    pub pos: u64,
}

/// A rail signal constraint.
#[derive(Debug, Clone, PartialEq)]
pub struct TraciSignalConstraint {
    pub signal_id: String,
    pub trip_id: String,
    pub foe_id: String,
    pub foe_signal: String,
    pub limit: i32,
    pub type_: i32,
    pub must_wait: bool,
    pub active: bool,
    /// Key/value parameters, keys unique.
    pub param: Vec<(String, String)>,
}

/// Kinematic state of a vehicle, as a subscription delivers it each step.
#[derive(Debug, Clone, PartialEq)]
pub struct SubscribedKinematics {
    pub position: TraciPosition,
    pub speed: u64,
    pub acceleration: u64,
    pub angle: u64,
}

// ---------------------------------------------------------------------------
// Typed values
// ---------------------------------------------------------------------------

/// Every value that a response can carry, one variant per kind.
#[derive(Debug, Clone, PartialEq)]
pub enum TraciValue {
    /// A signed 32-bit integer (also an unsigned byte, widened).
    Int(i32),
    /// A double, as its bit pattern.
    Double(u64),
    String(String),
    StringList(Vec<String>),
    DoubleList(Vec<u64>),
    Pos2D { x: u64, y: u64 },
    Pos3D { x: u64, y: u64, z: u64 },
    Color(TraciColor),
    /// A list of 2-D positions.
    Polygon(Vec<TraciPosition>),
    /// Complete traffic-light programmes.
    LogicList(Vec<TraciLogic>),
    /// Lane connections, one list per lane.
    ConnectionList(Vec<Vec<TraciConnection>>),
    Stage(TraciStage),
    VehicleDataList(Vec<TraciVehicleData>),
    NextTLSList(Vec<TraciNextTLSData>),
    BestLanesList(Vec<TraciBestLanesData>),
    /// A value of a kind this library does not know: its tag and bytes.
    Unknown { type_id: u8, raw: Vec<u8> },
}

/// The mathematical content of a `TraciValue`.
pub enum ValueModel {
    Int(i32),
    Double(u64),
    Str(Seq<char>),
    StrList(Seq<Seq<char>>),
    DoubleList(Seq<u64>),
    Pos2D(u64, u64),
    Pos3D(u64, u64, u64),
    Color(TraciColor),
    Polygon(Seq<TraciPosition>),
    LogicList(Seq<TraciLogic>),
    ConnectionList(Seq<Vec<TraciConnection>>),
    Stage(TraciStage),
    VehicleDataList(Seq<TraciVehicleData>),
    NextTLSList(Seq<TraciNextTLSData>),
    BestLanesList(Seq<TraciBestLanesData>),
    Unknown(u8, Seq<u8>),
}

impl View for TraciValue {
    type V = ValueModel;

    open spec fn view(&self) -> ValueModel {
        match self {
            TraciValue::Int(i) => ValueModel::Int(*i),
            TraciValue::Double(d) => ValueModel::Double(*d),
            TraciValue::String(s) => ValueModel::Str(s@),
            TraciValue::StringList(l) => ValueModel::StrList(strings_view(l@)),
            TraciValue::DoubleList(l) => ValueModel::DoubleList(l@),
            TraciValue::Pos2D { x, y } => ValueModel::Pos2D(*x, *y),
            TraciValue::Pos3D { x, y, z } => ValueModel::Pos3D(*x, *y, *z),
            TraciValue::Color(c) => ValueModel::Color(*c),
            TraciValue::Polygon(p) => ValueModel::Polygon(p@),
            TraciValue::LogicList(l) => ValueModel::LogicList(l@),
            TraciValue::ConnectionList(l) => ValueModel::ConnectionList(l@),
            TraciValue::Stage(s) => ValueModel::Stage(*s),
            TraciValue::VehicleDataList(l) => ValueModel::VehicleDataList(l@),
            TraciValue::NextTLSList(l) => ValueModel::NextTLSList(l@),
            TraciValue::BestLanesList(l) => ValueModel::BestLanesList(l@),
            TraciValue::Unknown { type_id, raw } => ValueModel::Unknown(*type_id, raw@),
        }
    }
}

// ---------------------------------------------------------------------------
// Subscription result caches
// ---------------------------------------------------------------------------

/// The values delivered for one object: variable id to value.
pub type TraciResults = HashMap<u8, TraciValue>;

/// Variable-subscription results: object id to its values.
pub type SubscriptionResults = StringHashMap<TraciResults>;

/// Context-subscription results: anchor object id to the results of the
/// objects found around it.
pub type ContextSubscriptionResults = StringHashMap<SubscriptionResults>;

/// The content of one object's results.
pub open spec fn results_model(m: Map<u8, TraciValue>) -> Map<u8, ValueModel> {
    m.map_values(|v: TraciValue| v@)
}

/// The content of variable-subscription results.
pub open spec fn subs_model(m: Map<Seq<char>, TraciResults>) -> Map<Seq<char>, Map<u8, ValueModel>> {
    m.map_values(|r: TraciResults| results_model(r@))
}

/// The content of context-subscription results.
pub open spec fn ctx_model(m: Map<Seq<char>, SubscriptionResults>) -> Map<
    Seq<char>,
    Map<Seq<char>, Map<u8, ValueModel>>,
> {
    m.map_values(|s: SubscriptionResults| subs_model(s@))
}

// ---------------------------------------------------------------------------
// Wire form of typed values
// ---------------------------------------------------------------------------

/// The value of kind `tag` that starts at byte `p` of `b`, and the position
/// after it. Only the kinds below are decoded; any other tag is refused.
pub open spec fn parse_value(b: Seq<u8>, p: int, tag: u8) -> Option<(ValueModel, int)> {
    if tag == TYPE_DOUBLE {
        match parse_f64(b, p) {
            Some((d, q)) => Some((ValueModel::Double(d), q)),
            None => None,
        }
    } else if tag == TYPE_INTEGER {
        match parse_i32(b, p) {
            Some((i, q)) => Some((ValueModel::Int(i), q)),
            None => None,
        }
    } else if tag == TYPE_STRING {
        match parse_string(b, p) {
            Some((s, q)) => Some((ValueModel::Str(s), q)),
            None => None,
        }
    } else if tag == TYPE_STRINGLIST {
        match parse_string_list(b, p) {
            Some((l, q)) => Some((ValueModel::StrList(l), q)),
            None => None,
        }
    } else if tag == TYPE_DOUBLELIST {
        match parse_f64_list(b, p) {
            Some((l, q)) => Some((ValueModel::DoubleList(l), q)),
            None => None,
        }
    } else if tag == TYPE_COLOR {
        if 0 <= p && p + 4 <= b.len() {
            Some(
                (
                    ValueModel::Color(
                        TraciColor { r: b[p], g: b[p + 1], b: b[p + 2], a: b[p + 3] },
                    ),
                    p + 4,
                ),
            )
        } else {
            None
        }
    } else if tag == POSITION_2D {
        match parse_f64(b, p) {
            Some((x, q)) => match parse_f64(b, q) {
                Some((y, r)) => Some((ValueModel::Pos2D(x, y), r)),
                None => None,
            },
            None => None,
        }
    } else if tag == POSITION_3D {
        match parse_f64(b, p) {
            Some((x, q)) => match parse_f64(b, q) {
                Some((y, r)) => match parse_f64(b, r) {
                    Some((z, t)) => Some((ValueModel::Pos3D(x, y, z), t)),
                    None => None,
                },
                None => None,
            },
            None => None,
        }
    } else if tag == TYPE_UBYTE {
        match parse_u8(b, p) {
            Some((u, q)) => Some((ValueModel::Int(u as i32), q)),
            None => None,
        }
    } else {
        None
    }
}

/// Whether a value has a wire form that the decoder reads back.
pub open spec fn is_wire_value(v: ValueModel) -> bool {
    match v {
        ValueModel::Int(_) | ValueModel::Double(_) | ValueModel::Color(_) | ValueModel::Pos2D(
            _,
            _,
        ) | ValueModel::Pos3D(_, _, _) => true,
        ValueModel::Str(s) => string_fits(s),
        ValueModel::StrList(l) => l.len() <= i32::MAX && forall|i: int|
            0 <= i < l.len() ==> string_fits(#[trigger] l[i]),
        ValueModel::DoubleList(l) => l.len() <= i32::MAX,
        _ => false,
    }
}

/// The type tag under which a wire value travels.
pub open spec fn tag_of(v: ValueModel) -> u8 {
    match v {
        ValueModel::Int(_) => TYPE_INTEGER,
        ValueModel::Double(_) => TYPE_DOUBLE,
        ValueModel::Str(_) => TYPE_STRING,
        ValueModel::StrList(_) => TYPE_STRINGLIST,
        ValueModel::DoubleList(_) => TYPE_DOUBLELIST,
        ValueModel::Color(_) => TYPE_COLOR,
        ValueModel::Pos2D(_, _) => POSITION_2D,
        ValueModel::Pos3D(_, _, _) => POSITION_3D,
        _ => 0,
    }
}

/// The bytes of a wire value that follow its tag.
pub open spec fn enc_value(v: ValueModel) -> Seq<u8> {
    match v {
        ValueModel::Int(i) => enc_i32(i),
        ValueModel::Double(d) => enc_f64(d),
        ValueModel::Str(s) => enc_string(s),
        ValueModel::StrList(l) => enc_string_list(l),
        ValueModel::DoubleList(l) => enc_f64_list(l),
        ValueModel::Color(c) => seq![c.r, c.g, c.b, c.a],
        ValueModel::Pos2D(x, y) => enc_f64(x) + enc_f64(y),
        ValueModel::Pos3D(x, y, z) => enc_f64(x) + enc_f64(y) + enc_f64(z),
        _ => seq![],
    }
}

/// Round trip of typed values: wherever the bytes of a wire value stand, decoding
/// them under the value's tag gives the value back and stops right after them.
pub proof fn lemma_value_round_trip(b: Seq<u8>, p: int, v: ValueModel)
    requires
        is_wire_value(v),
        0 <= p,
        p + enc_value(v).len() <= b.len(),
        b.subrange(p, p + enc_value(v).len()) == enc_value(v),
    ensures
        parse_value(b, p, tag_of(v)) == Some((v, p + enc_value(v).len())),
{
    let e = enc_value(v);
    match v {
        ValueModel::Int(i) => {
            lemma_i32_round_trip(b, p, i);
        },
        ValueModel::Double(d) => {
            lemma_f64_round_trip(b, p, d);
        },
        ValueModel::Str(s) => {
            lemma_string_round_trip(b, p, s);
        },
        ValueModel::StrList(l) => {
            lemma_string_list_round_trip(b, p, l);
        },
        ValueModel::DoubleList(l) => {
            lemma_f64_list_round_trip(b, p, l);
        },
        ValueModel::Color(c) => {
            assert(b[p] == e[0] && b[p + 1] == e[1] && b[p + 2] == e[2] && b[p + 3] == e[3]);
        },
        ValueModel::Pos2D(x, y) => {
            lemma_window(b, p, e, 0, 8);
            assert(e.subrange(0, 8) =~= enc_f64(x));
            lemma_f64_round_trip(b, p, x);
            lemma_window(b, p, e, 8, 16);
            assert(e.subrange(8, 16) =~= enc_f64(y));
            lemma_f64_round_trip(b, p + 8, y);
        },
        ValueModel::Pos3D(x, y, z) => {
            lemma_window(b, p, e, 0, 8);
            assert(e.subrange(0, 8) =~= enc_f64(x));
            lemma_f64_round_trip(b, p, x);
            lemma_window(b, p, e, 8, 16);
            assert(e.subrange(8, 16) =~= enc_f64(y));
            lemma_f64_round_trip(b, p + 8, y);
            lemma_window(b, p, e, 16, 24);
            assert(e.subrange(16, 24) =~= enc_f64(z));
            lemma_f64_round_trip(b, p + 16, z);
        },
        _ => {},
    }
}

} // verus!
