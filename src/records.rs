//! Compound records that some commands carry: their wire form, read and
//! written field by field, each field preceded by a type tag.
use vstd::prelude::*;
use crate::constants::{TYPE_COMPOUND, TYPE_DOUBLE, TYPE_INTEGER, TYPE_STRING, TYPE_STRINGLIST};
use crate::error::TraciError;
use crate::storage::{
    enc_strings, enc_f64, enc_i32, enc_string, enc_string_list, lemma_f64_round_trip, lemma_i32_round_trip,
    lemma_string_list_round_trip, lemma_string_round_trip, lemma_window, parse_f64, parse_i32,
    parse_string, parse_string_list, parse_u8, signed_byte, string_fits, strings_view, Storage,
};
use crate::types::{
    TraciBestLanesData, TraciConnection, TraciLink, TraciLogic, TraciNextTLSData, TraciPhase, TraciStage,
    TraciVehicleData,
};
use vstd::seq_lib::lemma_concat_associative;

verus! {

// ---------------------------------------------------------------------------
// Tagged fields: a type tag byte (not checked), then the value
// ---------------------------------------------------------------------------

/// The position after a parsed value; -1 (where nothing parses) after a failure.
pub open spec fn end<T>(o: Option<(T, int)>) -> int {
    match o {
        Some((_, q)) => q,
        None => -1,
    }
}

/// The parsed value.
pub open spec fn val<T>(o: Option<(T, int)>) -> T {
    match o {
        Some((v, _)) => v,
        None => arbitrary(),
    }
}

pub open spec fn tagged_i32(b: Seq<u8>, p: int) -> Option<(i32, int)> {
    match parse_u8(b, p) {
        Some((_, q)) => parse_i32(b, q),
        None => None,
    }
}

pub open spec fn tagged_f64(b: Seq<u8>, p: int) -> Option<(u64, int)> {
    match parse_u8(b, p) {
        Some((_, q)) => parse_f64(b, q),
        None => None,
    }
}

pub open spec fn tagged_u8(b: Seq<u8>, p: int) -> Option<(u8, int)> {
    match parse_u8(b, p) {
        Some((_, q)) => parse_u8(b, q),
        None => None,
    }
}

pub open spec fn tagged_string(b: Seq<u8>, p: int) -> Option<(Seq<char>, int)> {
    match parse_u8(b, p) {
        Some((_, q)) => parse_string(b, q),
        None => None,
    }
}

pub open spec fn tagged_string_list(b: Seq<u8>, p: int) -> Option<(Seq<Seq<char>>, int)> {
    match parse_u8(b, p) {
        Some((_, q)) => parse_string_list(b, q),
        None => None,
    }
}

/// A tagged `i32` field.
pub open spec fn t_i32(v: i32) -> Seq<u8> {
    seq![TYPE_INTEGER] + enc_i32(v)
}

/// A tagged double field.
pub open spec fn t_f64(v: u64) -> Seq<u8> {
    seq![TYPE_DOUBLE] + enc_f64(v)
}

/// A tagged string field.
pub open spec fn t_string(v: Seq<char>) -> Seq<u8> {
    seq![TYPE_STRING] + enc_string(v)
}

/// A tagged string-list field.
pub open spec fn t_string_list(v: Seq<Seq<char>>) -> Seq<u8> {
    seq![TYPE_STRINGLIST] + enc_string_list(v)
}

/// Appends an `i32` behind its type tag.
pub fn write_tagged_i32(out: &mut Storage, v: i32)
    ensures
        final(out)@ == old(out)@ + t_i32(v),
        final(out).cursor() == old(out).cursor(),
{
    out.write_u8(TYPE_INTEGER);
    out.write_i32(v);
    assert(final(out)@ =~= old(out)@ + t_i32(v));
}

/// Appends a double (bit pattern) behind its type tag.
pub fn write_tagged_f64(out: &mut Storage, v: u64)
    ensures
        final(out)@ == old(out)@ + t_f64(v),
        final(out).cursor() == old(out).cursor(),
{
    out.write_u8(TYPE_DOUBLE);
    out.write_f64(v);
    assert(final(out)@ =~= old(out)@ + t_f64(v));
}

/// Appends a string behind its type tag.
pub fn write_tagged_string(out: &mut Storage, v: &str)
    requires
        string_fits(v@),
    ensures
        final(out)@ == old(out)@ + t_string(v@),
        final(out).cursor() == old(out).cursor(),
{
    out.write_u8(TYPE_STRING);
    out.write_string(v);
    assert(final(out)@ =~= old(out)@ + t_string(v@));
}

/// Appends a string list behind its type tag.
pub fn write_tagged_string_list(out: &mut Storage, v: &[String])
    requires
        v@.len() <= i32::MAX,
        forall|i: int| 0 <= i < v@.len() ==> string_fits(#[trigger] v@[i]@),
    ensures
        final(out)@ == old(out)@ + t_string_list(strings_view(v@)),
        final(out).cursor() == old(out).cursor(),
{
    out.write_u8(TYPE_STRINGLIST);
    out.write_string_list(v);
    assert(final(out)@ =~= old(out)@ + t_string_list(strings_view(v@)));
}

fn read_tagged_i32(s: &mut Storage) -> (r: Result<i32, TraciError>)
    ensures
        match tagged_i32(old(s)@, old(s).cursor()) {
            Some((v, q)) => r == Ok::<i32, TraciError>(v) && final(s).cursor() == q,
            None => r matches Err(e) && e.is_protocol(),
        },
        final(s)@ == old(s)@,
{
    s.read_u8()?;
    s.read_i32()
}

fn read_tagged_f64(s: &mut Storage) -> (r: Result<u64, TraciError>)
    ensures
        match tagged_f64(old(s)@, old(s).cursor()) {
            Some((v, q)) => r == Ok::<u64, TraciError>(v) && final(s).cursor() == q,
            None => r matches Err(e) && e.is_protocol(),
        },
        final(s)@ == old(s)@,
{
    s.read_u8()?;
    s.read_f64()
}

fn read_tagged_u8(s: &mut Storage) -> (r: Result<u8, TraciError>)
    ensures
        match tagged_u8(old(s)@, old(s).cursor()) {
            Some((v, q)) => r == Ok::<u8, TraciError>(v) && final(s).cursor() == q,
            None => r matches Err(e) && e.is_protocol(),
        },
        final(s)@ == old(s)@,
{
    s.read_u8()?;
    s.read_u8()
}

fn read_tagged_string(s: &mut Storage) -> (r: Result<String, TraciError>)
    ensures
        match tagged_string(old(s)@, old(s).cursor()) {
            Some((v, q)) => r matches Ok(x) && x@ == v && final(s).cursor() == q,
            None => r matches Err(e) && e.is_protocol(),
        },
        final(s)@ == old(s)@,
{
    s.read_u8()?;
    s.read_string()
}

fn read_tagged_string_list(s: &mut Storage) -> (r: Result<Vec<String>, TraciError>)
    ensures
        match tagged_string_list(old(s)@, old(s).cursor()) {
            Some((v, q)) => r matches Ok(x) && strings_view(x@) == v && final(s).cursor() == q,
            None => r matches Err(e) && e.is_protocol(),
        },
        final(s)@ == old(s)@,
{
    s.read_u8()?;
    s.read_string_list()
}

// ---------------------------------------------------------------------------
// Stages
// ---------------------------------------------------------------------------

/// The content of a `TraciStage`.
pub struct StageModel {
    pub type_: i32,
    pub v_type: Seq<char>,
    pub line: Seq<char>,
    pub dest_stop: Seq<char>,
    pub edges: Seq<Seq<char>>,
    pub travel_time: u64,
    pub cost: u64,
    pub length: u64,
    pub intended: Seq<char>,
    pub depart: u64,
    pub depart_pos: u64,
    pub arrival_pos: u64,
    pub description: Seq<char>,
}

/// The content of `s`.
pub open spec fn stage_model(s: TraciStage) -> StageModel {
    StageModel {
        type_: s.type_,
        v_type: s.v_type@,
        line: s.line@,
        dest_stop: s.dest_stop@,
        edges: strings_view(s.edges@),
        travel_time: s.travel_time,
        cost: s.cost,
        length: s.length,
        intended: s.intended@,
        depart: s.depart,
        depart_pos: s.depart_pos,
        arrival_pos: s.arrival_pos,
        description: s.description@,
    }
}

/// A stage at `p` (its compound tag already read): an `i32` component count
/// (not checked), then the thirteen tagged fields in declaration order.
pub open spec fn parse_stage(b: Seq<u8>, p: int) -> Option<(StageModel, int)> {
    let f0 = parse_i32(b, p);
    let f1 = tagged_i32(b, end(f0));
    let f2 = tagged_string(b, end(f1));
    let f3 = tagged_string(b, end(f2));
    let f4 = tagged_string(b, end(f3));
    let f5 = tagged_string_list(b, end(f4));
    let f6 = tagged_f64(b, end(f5));
    let f7 = tagged_f64(b, end(f6));
    let f8 = tagged_f64(b, end(f7));
    let f9 = tagged_string(b, end(f8));
    let f10 = tagged_f64(b, end(f9));
    let f11 = tagged_f64(b, end(f10));
    let f12 = tagged_f64(b, end(f11));
    let f13 = tagged_string(b, end(f12));
    if f0 is Some && f1 is Some && f2 is Some && f3 is Some && f4 is Some && f5 is Some
        && f6 is Some && f7 is Some && f8 is Some && f9 is Some && f10 is Some && f11 is Some
        && f12 is Some && f13 is Some {
        Some(
            (
                StageModel {
                    type_: val(f1),
                    v_type: val(f2),
                    line: val(f3),
                    dest_stop: val(f4),
                    edges: val(f5),
                    travel_time: val(f6),
                    cost: val(f7),
                    length: val(f8),
                    intended: val(f9),
                    depart: val(f10),
                    depart_pos: val(f11),
                    arrival_pos: val(f12),
                    description: val(f13),
                },
                end(f13),
            ),
        )
    } else {
        None
    }
}

/// The bytes of a stage after its compound tag: the component count (13),
/// then each field behind its type tag.
pub open spec fn enc_stage_body(s: StageModel) -> Seq<u8> {
    enc_i32(13) + t_i32(s.type_) + t_string(s.v_type) + t_string(s.line) + t_string(s.dest_stop)
        + t_string_list(s.edges) + t_f64(s.travel_time) + t_f64(s.cost) + t_f64(s.length)
        + t_string(s.intended) + t_f64(s.depart) + t_f64(s.depart_pos) + t_f64(s.arrival_pos)
        + t_string(s.description)
}

/// Whether every string of a stage fits its length prefix.
pub open spec fn stage_fits(s: StageModel) -> bool {
    &&& string_fits(s.v_type)
    &&& string_fits(s.line)
    &&& string_fits(s.dest_stop)
    &&& string_fits(s.intended)
    &&& string_fits(s.description)
    &&& s.edges.len() <= i32::MAX
    &&& forall|i: int| 0 <= i < s.edges.len() ==> string_fits(#[trigger] s.edges[i])
}

/// Reads a stage (its compound tag already read).
pub fn read_traci_stage(s: &mut Storage) -> (r: Result<TraciStage, TraciError>)
    ensures
        match parse_stage(old(s)@, old(s).cursor()) {
            Some((m, q)) => r matches Ok(x) && stage_model(x) == m && final(s).cursor() == q,
            None => r matches Err(e) && e.is_protocol(),
        },
        final(s)@ == old(s)@,
{
    s.read_i32()?;
    let type_ = read_tagged_i32(s)?;
    let v_type = read_tagged_string(s)?;
    let line = read_tagged_string(s)?;
    let dest_stop = read_tagged_string(s)?;
    let edges = read_tagged_string_list(s)?;
    let travel_time = read_tagged_f64(s)?;
    let cost = read_tagged_f64(s)?;
    let length = read_tagged_f64(s)?;
    let intended = read_tagged_string(s)?;
    let depart = read_tagged_f64(s)?;
    let depart_pos = read_tagged_f64(s)?;
    let arrival_pos = read_tagged_f64(s)?;
    let description = read_tagged_string(s)?;
    Ok(
        TraciStage {
            type_,
            v_type,
            line,
            dest_stop,
            edges,
            travel_time,
            cost,
            length,
            intended,
            depart,
            depart_pos,
            arrival_pos,
            description,
        },
    )
}

/// Appends a stage as a compound value: its tag, then its body.
pub fn write_stage(out: &mut Storage, stage: &TraciStage)
    requires
        stage_fits(stage_model(*stage)),
    ensures
        final(out)@ == old(out)@ + seq![TYPE_COMPOUND] + enc_stage_body(stage_model(*stage)),
        final(out).cursor() == old(out).cursor(),
{
    assert forall|i: int| 0 <= i < stage.edges@.len() implies string_fits(
        #[trigger] stage.edges@[i]@,
    ) by {
        assert(strings_view(stage.edges@)[i] == stage.edges@[i]@);
    }
    out.write_u8(TYPE_COMPOUND);
    let ghost base = out@;
    out.write_i32(13);
    let ghost mut acc = enc_i32(13);
    write_tagged_i32(out, stage.type_);
    proof {
        lemma_concat_associative(base, acc, t_i32(stage.type_));
        acc = acc + t_i32(stage.type_);
    }
    write_tagged_string(out, stage.v_type.as_str());
    proof {
        lemma_concat_associative(base, acc, t_string(stage.v_type@));
        acc = acc + t_string(stage.v_type@);
    }
    write_tagged_string(out, stage.line.as_str());
    proof {
        lemma_concat_associative(base, acc, t_string(stage.line@));
        acc = acc + t_string(stage.line@);
    }
    write_tagged_string(out, stage.dest_stop.as_str());
    proof {
        lemma_concat_associative(base, acc, t_string(stage.dest_stop@));
        acc = acc + t_string(stage.dest_stop@);
    }
    write_tagged_string_list(out, stage.edges.as_slice());
    proof {
        lemma_concat_associative(base, acc, t_string_list(strings_view(stage.edges@)));
        acc = acc + t_string_list(strings_view(stage.edges@));
    }
    write_tagged_f64(out, stage.travel_time);
    proof {
        lemma_concat_associative(base, acc, t_f64(stage.travel_time));
        acc = acc + t_f64(stage.travel_time);
    }
    write_tagged_f64(out, stage.cost);
    proof {
        lemma_concat_associative(base, acc, t_f64(stage.cost));
        acc = acc + t_f64(stage.cost);
    }
    write_tagged_f64(out, stage.length);
    proof {
        lemma_concat_associative(base, acc, t_f64(stage.length));
        acc = acc + t_f64(stage.length);
    }
    write_tagged_string(out, stage.intended.as_str());
    proof {
        lemma_concat_associative(base, acc, t_string(stage.intended@));
        acc = acc + t_string(stage.intended@);
    }
    write_tagged_f64(out, stage.depart);
    proof {
        lemma_concat_associative(base, acc, t_f64(stage.depart));
        acc = acc + t_f64(stage.depart);
    }
    write_tagged_f64(out, stage.depart_pos);
    proof {
        lemma_concat_associative(base, acc, t_f64(stage.depart_pos));
        acc = acc + t_f64(stage.depart_pos);
    }
    write_tagged_f64(out, stage.arrival_pos);
    proof {
        lemma_concat_associative(base, acc, t_f64(stage.arrival_pos));
        acc = acc + t_f64(stage.arrival_pos);
    }
    write_tagged_string(out, stage.description.as_str());
    proof {
        lemma_concat_associative(base, acc, t_string(stage.description@));
        acc = acc + t_string(stage.description@);
    }
    assert(acc == enc_stage_body(stage_model(*stage)));
}

/// A window of `b` that holds `x + y` holds `x`, then `y`.
proof fn lemma_split(b: Seq<u8>, p: int, x: Seq<u8>, y: Seq<u8>)
    requires
        0 <= p,
        p + (x + y).len() <= b.len(),
        b.subrange(p, p + (x + y).len()) == x + y,
    ensures
        b.subrange(p, p + x.len()) == x,
        b.subrange(p + x.len(), p + x.len() + y.len()) == y,
{
    lemma_window(b, p, x + y, 0, x.len() as int);
    lemma_window(b, p, x + y, x.len() as int, (x + y).len() as int);
    assert((x + y).subrange(0, x.len() as int) =~= x);
    assert((x + y).subrange(x.len() as int, (x + y).len() as int) =~= y);
}

proof fn lemma_tagged_i32_at(b: Seq<u8>, p: int, v: i32)
    requires
        0 <= p,
        p + t_i32(v).len() <= b.len(),
        b.subrange(p, p + t_i32(v).len()) == t_i32(v),
    ensures
        tagged_i32(b, p) == Some((v, p + t_i32(v).len())),
{
    lemma_split(b, p, seq![TYPE_INTEGER], enc_i32(v));
    lemma_i32_round_trip(b, p + 1, v);
}

proof fn lemma_tagged_f64_at(b: Seq<u8>, p: int, v: u64)
    requires
        0 <= p,
        p + t_f64(v).len() <= b.len(),
        b.subrange(p, p + t_f64(v).len()) == t_f64(v),
    ensures
        tagged_f64(b, p) == Some((v, p + t_f64(v).len())),
{
    lemma_split(b, p, seq![TYPE_DOUBLE], enc_f64(v));
    lemma_f64_round_trip(b, p + 1, v);
}

proof fn lemma_tagged_string_at(b: Seq<u8>, p: int, v: Seq<char>)
    requires
        string_fits(v),
        0 <= p,
        p + t_string(v).len() <= b.len(),
        b.subrange(p, p + t_string(v).len()) == t_string(v),
    ensures
        tagged_string(b, p) == Some((v, p + t_string(v).len())),
{
    lemma_split(b, p, seq![TYPE_STRING], enc_string(v));
    lemma_string_round_trip(b, p + 1, v);
}

proof fn lemma_tagged_string_list_at(b: Seq<u8>, p: int, v: Seq<Seq<char>>)
    requires
        v.len() <= i32::MAX,
        forall|i: int| 0 <= i < v.len() ==> string_fits(#[trigger] v[i]),
        0 <= p,
        p + t_string_list(v).len() <= b.len(),
        b.subrange(p, p + t_string_list(v).len()) == t_string_list(v),
    ensures
        tagged_string_list(b, p) == Some((v, p + t_string_list(v).len())),
{
    lemma_split(b, p, seq![TYPE_STRINGLIST], enc_string_list(v));
    lemma_string_list_round_trip(b, p + 1, v);
}

/// Round trip of stages: wherever the body of a stage stands, reading a stage
/// there gives it back and stops right after it.
#[verifier::rlimit(50)]
pub proof fn lemma_stage_round_trip(b: Seq<u8>, p: int, m: StageModel)
    requires
        stage_fits(m),
        0 <= p,
        p + enc_stage_body(m).len() <= b.len(),
        b.subrange(p, p + enc_stage_body(m).len()) == enc_stage_body(m),
    ensures
        parse_stage(b, p) == Some((m, p + enc_stage_body(m).len())),
{
    let x0 = enc_i32(13);
    let x1 = x0 + t_i32(m.type_);
    let x2 = x1 + t_string(m.v_type);
    let x3 = x2 + t_string(m.line);
    let x4 = x3 + t_string(m.dest_stop);
    let x5 = x4 + t_string_list(m.edges);
    let x6 = x5 + t_f64(m.travel_time);
    let x7 = x6 + t_f64(m.cost);
    let x8 = x7 + t_f64(m.length);
    let x9 = x8 + t_string(m.intended);
    let x10 = x9 + t_f64(m.depart);
    let x11 = x10 + t_f64(m.depart_pos);
    let x12 = x11 + t_f64(m.arrival_pos);
    let x13 = x12 + t_string(m.description);
    assert(x13 == enc_stage_body(m));
    lemma_split(b, p, x12, t_string(m.description));
    lemma_split(b, p, x11, t_f64(m.arrival_pos));
    lemma_split(b, p, x10, t_f64(m.depart_pos));
    lemma_split(b, p, x9, t_f64(m.depart));
    lemma_split(b, p, x8, t_string(m.intended));
    lemma_split(b, p, x7, t_f64(m.length));
    lemma_split(b, p, x6, t_f64(m.cost));
    lemma_split(b, p, x5, t_f64(m.travel_time));
    lemma_split(b, p, x4, t_string_list(m.edges));
    lemma_split(b, p, x3, t_string(m.dest_stop));
    lemma_split(b, p, x2, t_string(m.line));
    lemma_split(b, p, x1, t_string(m.v_type));
    lemma_split(b, p, x0, t_i32(m.type_));
    lemma_i32_round_trip(b, p, 13);
    lemma_tagged_i32_at(b, p + x0.len(), m.type_);
    lemma_tagged_string_at(b, p + x1.len(), m.v_type);
    lemma_tagged_string_at(b, p + x2.len(), m.line);
    lemma_tagged_string_at(b, p + x3.len(), m.dest_stop);
    lemma_tagged_string_list_at(b, p + x4.len(), m.edges);
    lemma_tagged_f64_at(b, p + x5.len(), m.travel_time);
    lemma_tagged_f64_at(b, p + x6.len(), m.cost);
    lemma_tagged_f64_at(b, p + x7.len(), m.length);
    lemma_tagged_string_at(b, p + x8.len(), m.intended);
    lemma_tagged_f64_at(b, p + x9.len(), m.depart);
    lemma_tagged_f64_at(b, p + x10.len(), m.depart_pos);
    lemma_tagged_f64_at(b, p + x11.len(), m.arrival_pos);
    lemma_tagged_string_at(b, p + x12.len(), m.description);
}

// ---------------------------------------------------------------------------
// Record lists: an `i32` component count and an item-type tag (neither
// checked), an `i32` item count (none when negative), then the items
// ---------------------------------------------------------------------------

/// `n` items from `p`, each read by `item`.
pub open spec fn parse_items<T>(
    b: Seq<u8>,
    p: int,
    n: nat,
    item: spec_fn(Seq<u8>, int) -> Option<(T, int)>,
) -> Option<(Seq<T>, int)>
    decreases n,
{
    if n == 0 {
        Some((seq![], p))
    } else {
        match parse_items(b, p, (n - 1) as nat, item) {
            Some((l, q)) => match item(b, q) {
                Some((x, r)) => Some((l.push(x), r)),
                None => None,
            },
            None => None,
        }
    }
}

/// The item count of a record list at `p`, and where its items start.
pub open spec fn parse_list_head(b: Seq<u8>, p: int) -> Option<(nat, int)> {
    let f0 = parse_i32(b, p);
    let f1 = parse_u8(b, end(f0));
    let f2 = parse_i32(b, end(f1));
    if f0 is Some && f1 is Some && f2 is Some {
        Some(
            (
                if val(f2) < 0 {
                    0
                } else {
                    val(f2) as nat
                },
                end(f2),
            ),
        )
    } else {
        None
    }
}

/// A record list at `p`, each item read by `item`.
pub open spec fn parse_record_list<T>(
    b: Seq<u8>,
    p: int,
    item: spec_fn(Seq<u8>, int) -> Option<(T, int)>,
) -> Option<(Seq<T>, int)> {
    match parse_list_head(b, p) {
        Some((n, q)) => parse_items(b, q, n, item),
        None => None,
    }
}

proof fn lemma_parse_items_none_from<T>(
    b: Seq<u8>,
    p: int,
    item: spec_fn(Seq<u8>, int) -> Option<(T, int)>,
    k: nat,
    n: nat,
)
    requires
        parse_items(b, p, k, item) is None,
        k <= n,
    ensures
        parse_items(b, p, n, item) is None,
    decreases n - k,
{
    if k < n {
        lemma_parse_items_none_from(b, p, item, k, (n - 1) as nat);
    }
}

/// Reads a record-list head: returns the item count.
fn read_list_head(s: &mut Storage) -> (r: Result<i32, TraciError>)
    ensures
        match parse_list_head(old(s)@, old(s).cursor()) {
            Some((n, q)) => r matches Ok(x) && (if x < 0 {
                0
            } else {
                x as nat
            }) == n && final(s).cursor() == q,
            None => r matches Err(e) && e.is_protocol(),
        },
        final(s)@ == old(s)@,
{
    s.read_i32()?;
    s.read_u8()?;
    s.read_i32()
}

// ---------------------------------------------------------------------------
// Induction-loop vehicle data
// ---------------------------------------------------------------------------

/// The content of a `TraciVehicleData`.
pub struct VehicleDataModel {
    pub id: Seq<char>,
    pub length: u64,
    pub entry_time: u64,
    pub leave_time: u64,
    pub type_id: Seq<char>,
}

/// The content of `v`.
pub open spec fn vehicle_data_model(v: TraciVehicleData) -> VehicleDataModel {
    VehicleDataModel {
        id: v.id@,
        length: v.length,
        entry_time: v.entry_time,
        leave_time: v.leave_time,
        type_id: v.type_id@,
    }
}

/// One vehicle record: tagged id, length, entry time, leave time, type id.
pub open spec fn parse_vehicle_data(b: Seq<u8>, p: int) -> Option<(VehicleDataModel, int)> {
    let f1 = tagged_string(b, p);
    let f2 = tagged_f64(b, end(f1));
    let f3 = tagged_f64(b, end(f2));
    let f4 = tagged_f64(b, end(f3));
    let f5 = tagged_string(b, end(f4));
    if f1 is Some && f2 is Some && f3 is Some && f4 is Some && f5 is Some {
        Some(
            (
                VehicleDataModel {
                    id: val(f1),
                    length: val(f2),
                    entry_time: val(f3),
                    leave_time: val(f4),
                    type_id: val(f5),
                },
                end(f5),
            ),
        )
    } else {
        None
    }
}

/// `parse_vehicle_data` as a value.
pub open spec fn vehicle_data_item() -> spec_fn(Seq<u8>, int) -> Option<(VehicleDataModel, int)> {
    |b: Seq<u8>, p: int| parse_vehicle_data(b, p)
}

fn read_vehicle_data(s: &mut Storage) -> (r: Result<TraciVehicleData, TraciError>)
    ensures
        match parse_vehicle_data(old(s)@, old(s).cursor()) {
            Some((m, q)) => r matches Ok(x) && vehicle_data_model(x) == m && final(s).cursor()
                == q,
            None => r matches Err(e) && e.is_protocol(),
        },
        final(s)@ == old(s)@,
{
    let id = read_tagged_string(s)?;
    let length = read_tagged_f64(s)?;
    let entry_time = read_tagged_f64(s)?;
    let leave_time = read_tagged_f64(s)?;
    let type_id = read_tagged_string(s)?;
    Ok(TraciVehicleData { id, length, entry_time, leave_time, type_id })
}

/// Reads the vehicle records of an induction loop (the compound tag already
/// read).
pub fn read_vehicle_data_list(s: &mut Storage) -> (r: Result<Vec<TraciVehicleData>, TraciError>)
    ensures
        match parse_record_list(old(s)@, old(s).cursor(), vehicle_data_item()) {
            Some((l, q)) => r matches Ok(x) && x@.map_values(|v: TraciVehicleData| vehicle_data_model(v))
                == l && final(s).cursor() == q,
            None => r matches Err(e) && e.is_protocol(),
        },
        final(s)@ == old(s)@,
{
    let ghost item = vehicle_data_item();
    let n = read_list_head(s)?;
    let ghost b = s@;
    let ghost p0 = s.cursor();
    let mut out: Vec<TraciVehicleData> = Vec::new();
    let mut i: i32 = 0;
    while i < n
        invariant
            0 <= i,
            i <= (if n < 0 {
                0
            } else {
                n
            }),
            s@ == b,
            b == old(s)@,
            item == vehicle_data_item(),
            parse_list_head(b, old(s).cursor()) == Some(
                (
                    if n < 0 {
                        0
                    } else {
                        n as nat
                    },
                    p0,
                ),
            ),
            parse_items(b, p0, i as nat, item) == Some(
                (out@.map_values(|v: TraciVehicleData| vehicle_data_model(v)), s.cursor()),
            ),
        decreases n - i,
    {
        let ghost before = out@;
        let x = match read_vehicle_data(s) {
            Ok(x) => x,
            Err(e) => {
                proof {
                    lemma_parse_items_none_from(b, p0, item, (i + 1) as nat, n as nat);
                }
                return Err(e);
            },
        };
        out.push(x);
        assert(out@.map_values(|v: TraciVehicleData| vehicle_data_model(v)) =~= before.map_values(
            |v: TraciVehicleData| vehicle_data_model(v),
        ).push(vehicle_data_model(x)));
        i = i + 1;
    }
    Ok(out)
}

// ---------------------------------------------------------------------------
// Upcoming traffic lights
// ---------------------------------------------------------------------------

/// The content of a `TraciNextTLSData`.
pub struct NextTlsModel {
    pub id: Seq<char>,
    pub tl_index: i32,
    pub dist: u64,
    pub state: char,
}

/// The content of `v`.
pub open spec fn next_tls_model(v: TraciNextTLSData) -> NextTlsModel {
    NextTlsModel { id: v.id@, tl_index: v.tl_index, dist: v.dist, state: v.state }
}

/// One upcoming traffic light: tagged id, link index, distance, and state
/// byte (the character with that code).
pub open spec fn parse_next_tls(b: Seq<u8>, p: int) -> Option<(NextTlsModel, int)> {
    let f1 = tagged_string(b, p);
    let f2 = tagged_i32(b, end(f1));
    let f3 = tagged_f64(b, end(f2));
    let f4 = tagged_u8(b, end(f3));
    if f1 is Some && f2 is Some && f3 is Some && f4 is Some {
        Some(
            (
                NextTlsModel {
                    id: val(f1),
                    tl_index: val(f2),
                    dist: val(f3),
                    state: val(f4) as char,
                },
                end(f4),
            ),
        )
    } else {
        None
    }
}

/// `parse_next_tls` as a value.
pub open spec fn next_tls_item() -> spec_fn(Seq<u8>, int) -> Option<(NextTlsModel, int)> {
    |b: Seq<u8>, p: int| parse_next_tls(b, p)
}

fn read_next_tls(s: &mut Storage) -> (r: Result<TraciNextTLSData, TraciError>)
    ensures
        match parse_next_tls(old(s)@, old(s).cursor()) {
            Some((m, q)) => r matches Ok(x) && next_tls_model(x) == m && final(s).cursor() == q,
            None => r matches Err(e) && e.is_protocol(),
        },
        final(s)@ == old(s)@,
{
    let id = read_tagged_string(s)?;
    let tl_index = read_tagged_i32(s)?;
    let dist = read_tagged_f64(s)?;
    let state_byte = read_tagged_u8(s)?;
    Ok(TraciNextTLSData { id, tl_index, dist, state: state_byte as char })
}

/// Reads the upcoming traffic lights of a vehicle (the compound tag already read).
pub fn read_next_tls_list(s: &mut Storage) -> (r: Result<Vec<TraciNextTLSData>, TraciError>)
    ensures
        match parse_record_list(old(s)@, old(s).cursor(), next_tls_item()) {
            Some((l, q)) => r matches Ok(x) && x@.map_values(|v: TraciNextTLSData| next_tls_model(v))
                == l && final(s).cursor() == q,
            None => r matches Err(e) && e.is_protocol(),
        },
        final(s)@ == old(s)@,
{
    let ghost item = next_tls_item();
    let n = read_list_head(s)?;
    let ghost b = s@;
    let ghost p0 = s.cursor();
    let mut out: Vec<TraciNextTLSData> = Vec::new();
    let mut i: i32 = 0;
    while i < n
        invariant
            0 <= i,
            i <= (if n < 0 {
                0
            } else {
                n
            }),
            s@ == b,
            b == old(s)@,
            item == next_tls_item(),
            parse_list_head(b, old(s).cursor()) == Some(
                (
                    if n < 0 {
                        0
                    } else {
                        n as nat
                    },
                    p0,
                ),
            ),
            parse_items(b, p0, i as nat, item) == Some(
                (out@.map_values(|v: TraciNextTLSData| next_tls_model(v)), s.cursor()),
            ),
        decreases n - i,
    {
        let ghost before = out@;
        let x = match read_next_tls(s) {
            Ok(x) => x,
            Err(e) => {
                proof {
                    lemma_parse_items_none_from(b, p0, item, (i + 1) as nat, n as nat);
                }
                return Err(e);
            },
        };
        out.push(x);
        assert(out@.map_values(|v: TraciNextTLSData| next_tls_model(v)) =~= before.map_values(
            |v: TraciNextTLSData| next_tls_model(v),
        ).push(next_tls_model(x)));
        i = i + 1;
    }
    Ok(out)
}

// ---------------------------------------------------------------------------
// Best lanes
// ---------------------------------------------------------------------------

/// The content of a `TraciBestLanesData`.
pub struct BestLanesModel {
    pub lane_id: Seq<char>,
    pub length: u64,
    pub occupation: u64,
    pub best_lane_offset: i32,
    pub allows_continuation: bool,
    pub continuation_lanes: Seq<Seq<char>>,
}

/// The content of `v`.
pub open spec fn best_lanes_model(v: TraciBestLanesData) -> BestLanesModel {
    BestLanesModel {
        lane_id: v.lane_id@,
        length: v.length,
        occupation: v.occupation,
        best_lane_offset: v.best_lane_offset,
        allows_continuation: v.allows_continuation,
        continuation_lanes: strings_view(v.continuation_lanes@),
    }
}

/// One best-lane record: tagged lane id, length, occupation, offset (a signed
/// byte), continuation flag (a byte, set when 1), and the continuation lanes.
pub open spec fn parse_best_lanes(b: Seq<u8>, p: int) -> Option<(BestLanesModel, int)> {
    let f1 = tagged_string(b, p);
    let f2 = tagged_f64(b, end(f1));
    let f3 = tagged_f64(b, end(f2));
    let f4 = tagged_u8(b, end(f3));
    let f5 = tagged_u8(b, end(f4));
    let f6 = tagged_string_list(b, end(f5));
    if f1 is Some && f2 is Some && f3 is Some && f4 is Some && f5 is Some && f6 is Some {
        Some(
            (
                BestLanesModel {
                    lane_id: val(f1),
                    length: val(f2),
                    occupation: val(f3),
                    best_lane_offset: signed_byte(val(f4)),
                    allows_continuation: val(f5) == 1,
                    continuation_lanes: val(f6),
                },
                end(f6),
            ),
        )
    } else {
        None
    }
}

/// `parse_best_lanes` as a value.
pub open spec fn best_lanes_item() -> spec_fn(Seq<u8>, int) -> Option<(BestLanesModel, int)> {
    |b: Seq<u8>, p: int| parse_best_lanes(b, p)
}

fn read_best_lanes(s: &mut Storage) -> (r: Result<TraciBestLanesData, TraciError>)
    ensures
        match parse_best_lanes(old(s)@, old(s).cursor()) {
            Some((m, q)) => r matches Ok(x) && best_lanes_model(x) == m && final(s).cursor()
                == q,
            None => r matches Err(e) && e.is_protocol(),
        },
        final(s)@ == old(s)@,
{
    let lane_id = read_tagged_string(s)?;
    let length = read_tagged_f64(s)?;
    let occupation = read_tagged_f64(s)?;
    let offset = read_tagged_u8(s)?;
    let best_lane_offset: i32 = if offset < 128 {
        offset as i32
    } else {
        offset as i32 - 256
    };
    let allows = read_tagged_u8(s)?;
    let continuation_lanes = read_tagged_string_list(s)?;
    Ok(
        TraciBestLanesData {
            lane_id,
            length,
            occupation,
            best_lane_offset,
            allows_continuation: allows == 1,
            continuation_lanes,
        },
    )
}

/// Reads the best-lane records of a vehicle (the compound tag already read).
pub fn read_best_lanes_list(s: &mut Storage) -> (r: Result<Vec<TraciBestLanesData>, TraciError>)
    ensures
        match parse_record_list(old(s)@, old(s).cursor(), best_lanes_item()) {
            Some((l, q)) => r matches Ok(x) && x@.map_values(|v: TraciBestLanesData| best_lanes_model(v))
                == l && final(s).cursor() == q,
            None => r matches Err(e) && e.is_protocol(),
        },
        final(s)@ == old(s)@,
{
    let ghost item = best_lanes_item();
    let n = read_list_head(s)?;
    let ghost b = s@;
    let ghost p0 = s.cursor();
    let mut out: Vec<TraciBestLanesData> = Vec::new();
    let mut i: i32 = 0;
    while i < n
        invariant
            0 <= i,
            i <= (if n < 0 {
                0
            } else {
                n
            }),
            s@ == b,
            b == old(s)@,
            item == best_lanes_item(),
            parse_list_head(b, old(s).cursor()) == Some(
                (
                    if n < 0 {
                        0
                    } else {
                        n as nat
                    },
                    p0,
                ),
            ),
            parse_items(b, p0, i as nat, item) == Some(
                (out@.map_values(|v: TraciBestLanesData| best_lanes_model(v)), s.cursor()),
            ),
        decreases n - i,
    {
        let ghost before = out@;
        let x = match read_best_lanes(s) {
            Ok(x) => x,
            Err(e) => {
                proof {
                    lemma_parse_items_none_from(b, p0, item, (i + 1) as nat, n as nat);
                }
                return Err(e);
            },
        };
        out.push(x);
        assert(out@.map_values(|v: TraciBestLanesData| best_lanes_model(v)) =~= before.map_values(
            |v: TraciBestLanesData| best_lanes_model(v),
        ).push(best_lanes_model(x)));
        i = i + 1;
    }
    Ok(out)
}

// ---------------------------------------------------------------------------
// Lane connections
// ---------------------------------------------------------------------------

/// The content of a `TraciConnection`.
pub struct ConnectionModel {
    pub approached_lane: Seq<char>,
    pub has_prio: bool,
    pub is_open: bool,
    pub has_foe: bool,
    pub approached_internal: Seq<char>,
    pub state: Seq<char>,
    pub direction: Seq<char>,
    pub length: u64,
}

/// The content of `c`.
pub open spec fn connection_model(c: TraciConnection) -> ConnectionModel {
    ConnectionModel {
        approached_lane: c.approached_lane@,
        has_prio: c.has_prio,
        is_open: c.is_open,
        has_foe: c.has_foe,
        approached_internal: c.approached_internal@,
        state: c.state@,
        direction: c.direction@,
        length: c.length,
    }
}

/// One lane connection: tagged approached lane, approached internal lane,
/// priority, open and foe flags (bytes, set when not zero), state, direction
/// and length.
pub open spec fn parse_connection(b: Seq<u8>, p: int) -> Option<(ConnectionModel, int)> {
    let f1 = tagged_string(b, p);
    let f2 = tagged_string(b, end(f1));
    let f3 = tagged_u8(b, end(f2));
    let f4 = tagged_u8(b, end(f3));
    let f5 = tagged_u8(b, end(f4));
    let f6 = tagged_string(b, end(f5));
    let f7 = tagged_string(b, end(f6));
    let f8 = tagged_f64(b, end(f7));
    if f1 is Some && f2 is Some && f3 is Some && f4 is Some && f5 is Some && f6 is Some
        && f7 is Some && f8 is Some {
        Some(
            (
                ConnectionModel {
                    approached_lane: val(f1),
                    has_prio: val(f3) != 0,
                    is_open: val(f4) != 0,
                    has_foe: val(f5) != 0,
                    approached_internal: val(f2),
                    state: val(f6),
                    direction: val(f7),
                    length: val(f8),
                },
                end(f8),
            ),
        )
    } else {
        None
    }
}

/// `parse_connection` as a value.
pub open spec fn connection_item() -> spec_fn(Seq<u8>, int) -> Option<(ConnectionModel, int)> {
    |b: Seq<u8>, p: int| parse_connection(b, p)
}

/// The connections of a lane at `p` (the compound tag already read): a
/// compound tag and component count (not checked), an `i32` count (none when
/// negative), then the connections.
pub open spec fn parse_connection_list(b: Seq<u8>, p: int) -> Option<(Seq<ConnectionModel>, int)> {
    let f0 = parse_u8(b, p);
    let f1 = parse_i32(b, end(f0));
    let f2 = parse_i32(b, end(f1));
    if f0 is Some && f1 is Some && f2 is Some {
        parse_items(
            b,
            end(f2),
            if val(f2) < 0 {
                0
            } else {
                val(f2) as nat
            },
            connection_item(),
        )
    } else {
        None
    }
}

fn read_connection(s: &mut Storage) -> (r: Result<TraciConnection, TraciError>)
    ensures
        match parse_connection(old(s)@, old(s).cursor()) {
            Some((m, q)) => r matches Ok(x) && connection_model(x) == m && final(s).cursor()
                == q,
            None => r matches Err(e) && e.is_protocol(),
        },
        final(s)@ == old(s)@,
{
    let approached_lane = read_tagged_string(s)?;
    let approached_internal = read_tagged_string(s)?;
    let has_prio = read_tagged_u8(s)? != 0;
    let is_open = read_tagged_u8(s)? != 0;
    let has_foe = read_tagged_u8(s)? != 0;
    let state = read_tagged_string(s)?;
    let direction = read_tagged_string(s)?;
    let length = read_tagged_f64(s)?;
    Ok(
        TraciConnection {
            approached_lane,
            has_prio,
            is_open,
            has_foe,
            approached_internal,
            state,
            direction,
            length,
        },
    )
}

/// Reads the connections of a lane (the compound tag already read).
pub fn read_connection_list(s: &mut Storage) -> (r: Result<Vec<TraciConnection>, TraciError>)
    ensures
        match parse_connection_list(old(s)@, old(s).cursor()) {
            Some((l, q)) => r matches Ok(x) && x@.map_values(|v: TraciConnection| connection_model(v))
                == l && final(s).cursor() == q,
            None => r matches Err(e) && e.is_protocol(),
        },
        final(s)@ == old(s)@,
{
    let ghost item = connection_item();
    s.read_u8()?;
    s.read_i32()?;
    let n = s.read_i32()?;
    let ghost b = s@;
    let ghost p0 = s.cursor();
    assert(parse_connection_list(b, old(s).cursor()) == parse_items(
        b,
        p0,
        if n < 0 {
            0
        } else {
            n as nat
        },
        item,
    ));
    let mut out: Vec<TraciConnection> = Vec::new();
    let mut i: i32 = 0;
    while i < n
        invariant
            0 <= i,
            i <= (if n < 0 {
                0
            } else {
                n
            }),
            s@ == b,
            b == old(s)@,
            item == connection_item(),
            parse_connection_list(b, old(s).cursor()) == parse_items(
                b,
                p0,
                if n < 0 {
                    0
                } else {
                    n as nat
                },
                item,
            ),
            parse_items(b, p0, i as nat, item) == Some(
                (out@.map_values(|v: TraciConnection| connection_model(v)), s.cursor()),
            ),
        decreases n - i,
    {
        let ghost before = out@;
        let x = match read_connection(s) {
            Ok(x) => x,
            Err(e) => {
                proof {
                    lemma_parse_items_none_from(b, p0, item, (i + 1) as nat, n as nat);
                }
                return Err(e);
            },
        };
        out.push(x);
        assert(out@.map_values(|v: TraciConnection| connection_model(v)) =~= before.map_values(
            |v: TraciConnection| connection_model(v),
        ).push(connection_model(x)));
        i = i + 1;
    }
    Ok(out)
}

// ---------------------------------------------------------------------------
// Controlled links
// ---------------------------------------------------------------------------

/// The content of a `TraciLink`.
pub struct LinkModel {
    pub from_lane: Seq<char>,
    pub via_lane: Seq<char>,
    pub to_lane: Seq<char>,
}

/// The content of `l`.
pub open spec fn link_model(l: TraciLink) -> LinkModel {
    LinkModel { from_lane: l.from_lane@, via_lane: l.via_lane@, to_lane: l.to_lane@ }
}

/// The content of a group of links.
pub open spec fn link_group_model(g: Vec<TraciLink>) -> Seq<LinkModel> {
    g@.map_values(|l: TraciLink| link_model(l))
}

/// One link: a compound tag and component count (not checked), then the
/// incoming, outgoing and via lanes as plain strings.
pub open spec fn parse_link(b: Seq<u8>, p: int) -> Option<(LinkModel, int)> {
    let f0 = parse_u8(b, p);
    let f1 = parse_i32(b, end(f0));
    let f2 = parse_string(b, end(f1));
    let f3 = parse_string(b, end(f2));
    let f4 = parse_string(b, end(f3));
    if f0 is Some && f1 is Some && f2 is Some && f3 is Some && f4 is Some {
        Some((LinkModel { from_lane: val(f2), via_lane: val(f4), to_lane: val(f3) }, end(f4)))
    } else {
        None
    }
}

/// `parse_link` as a value.
pub open spec fn link_item() -> spec_fn(Seq<u8>, int) -> Option<(LinkModel, int)> {
    |b: Seq<u8>, p: int| parse_link(b, p)
}

/// The links of one signal index: a compound tag, an `i32` count (none when
/// negative), then the links.
pub open spec fn parse_link_group(b: Seq<u8>, p: int) -> Option<(Seq<LinkModel>, int)> {
    let f0 = parse_u8(b, p);
    let f1 = parse_i32(b, end(f0));
    if f0 is Some && f1 is Some {
        parse_items(b, end(f1), count(val(f1)), link_item())
    } else {
        None
    }
}

/// `parse_link_group` as a value.
pub open spec fn link_group_item() -> spec_fn(Seq<u8>, int) -> Option<(Seq<LinkModel>, int)> {
    |b: Seq<u8>, p: int| parse_link_group(b, p)
}

/// The links controlled by a traffic light at `p` (the compound tag already
/// read): a compound tag and total count (not checked), an `i32` count of
/// signal indices (none when negative), then one group per index.
pub open spec fn parse_controlled_links(b: Seq<u8>, p: int) -> Option<(Seq<Seq<LinkModel>>, int)> {
    let f0 = parse_u8(b, p);
    let f1 = parse_i32(b, end(f0));
    let f2 = parse_i32(b, end(f1));
    if f0 is Some && f1 is Some && f2 is Some {
        parse_items(b, end(f2), count(val(f2)), link_group_item())
    } else {
        None
    }
}

fn read_link(s: &mut Storage) -> (r: Result<TraciLink, TraciError>)
    ensures
        match parse_link(old(s)@, old(s).cursor()) {
            Some((m, q)) => r matches Ok(x) && link_model(x) == m && final(s).cursor() == q,
            None => r matches Err(e) && e.is_protocol(),
        },
        final(s)@ == old(s)@,
{
    s.read_u8()?;
    s.read_i32()?;
    let from_lane = s.read_string()?;
    let to_lane = s.read_string()?;
    let via_lane = s.read_string()?;
    Ok(TraciLink { from_lane, via_lane, to_lane })
}

fn read_link_group(s: &mut Storage) -> (r: Result<Vec<TraciLink>, TraciError>)
    ensures
        match parse_link_group(old(s)@, old(s).cursor()) {
            Some((m, q)) => r matches Ok(x) && link_group_model(x) == m && final(s).cursor()
                == q,
            None => r matches Err(e) && e.is_protocol(),
        },
        final(s)@ == old(s)@,
{
    let ghost item = link_item();
    s.read_u8()?;
    let n = s.read_i32()?;
    let ghost b = s@;
    let ghost p0 = s.cursor();
    let mut out: Vec<TraciLink> = Vec::new();
    let mut i: i32 = 0;
    while i < n
        invariant
            0 <= i,
            i as nat <= count(n),
            s@ == b,
            b == old(s)@,
            item == link_item(),
            parse_link_group(b, old(s).cursor()) == parse_items(b, p0, count(n), item),
            parse_items(b, p0, i as nat, item) == Some((link_group_model(out), s.cursor())),
        decreases n - i,
    {
        let ghost before = out@;
        let x = match read_link(s) {
            Ok(x) => x,
            Err(e) => {
                proof {
                    lemma_parse_items_none_from(b, p0, item, (i + 1) as nat, count(n));
                }
                return Err(e);
            },
        };
        out.push(x);
        assert(link_group_model(out) =~= before.map_values(|l: TraciLink| link_model(l)).push(
            link_model(x),
        ));
        i = i + 1;
    }
    Ok(out)
}

/// Reads the links controlled by a traffic light (the compound tag already
/// read), one group per signal index.
pub fn read_controlled_links(s: &mut Storage) -> (r: Result<Vec<Vec<TraciLink>>, TraciError>)
    ensures
        match parse_controlled_links(old(s)@, old(s).cursor()) {
            Some((l, q)) => r matches Ok(x) && x@.map_values(|g: Vec<TraciLink>| link_group_model(g))
                == l && final(s).cursor() == q,
            None => r matches Err(e) && e.is_protocol(),
        },
        final(s)@ == old(s)@,
{
    let ghost item = link_group_item();
    s.read_u8()?;
    s.read_i32()?;
    let n = s.read_i32()?;
    let ghost b = s@;
    let ghost p0 = s.cursor();
    let mut out: Vec<Vec<TraciLink>> = Vec::new();
    let mut i: i32 = 0;
    while i < n
        invariant
            0 <= i,
            i as nat <= count(n),
            s@ == b,
            b == old(s)@,
            item == link_group_item(),
            parse_controlled_links(b, old(s).cursor()) == parse_items(b, p0, count(n), item),
            parse_items(b, p0, i as nat, item) == Some(
                (out@.map_values(|g: Vec<TraciLink>| link_group_model(g)), s.cursor()),
            ),
        decreases n - i,
    {
        let ghost before = out@;
        let x = match read_link_group(s) {
            Ok(x) => x,
            Err(e) => {
                proof {
                    lemma_parse_items_none_from(b, p0, item, (i + 1) as nat, count(n));
                }
                return Err(e);
            },
        };
        let ghost xm = link_group_model(x);
        out.push(x);
        assert(out@.map_values(|g: Vec<TraciLink>| link_group_model(g)) =~= before.map_values(
            |g: Vec<TraciLink>| link_group_model(g),
        ).push(xm));
        i = i + 1;
    }
    Ok(out)
}

// ---------------------------------------------------------------------------
// Traffic-light programmes
// ---------------------------------------------------------------------------

/// The number of items that an `i32` count announces (none when negative).
pub open spec fn count(v: i32) -> nat {
    if v < 0 {
        0
    } else {
        v as nat
    }
}

/// `tagged_i32` as a value.
pub open spec fn tagged_i32_item() -> spec_fn(Seq<u8>, int) -> Option<(i32, int)> {
    |b: Seq<u8>, p: int| tagged_i32(b, p)
}

/// The content of a `TraciPhase`.
pub struct PhaseModel {
    pub duration: u64,
    pub state: Seq<char>,
    pub min_dur: u64,
    pub max_dur: u64,
    pub next: Seq<i32>,
    pub name: Seq<char>,
}

/// The content of `ph`.
pub open spec fn phase_model(ph: TraciPhase) -> PhaseModel {
    PhaseModel {
        duration: ph.duration,
        state: ph.state@,
        min_dur: ph.min_dur,
        max_dur: ph.max_dur,
        next: ph.next@,
        name: ph.name@,
    }
}

/// The content of a `TraciLogic`.
pub struct LogicModel {
    pub program_id: Seq<char>,
    pub type_: i32,
    pub current_phase_index: i32,
    pub phases: Seq<PhaseModel>,
    pub sub_parameter: Seq<(Seq<char>, Seq<char>)>,
}

/// The content of a key/value pair of strings.
pub open spec fn pair_view(kv: (String, String)) -> (Seq<char>, Seq<char>) {
    (kv.0@, kv.1@)
}

/// The content of `l`.
pub open spec fn logic_model(l: TraciLogic) -> LogicModel {
    LogicModel {
        program_id: l.program_id@,
        type_: l.type_,
        current_phase_index: l.current_phase_index,
        phases: l.phases@.map_values(|ph: TraciPhase| phase_model(ph)),
        sub_parameter: l.sub_parameter@.map_values(|kv: (String, String)| pair_view(kv)),
    }
}

/// The end of a phase from its next-phase indices on: `n` tagged indices and
/// the tagged name.
pub open spec fn phase_rest(
    b: Seq<u8>,
    p: int,
    n: nat,
    duration: u64,
    state: Seq<char>,
    min_dur: u64,
    max_dur: u64,
) -> Option<(PhaseModel, int)> {
    let f8 = parse_items(b, p, n, tagged_i32_item());
    let f9 = tagged_string(b, end(f8));
    if f8 is Some && f9 is Some {
        Some((PhaseModel { duration, state, min_dur, max_dur, next: val(f8), name: val(f9) }, end(f9)))
    } else {
        None
    }
}

/// One phase: a compound tag and component count (not checked), tagged
/// duration, state, minimum and maximum duration, a compound of tagged
/// next-phase indices, and the tagged name.
pub open spec fn parse_phase(b: Seq<u8>, p: int) -> Option<(PhaseModel, int)> {
    let f0 = parse_u8(b, p);
    let f1 = parse_i32(b, end(f0));
    let f2 = tagged_f64(b, end(f1));
    let f3 = tagged_string(b, end(f2));
    let f4 = tagged_f64(b, end(f3));
    let f5 = tagged_f64(b, end(f4));
    let f6 = parse_u8(b, end(f5));
    let f7 = parse_i32(b, end(f6));
    if f0 is Some && f1 is Some && f2 is Some && f3 is Some && f4 is Some && f5 is Some
        && f6 is Some && f7 is Some {
        phase_rest(b, end(f7), count(val(f7)), val(f2), val(f3), val(f4), val(f5))
    } else {
        None
    }
}

/// `parse_phase` as a value.
pub open spec fn phase_item() -> spec_fn(Seq<u8>, int) -> Option<(PhaseModel, int)> {
    |b: Seq<u8>, p: int| parse_phase(b, p)
}

/// `n` parameters from `p`, each a tagged string list; a list of at least
/// two strings gives the pair of its first two, a shorter one is skipped.
pub open spec fn parse_params(b: Seq<u8>, p: int, n: nat) -> Option<
    (Seq<(Seq<char>, Seq<char>)>, int),
>
    decreases n,
{
    if n == 0 {
        Some((seq![], p))
    } else {
        match parse_params(b, p, (n - 1) as nat) {
            Some((l, q)) => match tagged_string_list(b, q) {
                Some((pair, r)) => Some(
                    (
                        if pair.len() >= 2 {
                            l.push((pair[0], pair[1]))
                        } else {
                            l
                        },
                        r,
                    ),
                ),
                None => None,
            },
            None => None,
        }
    }
}

/// The end of a programme from its parameters on.
pub open spec fn logic_params_rest(
    b: Seq<u8>,
    p: int,
    n: nat,
    program_id: Seq<char>,
    type_: i32,
    current_phase_index: i32,
    phases: Seq<PhaseModel>,
) -> Option<(LogicModel, int)> {
    match parse_params(b, p, n) {
        Some((params, q)) => Some(
            (
                LogicModel {
                    program_id,
                    type_,
                    current_phase_index,
                    phases,
                    sub_parameter: params,
                },
                q,
            ),
        ),
        None => None,
    }
}

/// The end of a programme from its phases on: `n` phases, then a compound tag,
/// a parameter count and the parameters.
pub open spec fn logic_rest(
    b: Seq<u8>,
    p: int,
    n: nat,
    program_id: Seq<char>,
    type_: i32,
    current_phase_index: i32,
) -> Option<(LogicModel, int)> {
    let f6 = parse_items(b, p, n, phase_item());
    let f7 = parse_u8(b, end(f6));
    let f8 = parse_i32(b, end(f7));
    if f6 is Some && f7 is Some && f8 is Some {
        logic_params_rest(
            b,
            end(f8),
            count(val(f8)),
            program_id,
            type_,
            current_phase_index,
            val(f6),
        )
    } else {
        None
    }
}

/// One programme: a compound tag and component count (not checked), tagged
/// programme id, type, current phase index and phase count, the phases, and
/// the parameters.
pub open spec fn parse_logic(b: Seq<u8>, p: int) -> Option<(LogicModel, int)> {
    let f0 = parse_u8(b, p);
    let f1 = parse_i32(b, end(f0));
    let f2 = tagged_string(b, end(f1));
    let f3 = tagged_i32(b, end(f2));
    let f4 = tagged_i32(b, end(f3));
    let f5 = tagged_i32(b, end(f4));
    if f0 is Some && f1 is Some && f2 is Some && f3 is Some && f4 is Some && f5 is Some {
        logic_rest(b, end(f5), count(val(f5)), val(f2), val(f3), val(f4))
    } else {
        None
    }
}

/// `parse_logic` as a value.
pub open spec fn logic_item() -> spec_fn(Seq<u8>, int) -> Option<(LogicModel, int)> {
    |b: Seq<u8>, p: int| parse_logic(b, p)
}

/// The programmes of a traffic light at `p` (the compound tag already read):
/// an `i32` count (none when negative), then the programmes.
pub open spec fn parse_logics(b: Seq<u8>, p: int) -> Option<(Seq<LogicModel>, int)> {
    match parse_i32(b, p) {
        Some((n, q)) => parse_items(b, q, count(n), logic_item()),
        None => None,
    }
}

proof fn lemma_parse_params_none_from(b: Seq<u8>, p: int, k: nat, n: nat)
    requires
        parse_params(b, p, k) is None,
        k <= n,
    ensures
        parse_params(b, p, n) is None,
    decreases n - k,
{
    if k < n {
        lemma_parse_params_none_from(b, p, k, (n - 1) as nat);
    }
}

fn read_phase(s: &mut Storage) -> (r: Result<TraciPhase, TraciError>)
    ensures
        match parse_phase(old(s)@, old(s).cursor()) {
            Some((m, q)) => r matches Ok(x) && phase_model(x) == m && final(s).cursor() == q,
            None => r matches Err(e) && e.is_protocol(),
        },
        final(s)@ == old(s)@,
{
    s.read_u8()?;
    s.read_i32()?;
    let duration = read_tagged_f64(s)?;
    let state = read_tagged_string(s)?;
    let min_dur = read_tagged_f64(s)?;
    let max_dur = read_tagged_f64(s)?;
    s.read_u8()?;
    let num_next = s.read_i32()?;
    let ghost b = s@;
    let ghost p0 = s.cursor();
    let ghost item = tagged_i32_item();
    let ghost rest = phase_rest(b, p0, count(num_next), duration, state@, min_dur, max_dur);
    assert(parse_phase(b, old(s).cursor()) == rest);
    let mut next: Vec<i32> = Vec::new();
    let mut i: i32 = 0;
    while i < num_next
        invariant
            0 <= i,
            i as nat <= count(num_next),
            s@ == b,
            b == old(s)@,
            item == tagged_i32_item(),
            parse_phase(b, old(s).cursor()) == rest,
            rest == phase_rest(b, p0, count(num_next), duration, state@, min_dur, max_dur),
            parse_items(b, p0, i as nat, item) == Some((next@, s.cursor())),
        decreases num_next - i,
    {
        let x = match read_tagged_i32(s) {
            Ok(x) => x,
            Err(e) => {
                proof {
                    lemma_parse_items_none_from(b, p0, item, (i + 1) as nat, count(num_next));
                }
                return Err(e);
            },
        };
        next.push(x);
        i = i + 1;
    }
    let name = read_tagged_string(s)?;
    Ok(TraciPhase { duration, state, min_dur, max_dur, next, name })
}

fn read_logic(s: &mut Storage) -> (r: Result<TraciLogic, TraciError>)
    ensures
        match parse_logic(old(s)@, old(s).cursor()) {
            Some((m, q)) => r matches Ok(x) && logic_model(x) == m && final(s).cursor() == q,
            None => r matches Err(e) && e.is_protocol(),
        },
        final(s)@ == old(s)@,
{
    s.read_u8()?;
    s.read_i32()?;
    let program_id = read_tagged_string(s)?;
    let type_ = read_tagged_i32(s)?;
    let current_phase_index = read_tagged_i32(s)?;
    let phase_number = read_tagged_i32(s)?;
    let ghost b = s@;
    let ghost p0 = s.cursor();
    let ghost item = phase_item();
    let ghost rest = logic_rest(
        b,
        p0,
        count(phase_number),
        program_id@,
        type_,
        current_phase_index,
    );
    assert(parse_logic(b, old(s).cursor()) == rest);
    let mut phases: Vec<TraciPhase> = Vec::new();
    let mut i: i32 = 0;
    while i < phase_number
        invariant
            0 <= i,
            i as nat <= count(phase_number),
            s@ == b,
            b == old(s)@,
            item == phase_item(),
            parse_logic(b, old(s).cursor()) == rest,
            rest == logic_rest(
                b,
                p0,
                count(phase_number),
                program_id@,
                type_,
                current_phase_index,
            ),
            parse_items(b, p0, i as nat, item) == Some(
                (phases@.map_values(|ph: TraciPhase| phase_model(ph)), s.cursor()),
            ),
        decreases phase_number - i,
    {
        let ghost before = phases@;
        let x = match read_phase(s) {
            Ok(x) => x,
            Err(e) => {
                proof {
                    lemma_parse_items_none_from(b, p0, item, (i + 1) as nat, count(phase_number));
                }
                return Err(e);
            },
        };
        phases.push(x);
        assert(phases@.map_values(|ph: TraciPhase| phase_model(ph)) =~= before.map_values(
            |ph: TraciPhase| phase_model(ph),
        ).push(phase_model(x)));
        i = i + 1;
    }
    s.read_u8()?;
    let param_number = s.read_i32()?;
    let ghost p1 = s.cursor();
    let ghost phases_m = phases@.map_values(|ph: TraciPhase| phase_model(ph));
    let ghost rest2 = logic_params_rest(
        b,
        p1,
        count(param_number),
        program_id@,
        type_,
        current_phase_index,
        phases_m,
    );
    assert(parse_logic(b, old(s).cursor()) == rest2);
    let mut params: Vec<(String, String)> = Vec::new();
    let mut j: i32 = 0;
    while j < param_number
        invariant
            0 <= j,
            j as nat <= count(param_number),
            s@ == b,
            b == old(s)@,
            parse_logic(b, old(s).cursor()) == rest2,
            rest2 == logic_params_rest(
                b,
                p1,
                count(param_number),
                program_id@,
                type_,
                current_phase_index,
                phases_m,
            ),
            parse_params(b, p1, j as nat) == Some(
                (params@.map_values(|kv: (String, String)| pair_view(kv)), s.cursor()),
            ),
        decreases param_number - j,
    {
        let ghost before = params@;
        let pair = match read_tagged_string_list(s) {
            Ok(x) => x,
            Err(e) => {
                proof {
                    lemma_parse_params_none_from(b, p1, (j + 1) as nat, count(param_number));
                }
                return Err(e);
            },
        };
        if pair.len() >= 2 {
            let ghost pv = strings_view(pair@);
            let mut pair = pair;
            let v = pair.remove(1);
            let k = pair.remove(0);
            assert(k@ == pv[0] && v@ == pv[1]);
            params.push((k, v));
            assert(params@.map_values(|kv: (String, String)| pair_view(kv)) =~= before.map_values(
                |kv: (String, String)| pair_view(kv),
            ).push((pv[0], pv[1])));
        } else {
            assert(params@ == before);
        }
        j = j + 1;
    }
    Ok(TraciLogic { program_id, type_, current_phase_index, phases, sub_parameter: params })
}

/// Reads the complete programmes of a traffic light (the compound tag already
/// read).
pub fn read_program_logics(s: &mut Storage) -> (r: Result<Vec<TraciLogic>, TraciError>)
    ensures
        match parse_logics(old(s)@, old(s).cursor()) {
            Some((l, q)) => r matches Ok(x) && x@.map_values(|v: TraciLogic| logic_model(v)) == l
                && final(s).cursor() == q,
            None => r matches Err(e) && e.is_protocol(),
        },
        final(s)@ == old(s)@,
{
    let ghost item = logic_item();
    let n = s.read_i32()?;
    let ghost b = s@;
    let ghost p0 = s.cursor();
    let mut out: Vec<TraciLogic> = Vec::new();
    let mut i: i32 = 0;
    while i < n
        invariant
            0 <= i,
            i as nat <= count(n),
            s@ == b,
            b == old(s)@,
            item == logic_item(),
            parse_logics(b, old(s).cursor()) == parse_items(b, p0, count(n), item),
            parse_items(b, p0, i as nat, item) == Some(
                (out@.map_values(|v: TraciLogic| logic_model(v)), s.cursor()),
            ),
        decreases n - i,
    {
        let ghost before = out@;
        let x = match read_logic(s) {
            Ok(x) => x,
            Err(e) => {
                proof {
                    lemma_parse_items_none_from(b, p0, item, (i + 1) as nat, count(n));
                }
                return Err(e);
            },
        };
        out.push(x);
        assert(out@.map_values(|v: TraciLogic| logic_model(v)) =~= before.map_values(
            |v: TraciLogic| logic_model(v),
        ).push(logic_model(x)));
        i = i + 1;
    }
    Ok(out)
}

/// Tagged `i32` values, one after the other.
pub open spec fn enc_tagged_ints(l: Seq<i32>) -> Seq<u8>
    decreases l.len(),
{
    if l.len() == 0 {
        seq![]
    } else {
        enc_tagged_ints(l.drop_last()) + t_i32(l.last())
    }
}

/// A phase as a compound of six components.
pub open spec fn enc_phase(ph: PhaseModel) -> Seq<u8> {
    seq![TYPE_COMPOUND] + enc_i32(6) + t_f64(ph.duration) + t_string(ph.state) + t_f64(
        ph.min_dur,
    ) + t_f64(ph.max_dur) + seq![TYPE_COMPOUND] + enc_i32(ph.next.len() as i32)
        + enc_tagged_ints(ph.next) + t_string(ph.name)
}

/// Phases, one after the other.
pub open spec fn enc_phases(l: Seq<PhaseModel>) -> Seq<u8>
    decreases l.len(),
{
    if l.len() == 0 {
        seq![]
    } else {
        enc_phases(l.drop_last()) + enc_phase(l.last())
    }
}

/// A parameter as a tagged list of its key and value.
pub open spec fn enc_param(kv: (Seq<char>, Seq<char>)) -> Seq<u8> {
    seq![TYPE_STRINGLIST] + enc_i32(2) + enc_string(kv.0) + enc_string(kv.1)
}

/// Parameters, one after the other.
pub open spec fn enc_params(l: Seq<(Seq<char>, Seq<char>)>) -> Seq<u8>
    decreases l.len(),
{
    if l.len() == 0 {
        seq![]
    } else {
        enc_params(l.drop_last()) + enc_param(l.last())
    }
}

/// A programme as a compound of five components: id, type, current phase
/// index, the phases, and the parameters.
pub open spec fn enc_logic(m: LogicModel) -> Seq<u8> {
    seq![TYPE_COMPOUND] + enc_i32(5) + t_string(m.program_id) + t_i32(m.type_) + t_i32(
        m.current_phase_index,
    ) + seq![TYPE_COMPOUND] + enc_i32(m.phases.len() as i32) + enc_phases(m.phases) + seq![
        TYPE_COMPOUND,
    ] + enc_i32(m.sub_parameter.len() as i32) + enc_params(m.sub_parameter)
}

/// Whether every string and list of a phase fits its length prefix.
pub open spec fn phase_fits(ph: PhaseModel) -> bool {
    string_fits(ph.state) && string_fits(ph.name) && ph.next.len() <= i32::MAX
}

/// Whether every string and list of a programme fits its length prefix.
pub open spec fn logic_fits(m: LogicModel) -> bool {
    &&& string_fits(m.program_id)
    &&& m.phases.len() <= i32::MAX
    &&& m.sub_parameter.len() <= i32::MAX
    &&& forall|i: int| 0 <= i < m.phases.len() ==> phase_fits(#[trigger] m.phases[i])
    &&& forall|i: int|
        0 <= i < m.sub_parameter.len() ==> string_fits((#[trigger] m.sub_parameter[i]).0)
            && string_fits(m.sub_parameter[i].1)
}

fn write_tagged_ints(out: &mut Storage, l: &[i32])
    ensures
        final(out)@ == old(out)@ + enc_tagged_ints(l@),
        final(out).cursor() == old(out).cursor(),
{
    let ghost start = out@;
    let mut i: usize = 0;
    while i < l.len()
        invariant
            i <= l@.len(),
            out@ == start + enc_tagged_ints(l@.subrange(0, i as int)),
            start == old(out)@,
            out.cursor() == old(out).cursor(),
        decreases l@.len() - i,
    {
        write_tagged_i32(out, l[i]);
        proof {
            let pre = l@.subrange(0, i as int);
            assert(l@.subrange(0, i + 1).drop_last() == pre);
            lemma_concat_associative(start, enc_tagged_ints(pre), t_i32(l@[i as int]));
        }
        i = i + 1;
    }
    assert(l@.subrange(0, i as int) == l@);
}

fn write_phase(out: &mut Storage, ph: &TraciPhase)
    requires
        phase_fits(phase_model(*ph)),
    ensures
        final(out)@ == old(out)@ + enc_phase(phase_model(*ph)),
        final(out).cursor() == old(out).cursor(),
{
    let ghost base = out@;
    out.write_u8(TYPE_COMPOUND);
    out.write_i32(6);
    let ghost mut acc = seq![TYPE_COMPOUND] + enc_i32(6);
    assert(out@ =~= base + acc);
    write_tagged_f64(out, ph.duration);
    proof {
        lemma_concat_associative(base, acc, t_f64(ph.duration));
        acc = acc + t_f64(ph.duration);
    }
    write_tagged_string(out, ph.state.as_str());
    proof {
        lemma_concat_associative(base, acc, t_string(ph.state@));
        acc = acc + t_string(ph.state@);
    }
    write_tagged_f64(out, ph.min_dur);
    proof {
        lemma_concat_associative(base, acc, t_f64(ph.min_dur));
        acc = acc + t_f64(ph.min_dur);
    }
    write_tagged_f64(out, ph.max_dur);
    proof {
        lemma_concat_associative(base, acc, t_f64(ph.max_dur));
        acc = acc + t_f64(ph.max_dur);
    }
    let ghost before = out@;
    out.write_u8(TYPE_COMPOUND);
    out.write_i32(ph.next.len() as i32);
    proof {
        assert(out@ =~= before + (seq![TYPE_COMPOUND] + enc_i32(ph.next@.len() as i32)));
        lemma_concat_associative(base, acc, seq![TYPE_COMPOUND]);
        assert(base + acc + seq![TYPE_COMPOUND] + enc_i32(ph.next@.len() as i32) =~= before + (
        seq![TYPE_COMPOUND] + enc_i32(ph.next@.len() as i32)));
        acc = acc + seq![TYPE_COMPOUND] + enc_i32(ph.next@.len() as i32);
        assert(out@ =~= base + acc);
    }
    write_tagged_ints(out, ph.next.as_slice());
    proof {
        lemma_concat_associative(base, acc, enc_tagged_ints(ph.next@));
        acc = acc + enc_tagged_ints(ph.next@);
    }
    write_tagged_string(out, ph.name.as_str());
    proof {
        lemma_concat_associative(base, acc, t_string(ph.name@));
        acc = acc + t_string(ph.name@);
    }
    assert(acc == enc_phase(phase_model(*ph)));
}

fn write_phases(out: &mut Storage, l: &[TraciPhase])
    requires
        forall|i: int| 0 <= i < l@.len() ==> phase_fits(phase_model(#[trigger] l@[i])),
    ensures
        final(out)@ == old(out)@ + enc_phases(l@.map_values(|ph: TraciPhase| phase_model(ph))),
        final(out).cursor() == old(out).cursor(),
{
    let ghost start = out@;
    let ghost m = l@.map_values(|ph: TraciPhase| phase_model(ph));
    let mut i: usize = 0;
    while i < l.len()
        invariant
            i <= l@.len(),
            forall|j: int| 0 <= j < l@.len() ==> phase_fits(phase_model(#[trigger] l@[j])),
            m == l@.map_values(|ph: TraciPhase| phase_model(ph)),
            out@ == start + enc_phases(m.subrange(0, i as int)),
            start == old(out)@,
            out.cursor() == old(out).cursor(),
        decreases l@.len() - i,
    {
        write_phase(out, &l[i]);
        proof {
            let pre = m.subrange(0, i as int);
            assert(m.subrange(0, i + 1).drop_last() == pre);
            assert(m.subrange(0, i + 1).last() == phase_model(l@[i as int]));
            lemma_concat_associative(start, enc_phases(pre), enc_phase(phase_model(l@[i as int])));
        }
        i = i + 1;
    }
    assert(m.subrange(0, i as int) == m);
}

fn write_params(out: &mut Storage, l: &[(String, String)])
    requires
        forall|i: int|
            0 <= i < l@.len() ==> string_fits((#[trigger] l@[i]).0@) && string_fits(l@[i].1@),
    ensures
        final(out)@ == old(out)@ + enc_params(l@.map_values(|kv: (String, String)| pair_view(kv))),
        final(out).cursor() == old(out).cursor(),
{
    let ghost start = out@;
    let ghost m = l@.map_values(|kv: (String, String)| pair_view(kv));
    let mut i: usize = 0;
    while i < l.len()
        invariant
            i <= l@.len(),
            forall|j: int|
                0 <= j < l@.len() ==> string_fits((#[trigger] l@[j]).0@) && string_fits(
                    l@[j].1@,
                ),
            m == l@.map_values(|kv: (String, String)| pair_view(kv)),
            out@ == start + enc_params(m.subrange(0, i as int)),
            start == old(out)@,
            out.cursor() == old(out).cursor(),
        decreases l@.len() - i,
    {
        let ghost before = out@;
        out.write_u8(TYPE_STRINGLIST);
        out.write_i32(2);
        out.write_string(l[i].0.as_str());
        out.write_string(l[i].1.as_str());
        proof {
            let kv = pair_view(l@[i as int]);
            assert(out@ =~= before + enc_param(kv));
            let pre = m.subrange(0, i as int);
            assert(m.subrange(0, i + 1).drop_last() == pre);
            assert(m.subrange(0, i + 1).last() == kv);
            lemma_concat_associative(start, enc_params(pre), enc_param(kv));
        }
        i = i + 1;
    }
    assert(m.subrange(0, i as int) == m);
}

/// Appends a complete programme as a compound value, in the form that sets a
/// traffic light's programme.
pub fn write_program_logic(out: &mut Storage, logic: &TraciLogic)
    requires
        logic_fits(logic_model(*logic)),
    ensures
        final(out)@ == old(out)@ + enc_logic(logic_model(*logic)),
        final(out).cursor() == old(out).cursor(),
{
    let ghost m = logic_model(*logic);
    assert forall|i: int| 0 <= i < logic.phases@.len() implies phase_fits(
        phase_model(#[trigger] logic.phases@[i]),
    ) by {
        assert(m.phases[i] == phase_model(logic.phases@[i]));
    }
    assert forall|i: int| 0 <= i < logic.sub_parameter@.len() implies string_fits(
        (#[trigger] logic.sub_parameter@[i]).0@,
    ) && string_fits(logic.sub_parameter@[i].1@) by {
        assert(m.sub_parameter[i] == pair_view(logic.sub_parameter@[i]));
    }
    let ghost base = out@;
    out.write_u8(TYPE_COMPOUND);
    out.write_i32(5);
    let ghost mut acc = seq![TYPE_COMPOUND] + enc_i32(5);
    assert(out@ =~= base + acc);
    write_tagged_string(out, logic.program_id.as_str());
    proof {
        lemma_concat_associative(base, acc, t_string(m.program_id));
        acc = acc + t_string(m.program_id);
    }
    write_tagged_i32(out, logic.type_);
    proof {
        lemma_concat_associative(base, acc, t_i32(m.type_));
        acc = acc + t_i32(m.type_);
    }
    write_tagged_i32(out, logic.current_phase_index);
    proof {
        lemma_concat_associative(base, acc, t_i32(m.current_phase_index));
        acc = acc + t_i32(m.current_phase_index);
    }
    let ghost before = out@;
    out.write_u8(TYPE_COMPOUND);
    out.write_i32(logic.phases.len() as i32);
    proof {
        let h = enc_i32(m.phases.len() as i32);
        assert(out@ =~= before + (seq![TYPE_COMPOUND] + h));
        assert(base + acc + seq![TYPE_COMPOUND] + h =~= before + (seq![TYPE_COMPOUND] + h));
        acc = acc + seq![TYPE_COMPOUND] + h;
        assert(out@ =~= base + acc);
    }
    write_phases(out, logic.phases.as_slice());
    proof {
        lemma_concat_associative(base, acc, enc_phases(m.phases));
        acc = acc + enc_phases(m.phases);
    }
    let ghost before2 = out@;
    out.write_u8(TYPE_COMPOUND);
    out.write_i32(logic.sub_parameter.len() as i32);
    proof {
        let h = enc_i32(m.sub_parameter.len() as i32);
        assert(out@ =~= before2 + (seq![TYPE_COMPOUND] + h));
        assert(base + acc + seq![TYPE_COMPOUND] + h =~= before2 + (seq![TYPE_COMPOUND] + h));
        acc = acc + seq![TYPE_COMPOUND] + h;
        assert(out@ =~= base + acc);
    }
    write_params(out, logic.sub_parameter.as_slice());
    proof {
        lemma_concat_associative(base, acc, enc_params(m.sub_parameter));
        acc = acc + enc_params(m.sub_parameter);
    }
    assert(acc == enc_logic(m));
}

proof fn lemma_tagged_ints_round_trip(b: Seq<u8>, p: int, l: Seq<i32>)
    requires
        0 <= p,
        p + enc_tagged_ints(l).len() <= b.len(),
        b.subrange(p, p + enc_tagged_ints(l).len()) == enc_tagged_ints(l),
    ensures
        parse_items(b, p, l.len(), tagged_i32_item()) == Some((l, p + enc_tagged_ints(l).len())),
    decreases l.len(),
{
    if l.len() > 0 {
        let front = l.drop_last();
        lemma_split(b, p, enc_tagged_ints(front), t_i32(l.last()));
        lemma_tagged_ints_round_trip(b, p, front);
        lemma_tagged_i32_at(b, p + enc_tagged_ints(front).len(), l.last());
        assert(front.push(l.last()) == l);
    }
}

proof fn lemma_phase_round_trip(b: Seq<u8>, p: int, ph: PhaseModel)
    requires
        phase_fits(ph),
        0 <= p,
        p + enc_phase(ph).len() <= b.len(),
        b.subrange(p, p + enc_phase(ph).len()) == enc_phase(ph),
    ensures
        parse_phase(b, p) == Some((ph, p + enc_phase(ph).len())),
{
    let x0 = seq![TYPE_COMPOUND];
    let x1 = x0 + enc_i32(6);
    let x2 = x1 + t_f64(ph.duration);
    let x3 = x2 + t_string(ph.state);
    let x4 = x3 + t_f64(ph.min_dur);
    let x5 = x4 + t_f64(ph.max_dur);
    let x6 = x5 + seq![TYPE_COMPOUND];
    let x7 = x6 + enc_i32(ph.next.len() as i32);
    let x8 = x7 + enc_tagged_ints(ph.next);
    let x9 = x8 + t_string(ph.name);
    assert(x9 == enc_phase(ph));
    lemma_split(b, p, x8, t_string(ph.name));
    lemma_split(b, p, x7, enc_tagged_ints(ph.next));
    lemma_split(b, p, x6, enc_i32(ph.next.len() as i32));
    lemma_split(b, p, x5, seq![TYPE_COMPOUND]);
    lemma_split(b, p, x4, t_f64(ph.max_dur));
    lemma_split(b, p, x3, t_f64(ph.min_dur));
    lemma_split(b, p, x2, t_string(ph.state));
    lemma_split(b, p, x1, t_f64(ph.duration));
    lemma_split(b, p, x0, enc_i32(6));
    lemma_i32_round_trip(b, p + 1, 6);
    lemma_tagged_f64_at(b, p + x1.len(), ph.duration);
    lemma_tagged_string_at(b, p + x2.len(), ph.state);
    lemma_tagged_f64_at(b, p + x3.len(), ph.min_dur);
    lemma_tagged_f64_at(b, p + x4.len(), ph.max_dur);
    lemma_i32_round_trip(b, p + x6.len(), ph.next.len() as i32);
    lemma_tagged_ints_round_trip(b, p + x7.len(), ph.next);
    lemma_tagged_string_at(b, p + x8.len(), ph.name);
}

proof fn lemma_phases_round_trip(b: Seq<u8>, p: int, l: Seq<PhaseModel>)
    requires
        forall|i: int| 0 <= i < l.len() ==> phase_fits(#[trigger] l[i]),
        0 <= p,
        p + enc_phases(l).len() <= b.len(),
        b.subrange(p, p + enc_phases(l).len()) == enc_phases(l),
    ensures
        parse_items(b, p, l.len(), phase_item()) == Some((l, p + enc_phases(l).len())),
    decreases l.len(),
{
    if l.len() > 0 {
        let front = l.drop_last();
        lemma_split(b, p, enc_phases(front), enc_phase(l.last()));
        lemma_phases_round_trip(b, p, front);
        lemma_phase_round_trip(b, p + enc_phases(front).len(), l.last());
        assert(front.push(l.last()) == l);
    }
}

proof fn lemma_params_round_trip(b: Seq<u8>, p: int, l: Seq<(Seq<char>, Seq<char>)>)
    requires
        forall|i: int| 0 <= i < l.len() ==> string_fits((#[trigger] l[i]).0) && string_fits(l[i].1),
        0 <= p,
        p + enc_params(l).len() <= b.len(),
        b.subrange(p, p + enc_params(l).len()) == enc_params(l),
    ensures
        parse_params(b, p, l.len()) == Some((l, p + enc_params(l).len())),
    decreases l.len(),
{
    if l.len() > 0 {
        let front = l.drop_last();
        let kv = l.last();
        lemma_split(b, p, enc_params(front), enc_param(kv));
        lemma_params_round_trip(b, p, front);
        let pair = seq![kv.0, kv.1];
        assert(pair.drop_last() =~= seq![kv.0]);
        assert(seq![kv.0].drop_last() =~= Seq::<Seq<char>>::empty());
        assert(enc_strings(Seq::<Seq<char>>::empty()) == Seq::<u8>::empty());
        assert(enc_strings(seq![kv.0]) == enc_strings(Seq::<Seq<char>>::empty()) + enc_string(
            kv.0,
        ));
        assert(enc_strings(pair) == enc_strings(seq![kv.0]) + enc_string(kv.1));
        assert(enc_strings(pair) =~= enc_string(kv.0) + enc_string(kv.1));
        assert(enc_param(kv) =~= t_string_list(pair));
        lemma_tagged_string_list_at(b, p + enc_params(front).len(), pair);
        assert(front.push((pair[0], pair[1])) =~= l);
    }
}

/// Round trip of traffic-light programmes: wherever the compound of a
/// programme stands, reading a programme there gives it back and stops right
/// after it.
#[verifier::rlimit(50)]
pub proof fn lemma_logic_round_trip(b: Seq<u8>, p: int, m: LogicModel)
    requires
        logic_fits(m),
        0 <= p,
        p + enc_logic(m).len() <= b.len(),
        b.subrange(p, p + enc_logic(m).len()) == enc_logic(m),
    ensures
        parse_logic(b, p) == Some((m, p + enc_logic(m).len())),
{
    let x0 = seq![TYPE_COMPOUND];
    let x1 = x0 + enc_i32(5);
    let x2 = x1 + t_string(m.program_id);
    let x3 = x2 + t_i32(m.type_);
    let x4 = x3 + t_i32(m.current_phase_index);
    let x5 = x4 + seq![TYPE_COMPOUND];
    let x6 = x5 + enc_i32(m.phases.len() as i32);
    let x7 = x6 + enc_phases(m.phases);
    let x8 = x7 + seq![TYPE_COMPOUND];
    let x9 = x8 + enc_i32(m.sub_parameter.len() as i32);
    let x10 = x9 + enc_params(m.sub_parameter);
    assert(x10 == enc_logic(m));
    lemma_split(b, p, x9, enc_params(m.sub_parameter));
    lemma_split(b, p, x8, enc_i32(m.sub_parameter.len() as i32));
    lemma_split(b, p, x7, seq![TYPE_COMPOUND]);
    lemma_split(b, p, x6, enc_phases(m.phases));
    lemma_split(b, p, x5, enc_i32(m.phases.len() as i32));
    lemma_split(b, p, x4, seq![TYPE_COMPOUND]);
    lemma_split(b, p, x3, t_i32(m.current_phase_index));
    lemma_split(b, p, x2, t_i32(m.type_));
    lemma_split(b, p, x1, t_string(m.program_id));
    lemma_split(b, p, x0, enc_i32(5));
    lemma_i32_round_trip(b, p + 1, 5);
    lemma_tagged_string_at(b, p + x1.len(), m.program_id);
    lemma_tagged_i32_at(b, p + x2.len(), m.type_);
    lemma_tagged_i32_at(b, p + x3.len(), m.current_phase_index);
    lemma_i32_round_trip(b, p + x5.len(), m.phases.len() as i32);
    lemma_phases_round_trip(b, p + x6.len(), m.phases);
    lemma_i32_round_trip(b, p + x8.len(), m.sub_parameter.len() as i32);
    lemma_params_round_trip(b, p + x9.len(), m.sub_parameter);
}

} // verus!
