use sumo_traci::constants::{
    TYPE_COMPOUND, TYPE_DOUBLE, TYPE_INTEGER, TYPE_STRING, TYPE_STRINGLIST, TYPE_UBYTE,
};
use sumo_traci::error::TraciError;
use sumo_traci::records::{
    read_best_lanes_list, read_connection_list, read_controlled_links, read_next_tls_list,
    read_program_logics, read_traci_stage, read_vehicle_data_list, write_program_logic,
    write_stage,
};
use sumo_traci::storage::Storage;
use sumo_traci::types::{TraciLink, TraciLogic, TraciPhase, TraciStage};

fn bits(v: f64) -> u64 {
    v.to_bits()
}

fn sample_stage() -> TraciStage {
    TraciStage {
        type_: 2,
        v_type: "ped".to_string(),
        line: "".to_string(),
        dest_stop: "stop_1".to_string(),
        edges: vec!["e1".to_string(), "e2".to_string()],
        travel_time: bits(12.5),
        cost: bits(3.0),
        length: bits(150.25),
        intended: "".to_string(),
        depart: bits(0.0),
        depart_pos: bits(1.0),
        arrival_pos: bits(2.0),
        description: "walk".to_string(),
    }
}

#[test]
fn stage_round_trip() {
    let stage = sample_stage();
    let mut s = Storage::new();
    write_stage(&mut s, &stage);
    assert_eq!(s.read_u8().unwrap(), TYPE_COMPOUND);
    let back = read_traci_stage(&mut s).unwrap();
    assert_eq!(back, stage);
    assert!(!s.valid_pos());
}

#[test]
fn stage_wire_layout() {
    let mut s = Storage::new();
    write_stage(&mut s, &sample_stage());
    let b = s.as_bytes();
    assert_eq!(&b[0..5], &[TYPE_COMPOUND, 0, 0, 0, 13][..]);
    assert_eq!(&b[5..10], &[TYPE_INTEGER, 0, 0, 0, 2][..]);
    assert_eq!(b[10], TYPE_STRING);
}

#[test]
fn truncated_stage_is_protocol() {
    let mut s = Storage::new();
    write_stage(&mut s, &sample_stage());
    let b = s.as_bytes();
    let mut cut = Storage::from_bytes(b[1..b.len() - 2].to_vec());
    assert!(matches!(read_traci_stage(&mut cut), Err(TraciError::Protocol(_))));
}

fn sample_logic() -> TraciLogic {
    TraciLogic {
        program_id: "0".to_string(),
        type_: 0,
        current_phase_index: 1,
        phases: vec![
            TraciPhase {
                duration: bits(31.0),
                state: "GGrr".to_string(),
                min_dur: bits(31.0),
                max_dur: bits(31.0),
                next: vec![1],
                name: "main".to_string(),
            },
            TraciPhase {
                duration: bits(4.0),
                state: "yyrr".to_string(),
                min_dur: bits(4.0),
                max_dur: bits(4.0),
                next: vec![],
                name: "".to_string(),
            },
        ],
        sub_parameter: vec![("k".to_string(), "v".to_string())],
    }
}

#[test]
fn program_logic_round_trip() {
    let logic = sample_logic();
    let mut s = Storage::new();
    s.write_i32(1);
    write_program_logic(&mut s, &logic);
    let back = read_program_logics(&mut s).unwrap();
    assert_eq!(back, vec![logic]);
    assert!(!s.valid_pos());
}

#[test]
fn program_logic_short_parameter_is_skipped() {
    let mut s = Storage::new();
    s.write_i32(1);
    s.write_u8(TYPE_COMPOUND);
    s.write_i32(5);
    s.write_u8(TYPE_STRING);
    s.write_string("p");
    s.write_u8(TYPE_INTEGER);
    s.write_i32(0);
    s.write_u8(TYPE_INTEGER);
    s.write_i32(0);
    s.write_u8(TYPE_INTEGER);
    s.write_i32(0);
    s.write_u8(TYPE_COMPOUND);
    s.write_i32(2);
    s.write_u8(TYPE_STRINGLIST);
    s.write_string_list(&["only".to_string()]);
    s.write_u8(TYPE_STRINGLIST);
    s.write_string_list(&["a".to_string(), "b".to_string()]);
    let back = read_program_logics(&mut s).unwrap();
    assert_eq!(back.len(), 1);
    assert!(back[0].phases.is_empty());
    assert_eq!(back[0].sub_parameter, vec![("a".to_string(), "b".to_string())]);
}

#[test]
fn vehicle_data_list_decodes() {
    let mut s = Storage::new();
    s.write_i32(2);
    s.write_u8(TYPE_INTEGER);
    s.write_i32(1);
    s.write_u8(TYPE_STRING);
    s.write_string("veh0");
    for v in [4.5, 10.0, 11.5] {
        s.write_u8(TYPE_DOUBLE);
        s.write_f64(bits(v));
    }
    s.write_u8(TYPE_STRING);
    s.write_string("car");
    let l = read_vehicle_data_list(&mut s).unwrap();
    assert_eq!(l.len(), 1);
    assert_eq!(l[0].id, "veh0");
    assert_eq!(f64::from_bits(l[0].length), 4.5);
    assert_eq!(f64::from_bits(l[0].leave_time), 11.5);
    assert_eq!(l[0].type_id, "car");
}

#[test]
fn next_tls_list_decodes() {
    let mut s = Storage::new();
    s.write_i32(1);
    s.write_u8(TYPE_COMPOUND);
    s.write_i32(1);
    s.write_u8(TYPE_STRING);
    s.write_string("tl1");
    s.write_u8(TYPE_INTEGER);
    s.write_i32(3);
    s.write_u8(TYPE_DOUBLE);
    s.write_f64(bits(42.0));
    s.write_u8(TYPE_UBYTE);
    s.write_u8(b'G');
    let l = read_next_tls_list(&mut s).unwrap();
    assert_eq!(l.len(), 1);
    assert_eq!(l[0].id, "tl1");
    assert_eq!(l[0].tl_index, 3);
    assert_eq!(f64::from_bits(l[0].dist), 42.0);
    assert_eq!(l[0].state, 'G');
}

#[test]
fn best_lanes_list_decodes() {
    let mut s = Storage::new();
    s.write_i32(1);
    s.write_u8(TYPE_COMPOUND);
    s.write_i32(1);
    s.write_u8(TYPE_STRING);
    s.write_string("e_0");
    s.write_u8(TYPE_DOUBLE);
    s.write_f64(bits(100.0));
    s.write_u8(TYPE_DOUBLE);
    s.write_f64(bits(0.5));
    s.write_u8(0x08);
    s.write_u8(0xff);
    s.write_u8(TYPE_UBYTE);
    s.write_u8(1);
    s.write_u8(TYPE_STRINGLIST);
    s.write_string_list(&["e_0".to_string(), "f_0".to_string()]);
    let l = read_best_lanes_list(&mut s).unwrap();
    assert_eq!(l.len(), 1);
    assert_eq!(l[0].best_lane_offset, -1);
    assert!(l[0].allows_continuation);
    assert_eq!(l[0].continuation_lanes, vec!["e_0".to_string(), "f_0".to_string()]);
}

#[test]
fn connection_list_decodes() {
    let mut s = Storage::new();
    s.write_u8(TYPE_COMPOUND);
    s.write_i32(0);
    s.write_i32(1);
    s.write_u8(TYPE_STRING);
    s.write_string("to_0");
    s.write_u8(TYPE_STRING);
    s.write_string(":j_0");
    for flag in [1u8, 0, 2] {
        s.write_u8(TYPE_UBYTE);
        s.write_u8(flag);
    }
    s.write_u8(TYPE_STRING);
    s.write_string("G");
    s.write_u8(TYPE_STRING);
    s.write_string("s");
    s.write_u8(TYPE_DOUBLE);
    s.write_f64(bits(9.5));
    let l = read_connection_list(&mut s).unwrap();
    assert_eq!(l.len(), 1);
    assert_eq!(l[0].approached_lane, "to_0");
    assert_eq!(l[0].approached_internal, ":j_0");
    assert!(l[0].has_prio);
    assert!(!l[0].is_open);
    assert!(l[0].has_foe);
    assert_eq!(f64::from_bits(l[0].length), 9.5);
}

#[test]
fn controlled_links_decode() {
    let mut s = Storage::new();
    s.write_u8(TYPE_COMPOUND);
    s.write_i32(0);
    s.write_i32(1);
    s.write_u8(TYPE_COMPOUND);
    s.write_i32(1);
    s.write_u8(TYPE_STRINGLIST);
    s.write_i32(3);
    s.write_string("a_0");
    s.write_string("b_0");
    s.write_string(":c_0");
    let l = read_controlled_links(&mut s).unwrap();
    assert_eq!(
        l,
        vec![vec![TraciLink {
            from_lane: "a_0".to_string(),
            via_lane: ":c_0".to_string(),
            to_lane: "b_0".to_string(),
        }]]
    );
}

#[test]
fn truncated_record_list_is_protocol() {
    let mut s = Storage::new();
    s.write_i32(2);
    s.write_u8(TYPE_INTEGER);
    s.write_i32(1);
    s.write_u8(TYPE_STRING);
    s.write_string("veh0");
    assert!(matches!(read_vehicle_data_list(&mut s), Err(TraciError::Protocol(_))));
}
