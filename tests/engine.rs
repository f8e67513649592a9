use sumo_traci::client::{
    check_command_get_result, check_result_state, get_version_response, read_typed_value,
    read_variables, DomainId, TraciClient,
};
use sumo_traci::constants::{
    CMD_CLOSE, CMD_GET_VEHICLE_VARIABLE, CMD_LOAD, CMD_SETORDER, CMD_SIMSTEP, POSITION_2D,
    POSITION_3D, RESPONSE_SUBSCRIBE_EDGE_VARIABLE, RESPONSE_SUBSCRIBE_VEHICLE_CONTEXT,
    RESPONSE_SUBSCRIBE_VEHICLE_VARIABLE, TYPE_COLOR, TYPE_DOUBLE, TYPE_DOUBLELIST, TYPE_INTEGER,
    TYPE_STRING, TYPE_STRINGLIST, TYPE_UBYTE, VAR_ACCELERATION, VAR_ANGLE, VAR_POSITION, VAR_SPEED,
};
use sumo_traci::error::TraciError;
use sumo_traci::storage::Storage;
use sumo_traci::types::{TraciColor, TraciValue};

/// A result-status block: length byte, echoed command, result type, message.
fn status(s: &mut Storage, cmd: u8, rtype: u8, msg: &str) {
    s.write_u8((1 + 1 + 1 + 4 + msg.len()) as u8);
    s.write_u8(cmd);
    s.write_u8(rtype);
    s.write_string(msg);
}

/// Head of one pushed subscription response.
fn sub_head(s: &mut Storage, cmd: u8) {
    s.write_u8(9);
    s.write_u8(cmd);
}

fn var_double(s: &mut Storage, var: u8, v: f64) {
    s.write_u8(var);
    s.write_u8(0x00);
    s.write_u8(TYPE_DOUBLE);
    s.write_f64(v.to_bits());
}

fn var_pos2d(s: &mut Storage, var: u8, x: f64, y: f64) {
    s.write_u8(var);
    s.write_u8(0x00);
    s.write_u8(POSITION_2D);
    s.write_f64(x.to_bits());
    s.write_f64(y.to_bits());
}

fn step_response(subs: &[Storage]) -> Storage {
    let mut s = Storage::new();
    status(&mut s, CMD_SIMSTEP, 0x00, "");
    s.write_i32(subs.len() as i32);
    for sub in subs {
        s.append_storage(sub);
    }
    s
}

fn vehicle_var_sub(obj: &str, speed: f64) -> Storage {
    let mut s = Storage::new();
    sub_head(&mut s, RESPONSE_SUBSCRIBE_VEHICLE_VARIABLE);
    s.write_string(obj);
    s.write_u8(1);
    var_double(&mut s, VAR_SPEED, speed);
    s
}

// ---------------------------------------------------------------------------
// Result status
// ---------------------------------------------------------------------------

#[test]
fn status_ok_with_matching_id_succeeds() {
    let mut s = Storage::new();
    status(&mut s, 0x02, 0x00, "fine");
    assert!(check_result_state(&mut s, 0x02, false).is_ok());
    assert_eq!(s.position(), s.len());
}

#[test]
fn status_with_other_echoed_id_is_protocol() {
    let mut s = Storage::new();
    status(&mut s, 0x05, 0x00, "");
    assert!(matches!(check_result_state(&mut s, 0x02, false), Err(TraciError::Protocol(_))));
}

#[test]
fn status_other_id_ignored_when_asked() {
    let mut s = Storage::new();
    status(&mut s, 0x05, 0x00, "");
    assert!(check_result_state(&mut s, 0x02, true).is_ok());
}

#[test]
fn status_error_carries_message() {
    let mut s = Storage::new();
    status(&mut s, 0x02, 0xff, "Vehicle 'x' is not known");
    match check_result_state(&mut s, 0x02, false) {
        Err(TraciError::SimulationError(m)) => assert_eq!(m, "Vehicle 'x' is not known"),
        other => panic!("unexpected {:?}", other),
    }
}

#[test]
fn status_not_implemented() {
    let mut s = Storage::new();
    status(&mut s, 0x02, 0x01, "nope");
    match check_result_state(&mut s, 0x02, false) {
        Err(TraciError::NotImplemented(m)) => assert_eq!(m, "nope"),
        other => panic!("unexpected {:?}", other),
    }
}

#[test]
fn status_unknown_result_type_is_protocol() {
    let mut s = Storage::new();
    status(&mut s, 0x02, 0x07, "");
    assert!(matches!(check_result_state(&mut s, 0x02, false), Err(TraciError::Protocol(_))));
}

#[test]
fn status_truncated_is_protocol() {
    let mut s = Storage::from_bytes(vec![7, 0x02]);
    assert!(matches!(check_result_state(&mut s, 0x02, false), Err(TraciError::Protocol(_))));
}

// ---------------------------------------------------------------------------
// Get-response header
// ---------------------------------------------------------------------------

fn get_header(cmd: u8, tag: u8) -> Storage {
    let mut s = Storage::new();
    s.write_u8(20);
    s.write_u8(cmd);
    s.write_u8(VAR_SPEED);
    s.write_string("veh0");
    s.write_u8(tag);
    s
}

#[test]
fn get_header_accepts_expected_type() {
    let mut s = get_header(CMD_GET_VEHICLE_VARIABLE + 0x10, TYPE_DOUBLE);
    let r = check_command_get_result(&mut s, CMD_GET_VEHICLE_VARIABLE, Some(TYPE_DOUBLE), false);
    assert_eq!(r.unwrap(), CMD_GET_VEHICLE_VARIABLE + 0x10);
    assert_eq!(s.position(), s.len());
}

#[test]
fn get_header_type_mismatch_is_protocol() {
    let mut s = get_header(CMD_GET_VEHICLE_VARIABLE + 0x10, TYPE_INTEGER);
    let r = check_command_get_result(&mut s, CMD_GET_VEHICLE_VARIABLE, Some(TYPE_DOUBLE), false);
    assert!(matches!(r, Err(TraciError::Protocol(_))));
}

#[test]
fn get_header_wrong_response_id_is_protocol() {
    let mut s = get_header(CMD_GET_VEHICLE_VARIABLE, TYPE_DOUBLE);
    let r = check_command_get_result(&mut s, CMD_GET_VEHICLE_VARIABLE, Some(TYPE_DOUBLE), false);
    assert!(matches!(r, Err(TraciError::Protocol(_))));
}

#[test]
fn get_header_extended_length() {
    let mut s = Storage::new();
    s.write_u8(0);
    s.write_i32(300);
    s.write_u8(0xb4);
    assert_eq!(check_command_get_result(&mut s, 0xa4, None, false).unwrap(), 0xb4);
    assert_eq!(s.position(), 6);
}

// ---------------------------------------------------------------------------
// Typed values
// ---------------------------------------------------------------------------

#[test]
fn typed_values_decode() {
    let mut s = Storage::new();
    s.write_f64(2.5f64.to_bits());
    s.write_i32(-9);
    s.write_string("abc");
    s.write_string_list(&["x".to_string(), "y".to_string()]);
    s.write_f64_list(&[1.0f64.to_bits()]);
    s.write_packet(&[1, 2, 3, 4]);
    s.write_f64(1.0f64.to_bits());
    s.write_f64(2.0f64.to_bits());
    s.write_f64(3.0f64.to_bits());
    s.write_f64(4.0f64.to_bits());
    s.write_f64(5.0f64.to_bits());
    s.write_u8(200);
    assert_eq!(read_typed_value(&mut s, TYPE_DOUBLE).unwrap(), TraciValue::Double(2.5f64.to_bits()));
    assert_eq!(read_typed_value(&mut s, TYPE_INTEGER).unwrap(), TraciValue::Int(-9));
    assert_eq!(read_typed_value(&mut s, TYPE_STRING).unwrap(), TraciValue::String("abc".to_string()));
    assert_eq!(
        read_typed_value(&mut s, TYPE_STRINGLIST).unwrap(),
        TraciValue::StringList(vec!["x".to_string(), "y".to_string()])
    );
    assert_eq!(
        read_typed_value(&mut s, TYPE_DOUBLELIST).unwrap(),
        TraciValue::DoubleList(vec![1.0f64.to_bits()])
    );
    assert_eq!(
        read_typed_value(&mut s, TYPE_COLOR).unwrap(),
        TraciValue::Color(TraciColor::new(1, 2, 3, 4))
    );
    assert_eq!(
        read_typed_value(&mut s, POSITION_2D).unwrap(),
        TraciValue::Pos2D { x: 1.0f64.to_bits(), y: 2.0f64.to_bits() }
    );
    assert_eq!(
        read_typed_value(&mut s, POSITION_3D).unwrap(),
        TraciValue::Pos3D { x: 3.0f64.to_bits(), y: 4.0f64.to_bits(), z: 5.0f64.to_bits() }
    );
    assert_eq!(read_typed_value(&mut s, TYPE_UBYTE).unwrap(), TraciValue::Int(200));
    assert!(!s.valid_pos());
}

#[test]
fn unknown_type_tag_is_protocol() {
    let mut s = Storage::from_bytes(vec![1, 2, 3, 4]);
    assert!(matches!(read_typed_value(&mut s, 0x42), Err(TraciError::Protocol(_))));
}

#[test]
fn failed_subscribed_variable_is_protocol() {
    let mut s = Storage::new();
    s.write_u8(VAR_SPEED);
    s.write_u8(0xff);
    s.write_u8(TYPE_STRING);
    s.write_string("error text");
    assert!(matches!(read_variables(&mut s, 1), Err(TraciError::Protocol(_))));
}

#[test]
fn later_variable_replaces_earlier() {
    let mut s = Storage::new();
    var_double(&mut s, VAR_SPEED, 1.0);
    var_double(&mut s, VAR_SPEED, 2.0);
    let r = read_variables(&mut s, 2).unwrap();
    assert_eq!(r.len(), 1);
    assert_eq!(r.get(&VAR_SPEED), Some(&TraciValue::Double(2.0f64.to_bits())));
}

// ---------------------------------------------------------------------------
// Commands
// ---------------------------------------------------------------------------

#[test]
fn short_command_form() {
    let mut c = TraciClient::new();
    c.create_command(CMD_GET_VEHICLE_VARIABLE, VAR_SPEED, "v0", None);
    let out = c.command_to_send().unwrap().as_bytes().to_vec();
    assert_eq!(out, vec![9, CMD_GET_VEHICLE_VARIABLE, VAR_SPEED, 0, 0, 0, 2, b'v', b'0']);
}

#[test]
fn extended_command_form() {
    let id = "a".repeat(260);
    let mut c = TraciClient::new();
    c.create_command(CMD_GET_VEHICLE_VARIABLE, VAR_SPEED, &id, None);
    let out = c.command_to_send().unwrap().as_bytes().to_vec();
    let len = 1 + 1 + 1 + 4 + 260;
    assert_eq!(out.len(), 4 + len);
    assert_eq!(out[0], 0);
    assert_eq!(&out[1..5], &((len + 4) as i32).to_be_bytes()[..]);
    assert_eq!(out[5], CMD_GET_VEHICLE_VARIABLE);
    assert_eq!(out[6], VAR_SPEED);
}

#[test]
fn command_with_extra_payload() {
    let mut add = Storage::new();
    add.write_u8(TYPE_DOUBLE);
    add.write_f64(13.0f64.to_bits());
    let mut c = TraciClient::new();
    c.create_command(0xc4, VAR_SPEED, "v0", Some(&add));
    let out = c.command_to_send().unwrap().as_bytes().to_vec();
    assert_eq!(out[0] as usize, 9 + 9);
    assert_eq!(out.len(), 18);
    assert_eq!(&out[9..], add.as_bytes());
}

#[test]
fn filter_command_form() {
    let mut add = Storage::new();
    add.write_u8(TYPE_DOUBLE);
    add.write_f64(100.0f64.to_bits());
    let mut c = TraciClient::new();
    c.create_filter_command(0x7e, 0x02, Some(&add));
    let out = c.command_to_send().unwrap().as_bytes().to_vec();
    assert_eq!(out[0], 12);
    assert_eq!(&out[1..3], &[0x7eu8, 0x02][..]);
    assert_eq!(out.len(), 12);
}

#[test]
fn set_order_message() {
    let c = TraciClient::new();
    let m = c.set_order_request(1).unwrap();
    assert_eq!(m.as_bytes(), &[6u8, CMD_SETORDER, 0, 0, 0, 1][..]);
}

#[test]
fn step_message() {
    let c = TraciClient::new();
    let m = c.simulation_step_request(0.0f64.to_bits()).unwrap();
    assert_eq!(m.as_bytes(), &[10u8, CMD_SIMSTEP, 0, 0, 0, 0, 0, 0, 0, 0][..]);
}

#[test]
fn load_message() {
    let c = TraciClient::new();
    let args = vec!["-c".to_string(), "a.cfg".to_string()];
    let m = c.load_request(&args).unwrap();
    let b = m.as_bytes();
    // 0, i32 total, CMD_LOAD, TYPE_STRINGLIST, count, "-c", "a.cfg"
    let total = 1 + 4 + 1 + 1 + 4 + (4 + 2) + (4 + 5);
    assert_eq!(b.len(), total);
    assert_eq!(b[0], 0);
    assert_eq!(&b[1..5], &(total as i32).to_be_bytes()[..]);
    assert_eq!(&b[5..7], &[CMD_LOAD, TYPE_STRINGLIST][..]);
}

#[test]
fn subscribe_variable_message() {
    let c = TraciClient::new();
    let m = c
        .subscribe_object_variable_request(0xd4, "v0", 0.0f64.to_bits(), 1.0f64.to_bits(), &[VAR_SPEED, VAR_POSITION])
        .unwrap();
    let b = m.as_bytes();
    let len = 5 + 1 + 8 + 8 + 4 + 2 + 1 + 2;
    assert_eq!(b.len(), len);
    assert_eq!(&b[1..5], &(len as i32).to_be_bytes()[..]);
    assert_eq!(b[5], 0xd4);
    assert_eq!(&b[len - 3..], &[2u8, VAR_SPEED, VAR_POSITION][..]);
}

#[test]
fn closed_client_refuses_requests() {
    let mut c = TraciClient::new();
    let mut resp = Storage::new();
    status(&mut resp, CMD_CLOSE, 0x00, "");
    assert!(c.close_response(resp).is_ok());
    assert!(!c.is_connected());
    assert!(c.command_to_send().is_none());
    assert!(matches!(c.set_order_request(1), Err(TraciError::Connection(_))));
    assert!(matches!(c.close_request(), Err(TraciError::Connection(_))));
}

#[test]
fn version_response_decodes() {
    let mut s = Storage::new();
    status(&mut s, 0x00, 0x00, "");
    s.write_u8(1 + 1 + 4 + 4 + 9);
    s.write_u8(0x00);
    s.write_i32(22);
    s.write_string("SUMO 1.20");
    let (v, text) = get_version_response(s).unwrap();
    assert_eq!(v, 22);
    assert_eq!(text, "SUMO 1.20");
}

#[test]
fn get_response_then_read_value() {
    let mut c = TraciClient::new();
    c.create_command(CMD_GET_VEHICLE_VARIABLE, VAR_SPEED, "veh0", None);
    let mut resp = Storage::new();
    status(&mut resp, CMD_GET_VEHICLE_VARIABLE, 0x00, "");
    resp.append_storage(&get_header(CMD_GET_VEHICLE_VARIABLE + 0x10, TYPE_DOUBLE));
    resp.write_f64(13.9f64.to_bits());
    assert!(c.process_get_response(resp, CMD_GET_VEHICLE_VARIABLE, Some(TYPE_DOUBLE)).is_ok());
    assert_eq!(f64::from_bits(c.read_double_from_input().unwrap()), 13.9);
}

#[test]
fn set_response_error_is_reported() {
    let mut c = TraciClient::new();
    let mut resp = Storage::new();
    status(&mut resp, 0xc4, 0xff, "bad value");
    match c.process_set_response(resp, 0xc4) {
        Err(TraciError::SimulationError(m)) => assert_eq!(m, "bad value"),
        other => panic!("unexpected {:?}", other),
    }
}

// ---------------------------------------------------------------------------
// Step and subscription dispatch
// ---------------------------------------------------------------------------

#[test]
fn step_dispatches_variable_subscription() {
    let mut sub = Storage::new();
    sub_head(&mut sub, RESPONSE_SUBSCRIBE_VEHICLE_VARIABLE);
    sub.write_string("v0");
    sub.write_u8(2);
    var_double(&mut sub, VAR_SPEED, 27.5);
    var_pos2d(&mut sub, VAR_POSITION, 100.0, 200.0);
    let mut c = TraciClient::new();
    assert!(c.simulation_step_response(step_response(&[sub])).is_ok());
    let results = c.scope(DomainId::Vehicle).get_subscription_results("v0").unwrap();
    assert_eq!(results.len(), 2);
    assert_eq!(results.get(&VAR_SPEED), Some(&TraciValue::Double(27.5f64.to_bits())));
    assert_eq!(
        results.get(&VAR_POSITION),
        Some(&TraciValue::Pos2D { x: 100.0f64.to_bits(), y: 200.0f64.to_bits() })
    );
    assert_eq!(c.scope(DomainId::Vehicle).get_all_subscription_results().len(), 1);
    assert!(c.scope(DomainId::Edge).get_all_subscription_results().is_empty());
}

#[test]
fn step_context_with_no_objects_keeps_anchor() {
    let mut sub = Storage::new();
    sub_head(&mut sub, RESPONSE_SUBSCRIBE_VEHICLE_CONTEXT);
    sub.write_string("v0");
    sub.write_u8(0xc4);
    sub.write_u8(1);
    sub.write_i32(0);
    let mut c = TraciClient::new();
    assert!(c.simulation_step_response(step_response(&[sub])).is_ok());
    let ctx = c.scope(DomainId::Vehicle).get_context_subscription_results("v0").unwrap();
    assert_eq!(ctx.len(), 0);
    assert!(c.scope(DomainId::Vehicle).get_subscription_results("v0").is_none());
}

#[test]
fn step_context_with_objects() {
    let mut sub = Storage::new();
    sub_head(&mut sub, RESPONSE_SUBSCRIBE_VEHICLE_CONTEXT);
    sub.write_string("v0");
    sub.write_u8(0xc4);
    sub.write_u8(1);
    sub.write_i32(2);
    sub.write_string("v1");
    var_double(&mut sub, VAR_SPEED, 3.0);
    sub.write_string("v2");
    var_double(&mut sub, VAR_SPEED, 4.0);
    let mut c = TraciClient::new();
    assert!(c.simulation_step_response(step_response(&[sub])).is_ok());
    let ctx = c.scope(DomainId::Vehicle).get_context_subscription_results("v0").unwrap();
    assert_eq!(ctx.len(), 2);
    assert_eq!(
        ctx.get("v2").unwrap().get(&VAR_SPEED),
        Some(&TraciValue::Double(4.0f64.to_bits()))
    );
}

#[test]
fn second_step_replaces_first() {
    let mut c = TraciClient::new();
    let first = step_response(&[vehicle_var_sub("v0", 1.0), vehicle_var_sub("v1", 2.0)]);
    assert!(c.simulation_step_response(first).is_ok());
    assert_eq!(c.scope(DomainId::Vehicle).get_all_subscription_results().len(), 2);
    let second = step_response(&[vehicle_var_sub("v2", 3.0)]);
    assert!(c.simulation_step_response(second).is_ok());
    let vehicles = c.scope(DomainId::Vehicle);
    assert_eq!(vehicles.get_all_subscription_results().len(), 1);
    assert!(vehicles.get_subscription_results("v0").is_none());
    assert!(vehicles.get_subscription_results("v1").is_none());
    assert_eq!(
        vehicles.get_subscription_results("v2").unwrap().get(&VAR_SPEED),
        Some(&TraciValue::Double(3.0f64.to_bits()))
    );
}

#[test]
fn step_routes_by_domain() {
    let mut sub = Storage::new();
    sub_head(&mut sub, RESPONSE_SUBSCRIBE_EDGE_VARIABLE);
    sub.write_string("e1");
    sub.write_u8(1);
    var_double(&mut sub, 0x5a, 8.0);
    let mut c = TraciClient::new();
    assert!(c.simulation_step_response(step_response(&[sub])).is_ok());
    assert!(c.scope(DomainId::Edge).get_subscription_results("e1").is_some());
    assert!(c.scope(DomainId::Vehicle).get_subscription_results("e1").is_none());
}

#[test]
fn step_with_failed_status_keeps_caches() {
    let mut c = TraciClient::new();
    assert!(c.simulation_step_response(step_response(&[vehicle_var_sub("v0", 1.0)])).is_ok());
    let mut bad = Storage::new();
    status(&mut bad, CMD_SIMSTEP, 0xff, "simulation failed");
    match c.simulation_step_response(bad) {
        Err(TraciError::SimulationError(m)) => assert_eq!(m, "simulation failed"),
        other => panic!("unexpected {:?}", other),
    }
    assert!(c.scope(DomainId::Vehicle).get_subscription_results("v0").is_some());
}

#[test]
fn step_with_truncated_batch_is_protocol() {
    let mut s = Storage::new();
    status(&mut s, CMD_SIMSTEP, 0x00, "");
    s.write_i32(1);
    sub_head(&mut s, RESPONSE_SUBSCRIBE_VEHICLE_VARIABLE);
    s.write_string("v0");
    s.write_u8(1);
    let mut c = TraciClient::new();
    assert!(matches!(c.simulation_step_response(s), Err(TraciError::Protocol(_))));
}

#[test]
fn domain_routing_table() {
    assert_eq!(DomainId::from_response(RESPONSE_SUBSCRIBE_VEHICLE_VARIABLE), Some(DomainId::Vehicle));
    assert_eq!(DomainId::from_response(0x68), Some(DomainId::Rerouter));
    assert_eq!(DomainId::from_response(0x00), None);
    assert_eq!(DomainId::VehicleType.index(), 16);
}

#[test]
fn subscribed_kinematics_from_cache() {
    let mut sub = Storage::new();
    sub_head(&mut sub, RESPONSE_SUBSCRIBE_VEHICLE_VARIABLE);
    sub.write_string("v0");
    sub.write_u8(4);
    var_pos2d(&mut sub, VAR_POSITION, 1.0, 2.0);
    var_double(&mut sub, VAR_SPEED, 13.0);
    var_double(&mut sub, VAR_ACCELERATION, -0.5);
    var_double(&mut sub, VAR_ANGLE, 90.0);
    let mut c = TraciClient::new();
    assert!(c.simulation_step_response(step_response(&[sub, vehicle_var_sub("v1", 2.0)])).is_ok());
    let k = c.scope(DomainId::Vehicle).get_subscribed_kinematics("v0").unwrap();
    assert_eq!(k.position.x, 1.0f64.to_bits());
    assert_eq!(k.position.y, 2.0f64.to_bits());
    assert!(!k.position.is_3d());
    assert_eq!(f64::from_bits(k.speed), 13.0);
    assert_eq!(f64::from_bits(k.acceleration), -0.5);
    assert_eq!(f64::from_bits(k.angle), 90.0);
    assert!(c.scope(DomainId::Vehicle).get_subscribed_kinematics("v1").is_none());
    assert!(c.scope(DomainId::Vehicle).get_subscribed_kinematics("nope").is_none());
}

#[test]
fn polygon_read_from_response() {
    let mut c = TraciClient::new();
    c.create_command(0xa8, 0x4e, "poly0", None);
    let mut resp = Storage::new();
    status(&mut resp, 0xa8, 0x00, "");
    resp.append_storage(&get_header(0xa8 + 0x10, 0x06));
    resp.write_u8(2);
    for v in [0.0f64, 1.0, 5.0, 6.0] {
        resp.write_f64(v.to_bits());
    }
    assert!(c.process_get_response(resp, 0xa8, Some(0x06)).is_ok());
    let pts = c.read_polygon_from_input().unwrap();
    assert_eq!(pts.len(), 2);
    assert_eq!(f64::from_bits(pts[1].x), 5.0);
    assert_eq!(f64::from_bits(pts[1].y), 6.0);
    assert!(!pts[1].is_3d());
    assert!(matches!(c.read_polygon_from_input(), Err(TraciError::Protocol(_))));
}
