use simetry::iracing::header::{Header, VarBuf, VAR_HEADER_LEN};
use simetry::iracing::var_header::{
    get_var_headers, index_by_name, read_var_headers, var_type_from_code, VarHeader, VarHeaderError, VarType,
};

fn record(code: i32, offset: i32, count: i32, as_time: bool, name: &str, desc: &str, unit: &str) -> Vec<u8> {
    let mut r = vec![0u8; VAR_HEADER_LEN];
    r[0..4].copy_from_slice(&code.to_le_bytes());
    r[4..8].copy_from_slice(&offset.to_le_bytes());
    r[8..12].copy_from_slice(&count.to_le_bytes());
    r[12] = as_time as u8;
    r[16..16 + name.len()].copy_from_slice(name.as_bytes());
    r[48..48 + desc.len()].copy_from_slice(desc.as_bytes());
    r[112..112 + unit.len()].copy_from_slice(unit.as_bytes());
    r
}

fn header(num_vars: i32, var_header_offset: i32) -> Header {
    Header {
        ver: 2,
        status: 1,
        tick_rate: 60,
        session_info_update: 0,
        session_info_len: 0,
        session_info_offset: 0,
        num_vars,
        var_header_offset,
        num_buf: 0,
        buf_len: 0,
        var_buf: [VarBuf { tick_count: 0, buf_offset: 0 }; 4],
    }
}

#[test]
fn type_codes() {
    assert_eq!(var_type_from_code(0), Some(VarType::Char));
    assert_eq!(var_type_from_code(1), Some(VarType::Bool));
    assert_eq!(var_type_from_code(2), Some(VarType::Int));
    assert_eq!(var_type_from_code(3), Some(VarType::BitField));
    assert_eq!(var_type_from_code(4), Some(VarType::Float));
    assert_eq!(var_type_from_code(5), Some(VarType::Double));
    assert_eq!(var_type_from_code(6), None);
    assert_eq!(var_type_from_code(-1), None);
}

#[test]
fn reads_one_descriptor() {
    let r = record(4, 8, 1, false, "Speed", "GPS vehicle speed", "m/s");
    let h = VarHeader::from_raw(&r).unwrap();
    assert_eq!(h.var_type, VarType::Float);
    assert_eq!(h.offset, 8);
    assert_eq!(h.count, 1);
    assert!(!h.count_as_time);
    assert_eq!(h.name, "Speed");
    assert_eq!(h.description, "GPS vehicle speed");
    assert_eq!(h.unit, "m/s");
}

#[test]
fn full_width_name_has_no_terminator() {
    let name = "A".repeat(32);
    let r = record(1, 0, 4, true, &name, "", "");
    let h = VarHeader::from_raw(&r).unwrap();
    assert_eq!(h.name, name);
    assert!(h.count_as_time);
    assert_eq!(h.unit, "");
}

#[test]
fn unknown_type_is_refused() {
    let r = record(9, 0, 1, false, "Odd", "", "");
    assert_eq!(VarHeader::from_raw(&r).unwrap_err(), VarHeaderError::UnknownType(9));
}

#[test]
fn block_keeps_known_descriptors_in_order() {
    let mut mem = vec![0xEEu8; 20];
    mem.extend(record(2, 0, 1, false, "Gear", "Gear", ""));
    mem.extend(record(7, 4, 1, false, "Bogus", "", ""));
    mem.extend(record(5, 8, 1, false, "Lat", "Latitude", "rad"));
    let list = read_var_headers(&header(3, 20), &mem).unwrap();
    let names: Vec<&str> = list.iter().map(|h| h.name.as_str()).collect();
    assert_eq!(names, vec!["Gear", "Lat"]);
    assert_eq!(list[1].var_type, VarType::Double);
}

#[test]
fn block_outside_snapshot_gives_nothing() {
    let mem = vec![0u8; 20 + VAR_HEADER_LEN];
    assert!(get_var_headers(&header(2, 20), &mem).is_none());
    assert!(read_var_headers(&header(2, 20), &mem).is_none());
    assert!(get_var_headers(&header(1, -4), &mem).is_none());
    assert_eq!(get_var_headers(&header(0, 20), &mem).map(|v| v.len()), Some(0));
}

#[test]
fn block_is_keyed_by_name_with_last_winning() {
    let mut mem = Vec::new();
    mem.extend(record(2, 0, 1, false, "Gear", "first", ""));
    mem.extend(record(4, 4, 1, false, "Speed", "speed", "m/s"));
    mem.extend(record(8, 8, 1, false, "Gear", "unknown type", ""));
    mem.extend(record(1, 12, 1, false, "Gear", "last", ""));
    let mut keyed = get_var_headers(&header(4, 0), &mem).unwrap();
    keyed.sort_by(|a, b| a.name.cmp(&b.name));
    assert_eq!(keyed.len(), 2);
    assert_eq!(keyed[0].name, "Gear");
    assert_eq!(keyed[0].description, "last");
    assert_eq!(keyed[0].var_type, VarType::Bool);
    assert_eq!(keyed[1].name, "Speed");
}

#[test]
fn index_by_name_without_repeats_keeps_all() {
    let list: Vec<VarHeader> = ["A", "B", "C"]
        .iter()
        .map(|n| VarHeader::from_raw(&record(2, 0, 1, false, n, "", "")).unwrap())
        .collect();
    let mut names: Vec<String> = index_by_name(list).into_iter().map(|h| h.name).collect();
    names.sort();
    assert_eq!(names, vec!["A", "B", "C"]);
}

#[test]
fn index_by_name_of_nothing_is_empty() {
    assert!(index_by_name(Vec::new()).is_empty());
}
