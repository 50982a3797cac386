use dark_privilege_lib::privileges::{
    parse_token_privileges, privilege_name, privilege_name_buffer_len, PrivilegeEntry,
};

fn record(low: u32, high: i32, attributes: u32) -> Vec<u8> {
    let mut v = Vec::new();
    v.extend_from_slice(&low.to_le_bytes());
    v.extend_from_slice(&high.to_le_bytes());
    v.extend_from_slice(&attributes.to_le_bytes());
    v
}

#[test]
fn parses_two_privileges() {
    let mut buffer = 2u32.to_le_bytes().to_vec();
    buffer.extend(record(19, 0, 0));
    buffer.extend(record(23, 0, 3));
    let entries = parse_token_privileges(&buffer).unwrap();
    assert_eq!(
        entries,
        vec![
            PrivilegeEntry { luid_low: 19, luid_high: 0, attributes: 0 },
            PrivilegeEntry { luid_low: 23, luid_high: 0, attributes: 3 },
        ]
    );
}

#[test]
fn parses_little_endian_and_signed_high_part() {
    let mut buffer = 1u32.to_le_bytes().to_vec();
    buffer.extend(record(0x0403_0201, -2, 0x8000_0000));
    let entries = parse_token_privileges(&buffer).unwrap();
    assert_eq!(entries[0], PrivilegeEntry { luid_low: 0x0403_0201, luid_high: -2, attributes: 0x8000_0000 });
}

#[test]
fn parses_empty_privilege_list() {
    assert_eq!(parse_token_privileges(&0u32.to_le_bytes()), Some(vec![]));
}

#[test]
fn ignores_trailing_bytes() {
    let mut buffer = 1u32.to_le_bytes().to_vec();
    buffer.extend(record(5, 1, 2));
    buffer.extend([0xAA, 0xBB, 0xCC]);
    assert_eq!(
        parse_token_privileges(&buffer),
        Some(vec![PrivilegeEntry { luid_low: 5, luid_high: 1, attributes: 2 }])
    );
}

#[test]
fn rejects_buffer_without_header() {
    assert_eq!(parse_token_privileges(&[1, 0, 0]), None);
    assert_eq!(parse_token_privileges(&[]), None);
}

#[test]
fn rejects_buffer_shorter_than_announced() {
    let mut buffer = 2u32.to_le_bytes().to_vec();
    buffer.extend(record(19, 0, 0));
    buffer.extend([0; 11]);
    assert_eq!(parse_token_privileges(&buffer), None);
}

#[test]
fn rejects_huge_count() {
    let buffer = u32::MAX.to_le_bytes().to_vec();
    assert_eq!(parse_token_privileges(&buffer), None);
}

#[test]
fn name_buffer_has_room_for_nul() {
    assert_eq!(privilege_name_buffer_len(0), 1);
    assert_eq!(privilege_name_buffer_len(24), 25);
}

#[test]
fn privilege_name_stops_at_nul() {
    let mut buffer: Vec<u16> = "SeChangeNotifyPrivilege".encode_utf16().collect();
    buffer.push(0);
    buffer.push(0x41);
    assert_eq!(privilege_name(&buffer), "SeChangeNotifyPrivilege");
}
