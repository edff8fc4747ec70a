use kiosk_devices::bits::bit_is_set;
use kiosk_devices::bits::bits_to_bools;
use kiosk_devices::error::CcnetError;
use kiosk_devices::payload::decode_bill_options;
use kiosk_devices::payload::decode_bill_table;
use kiosk_devices::payload::decode_cassettes;
use kiosk_devices::payload::decode_info;
use kiosk_devices::payload::decode_status;
use kiosk_devices::payload::BillDescription;
use kiosk_devices::payload::CassetteStatus;
use kiosk_devices::payload::Denomination;
use kiosk_devices::payload::Status;
use kiosk_devices::text::bin_to_str;

fn value(d: &Denomination) -> f64 {
    let scale = 10f64.powi(d.exponent as i32);
    if d.divide {
        d.base as f64 / scale
    } else {
        d.base as f64 * scale
    }
}

#[test]
fn bits_lowest_first() {
    let bools = bits_to_bools(&[0b0000_0001, 0, 0], 24).unwrap();
    assert_eq!(bools.len(), 24);
    assert!(bools[0]);
    for i in 1..24 {
        assert!(!bools[i]);
    }
}

#[test]
fn bits_of_each_place() {
    for i in 0..24usize {
        let mut src = [0u8; 3];
        src[i / 8] = 1 << (i % 8);
        let bools = bits_to_bools(&src, 24).unwrap();
        for j in 0..24usize {
            assert_eq!(bools[j], i == j);
        }
    }
}

#[test]
fn bits_partial_byte() {
    assert_eq!(
        bits_to_bools(&[0b1010_0101, 0b0000_0011], 10),
        Ok(vec![true, false, true, false, false, true, false, true, true, true])
    );
    assert_eq!(bits_to_bools(&[0xFF], 0), Ok(vec![]));
    assert_eq!(bits_to_bools(&[], 0), Ok(vec![]));
}

#[test]
fn bits_need_enough_bytes() {
    assert_eq!(bits_to_bools(&[0, 0], 24), Err(CcnetError::NotEnoughBytes));
    assert_eq!(bits_to_bools(&[0, 0], 17), Err(CcnetError::NotEnoughBytes));
    assert_eq!(bits_to_bools(&[], 1), Err(CcnetError::NotEnoughBytes));
    assert!(bits_to_bools(&[0, 0], 16).is_ok());
}

#[test]
fn bit_is_set_reads_one_bit() {
    assert!(bit_is_set(0b1000_0000, 7));
    assert!(!bit_is_set(0b0111_1111, 7));
    assert!(bit_is_set(0b0100_0000, 6));
    assert!(bit_is_set(1, 0));
    assert!(!bit_is_set(1, 1));
}

#[test]
fn text_reads_utf8() {
    assert_eq!(bin_to_str(b"USD"), "USD");
    assert_eq!(bin_to_str(&[]), "");
    assert_eq!(bin_to_str(&[0xD0, 0xA0, 0xD0, 0xA3, 0xD0, 0x91]), "РУБ");
    assert_eq!(bin_to_str(&[b'A', 0, b'B']), "A\0B");
}

#[test]
fn text_that_is_not_utf8_is_unknown() {
    assert_eq!(bin_to_str(&[0xFF, 0xFE, 0xFD]), "UNKNOWN");
    assert_eq!(bin_to_str(&[b'U', b'S', 0x80]), "UNKNOWN");
    assert_eq!(bin_to_str(&[0xD0]), "UNKNOWN");
}

#[test]
fn status_escrow_names_the_bill() {
    assert_eq!(decode_status(&[0x80, 7]), Ok(Status::Escrow(7)));
    assert_eq!(decode_status(&[0x80, 7, 9]), Ok(Status::Escrow(7)));
}

#[test]
fn status_escrow_without_bill_type() {
    assert_eq!(decode_status(&[0x80]), Err(CcnetError::MissingBillType));
}

#[test]
fn status_of_empty_message() {
    assert_eq!(decode_status(&[]), Err(CcnetError::EmptyStatus));
}

#[test]
fn status_codes_with_a_variant() {
    assert_eq!(decode_status(&[0x10]), Ok(Status::PowerUp));
    assert_eq!(decode_status(&[0x13]), Ok(Status::Initialize));
    assert_eq!(decode_status(&[0x14]), Ok(Status::Idling));
    assert_eq!(decode_status(&[0x19]), Ok(Status::Disabled));
    assert_eq!(decode_status(&[0x1A]), Ok(Status::Holding));
    assert_eq!(
        decode_status(&[0x1C, 0x60]),
        Ok(Status::Rejecting(String::from("Generic rejecting")))
    );
    assert_eq!(decode_status(&[0x1D]), Ok(Status::Dispensing));
    assert_eq!(decode_status(&[0x41]), Ok(Status::DropCasseteFull));
    assert_eq!(decode_status(&[0x42]), Ok(Status::DropCasseteRemoved));
}

#[test]
fn status_codes_without_a_variant() {
    for code in [
        0x15u8, 0x17, 0x18, 0x1B, 0x1E, 0x21, 0x25, 0x26, 0x28, 0x29, 0x30, 0x43, 0x44, 0x45, 0x81,
        0x82, 0x00, 0xFF,
    ] {
        assert_eq!(decode_status(&[code]), Ok(Status::Other(code)));
    }
}

#[test]
fn bill_options_of_24_bytes() {
    let mut data = [0u8; 24];
    data[0] = 0b0000_0101;
    data[2] = 0b1000_0000;
    data[3] = 0xFF;
    data[8] = 0b0000_0010;
    data[9] = 0xFF;
    let options = decode_bill_options(&data).unwrap();
    for i in 0..24 {
        assert_eq!(options.acceptable[i], i == 0 || i == 2 || i == 23);
        assert_eq!(options.security[i], i < 8);
        assert_eq!(options.routing[i], i == 17);
    }
}

#[test]
fn bill_options_of_another_length() {
    assert_eq!(decode_bill_options(&[0u8; 23]), Err(CcnetError::UnexpectedLength));
    assert_eq!(decode_bill_options(&[0u8; 25]), Err(CcnetError::UnexpectedLength));
    assert_eq!(decode_bill_options(&[0u8; 9]), Err(CcnetError::UnexpectedLength));
    assert_eq!(decode_bill_options(&[]), Err(CcnetError::UnexpectedLength));
}

#[test]
fn cassette_present_and_full() {
    assert_eq!(
        decode_cassettes(&[0b1100_0000, 3]),
        Ok(vec![CassetteStatus { present: true, is_full: true, nbills: 3 }])
    );
}

#[test]
fn cassettes_in_order() {
    assert_eq!(
        decode_cassettes(&[0b1000_0000, 10, 0b0100_0000, 0, 0b0011_1111, 255]),
        Ok(vec![
            CassetteStatus { present: true, is_full: false, nbills: 10 },
            CassetteStatus { present: false, is_full: true, nbills: 0 },
            CassetteStatus { present: false, is_full: false, nbills: 255 },
        ])
    );
    assert_eq!(decode_cassettes(&[]), Ok(vec![]));
}

#[test]
fn cassettes_of_odd_length() {
    assert_eq!(decode_cassettes(&[0b1100_0000]), Err(CcnetError::UnexpectedLength));
    assert_eq!(decode_cassettes(&[0b1100_0000, 3, 0]), Err(CcnetError::UnexpectedLength));
}

#[test]
fn denomination_multiplied() {
    let table = decode_bill_table(&[50, b'U', b'S', b'D', 0x00]).unwrap();
    assert_eq!(
        table,
        vec![BillDescription {
            denomination: Denomination { base: 50, exponent: 0, divide: false },
            country_code: String::from("USD"),
        }]
    );
    assert_eq!(value(&table[0].denomination), 50.0);
}

#[test]
fn denomination_divided() {
    let table = decode_bill_table(&[50, b'U', b'S', b'D', 0x82]).unwrap();
    assert_eq!(table[0].denomination, Denomination { base: 50, exponent: 2, divide: true });
    assert_eq!(value(&table[0].denomination), 0.5);
    assert_eq!(table[0].country_code, "USD");
}

#[test]
fn bill_table_in_order() {
    let table = decode_bill_table(&[
        1, b'R', b'U', b'S', 0x01, 5, b'R', b'U', b'S', 0x02, 0, 0, 0, 0, 0, 25, 0xFF, b'X', b'Y',
        0xFF,
    ])
    .unwrap();
    assert_eq!(table.len(), 4);
    assert_eq!(value(&table[0].denomination), 10.0);
    assert_eq!(value(&table[1].denomination), 500.0);
    assert_eq!(table[2].denomination, Denomination { base: 0, exponent: 0, divide: false });
    assert_eq!(table[2].country_code, "\0\0\0");
    assert_eq!(table[3].denomination, Denomination { base: 25, exponent: 127, divide: true });
    assert_eq!(table[3].country_code, "UNKNOWN");
    assert_eq!(decode_bill_table(&[]), Ok(vec![]));
}

#[test]
fn bill_table_of_broken_length() {
    assert_eq!(decode_bill_table(&[50, b'U', b'S', b'D']), Err(CcnetError::UnexpectedLength));
    assert_eq!(decode_bill_table(&[0u8; 6]), Err(CcnetError::UnexpectedLength));
}

fn info_message() -> Vec<u8> {
    let mut data = Vec::new();
    data.extend_from_slice(b"PART-NUMBER-015");
    data.extend_from_slice(b"SERIAL-00012");
    data.extend_from_slice(&[0x01, 0x02, 0x03, 0x04, 0x05, 0x06, 0x07, 0x08]);
    data.extend_from_slice(b"BH-006");
    data.extend_from_slice(b"PROGRAM-VERSION-HEAD");
    data.extend_from_slice(b"BC-006");
    data.extend_from_slice(b"PC-006");
    data.extend_from_slice(b"BP-006");
    data.extend_from_slice(&[0xFF, 0xFF, 0xFF, 0xFF, 0xFF, 0xFF]);
    data.extend_from_slice(b"CAS-01");
    data.extend_from_slice(b"CAS-02");
    data.extend_from_slice(b"CAS-03");
    data.extend_from_slice(b"PCAS-6");
    data
}

#[test]
fn info_of_109_bytes() {
    let data = info_message();
    assert_eq!(data.len(), 109);
    let info = decode_info(&data).unwrap();
    assert_eq!(info.part_number, "PART-NUMBER-015");
    assert_eq!(info.serial_number, "SERIAL-00012");
    assert_eq!(info.asset_number, 0x0102_0304_0506_0708);
    assert_eq!(info.boot_version_head, "BH-006");
    assert_eq!(info.program_version_head, "PROGRAM-VERSION-HEAD");
    assert_eq!(info.boot_version_cpu, "BC-006");
    assert_eq!(info.program_version_cpu, "PC-006");
    assert_eq!(info.boot_version_packer, "BP-006");
    assert_eq!(info.program_version_packer, "UNKNOWN");
    assert_eq!(info.boot_version_cassette1, "CAS-01");
    assert_eq!(info.boot_version_cassette2, "CAS-02");
    assert_eq!(info.boot_version_cassette3, "CAS-03");
    assert_eq!(info.program_version_cassette, "PCAS-6");
}

#[test]
fn info_asset_number_is_big_endian() {
    let mut data = info_message();
    for byte in &mut data[27..35] {
        *byte = 0xFF;
    }
    assert_eq!(decode_info(&data).unwrap().asset_number, u64::MAX);
    for byte in &mut data[27..35] {
        *byte = 0;
    }
    data[34] = 1;
    assert_eq!(decode_info(&data).unwrap().asset_number, 1);
    data[34] = 0;
    data[27] = 1;
    assert_eq!(decode_info(&data).unwrap().asset_number, 1 << 56);
}

#[test]
fn info_of_another_length() {
    let mut data = info_message();
    data.push(0);
    assert_eq!(decode_info(&data), Err(CcnetError::UnexpectedLength));
    data.truncate(108);
    assert_eq!(decode_info(&data), Err(CcnetError::UnexpectedLength));
    assert_eq!(decode_info(&[]), Err(CcnetError::UnexpectedLength));
}
