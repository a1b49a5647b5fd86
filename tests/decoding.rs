use hns_users::record::{
    ARMOR_AT, BANK_AT, CHARISMA_AT, CLASS_AT, DATA_LENGTH, DATA_OFFSET, DEXTERITY_AT,
    EXPERIENCE_AT, GOLD_AT, HANDLE_LENGTH, IMMORTAL_AT, INTELLIGENCE_AT, LEVEL_AT, LOAN_AT,
    STRENGTH_AT, WEAPON_AT,
};
use hns_users::text::{is_placeholder_name, trim_nuls};
use hns_users::{
    assemble_record, collect_records, decode_block, read_be_u64, Armor, DecodeError, Decoded,
    RecordDecoder, User, UserClass, Weapon,
};

const BLOCK: usize = 320;

fn block(handle: &[u8], name: &[u8]) -> Vec<u8> {
    let mut b = vec![0u8; BLOCK];
    b[..handle.len()].copy_from_slice(handle);
    b[HANDLE_LENGTH..HANDLE_LENGTH + name.len()].copy_from_slice(name);
    b
}

fn set(b: &mut [u8], at: usize, v: u8) {
    b[DATA_OFFSET + at] = v;
}

fn set_f64(b: &mut [u8], at: usize, v: f64) {
    b[DATA_OFFSET + at..DATA_OFFSET + at + 8].copy_from_slice(&v.to_be_bytes());
}

fn record(d: Decoded) -> User {
    match d {
        Decoded::Record(u) => u,
        other => panic!("expected a record, got {:?}", other),
    }
}

fn alice() -> Vec<u8> {
    let mut b = block(b"alice", b"Alice");
    set(&mut b, LEVEL_AT, 10);
    set(&mut b, STRENGTH_AT, 12);
    set(&mut b, INTELLIGENCE_AT, 30);
    set(&mut b, DEXTERITY_AT, 14);
    set(&mut b, CHARISMA_AT, 9);
    set(&mut b, IMMORTAL_AT, 0);
    set(&mut b, CLASS_AT, 2);
    set(&mut b, WEAPON_AT, 5);
    set(&mut b, ARMOR_AT, 3);
    set_f64(&mut b, EXPERIENCE_AT, 1234.75);
    set_f64(&mut b, GOLD_AT, 99.5);
    b
}

#[test]
fn zero_block_is_empty_slot() {
    let b = vec![0u8; BLOCK];
    assert!(matches!(decode_block(&b), Decoded::EmptySlot));
}

#[test]
fn non_utf8_handle_is_empty_slot() {
    let b = block(&[0xff, 0xfe, b'a'], b"Someone");
    assert!(matches!(decode_block(&b), Decoded::EmptySlot));
}

#[test]
fn placeholder_account_decodes_but_is_not_kept() {
    let dummy = block(b"sysop", b"Hack & Slash");
    let u = record(decode_block(&dummy));
    assert_eq!(u.name, "Hack & Slash");
    let mut file = dummy.clone();
    file.extend(alice());
    let users = collect_records(file).unwrap();
    assert_eq!(users.len(), 1);
    assert_eq!(users[0].handle, "alice");
}

#[test]
fn only_placeholder_gives_no_records() {
    let dummy = block(b"sysop", b"Hack & Slash");
    assert_eq!(collect_records(dummy).unwrap_err(), DecodeError::NoRecords);
}

#[test]
fn empty_file_gives_no_records() {
    assert_eq!(collect_records(vec![]).unwrap_err(), DecodeError::NoRecords);
}

#[test]
fn full_blocks_then_end_of_stream() {
    let mut file = alice();
    file.extend(vec![0u8; BLOCK]);
    file.extend(alice());
    let mut d = RecordDecoder::new(file);
    assert!(matches!(d.decode_next(), Ok(Decoded::Record(_))));
    assert!(matches!(d.decode_next(), Ok(Decoded::EmptySlot)));
    assert!(matches!(d.decode_next(), Ok(Decoded::Record(_))));
    assert!(matches!(d.decode_next(), Ok(Decoded::EndOfStream)));
}

#[test]
fn trailing_byte_is_truncated_block() {
    let mut file = alice();
    file.extend(alice());
    file.push(7);
    let mut d = RecordDecoder::new(file.clone());
    assert!(matches!(d.decode_next(), Ok(Decoded::Record(_))));
    assert!(matches!(d.decode_next(), Ok(Decoded::Record(_))));
    assert_eq!(d.decode_next().unwrap_err(), DecodeError::TruncatedBlock);
    assert_eq!(collect_records(file).unwrap_err(), DecodeError::TruncatedBlock);
}

#[test]
fn unknown_codes_fall_back() {
    let mut b = alice();
    set(&mut b, CLASS_AT, 200);
    set(&mut b, WEAPON_AT, 200);
    set(&mut b, ARMOR_AT, 0);
    let u = record(decode_block(&b));
    assert_eq!(u.class, None);
    assert_eq!(u.weapon, Weapon::NoWeapon);
    assert_eq!(u.armor, Armor::NoArmor);
}

#[test]
fn known_codes_map_to_variants() {
    assert_eq!(UserClass::from_u8(&1), Some(UserClass::Cleric));
    assert_eq!(Weapon::from_u8(&7), Weapon::TwoHandedSword);
    assert_eq!(Armor::from_u8(&7), Armor::PlateMail);
}

#[test]
fn money_fields_floor_to_whole_numbers() {
    let mut b = alice();
    set_f64(&mut b, EXPERIENCE_AT, 1234.75);
    set_f64(&mut b, GOLD_AT, 99.5);
    set_f64(&mut b, BANK_AT, 0.25);
    set_f64(&mut b, LOAN_AT, 1e6 + 0.999);
    let u = record(decode_block(&b));
    assert_eq!(f64::from_bits(u.experience_bits).floor(), 1234.0);
    assert_eq!(f64::from_bits(u.gold_bits).floor(), 99.0);
    assert_eq!(f64::from_bits(u.bank_bits).floor(), 0.0);
    assert_eq!(f64::from_bits(u.loan_bits).floor(), 1e6);
}

#[test]
fn end_to_end_two_blocks() {
    let mut file = alice();
    file.extend(vec![0u8; BLOCK]);
    let users = collect_records(file).unwrap();
    assert_eq!(users.len(), 1);
    let u = &users[0];
    assert_eq!(u.handle, "alice");
    assert_eq!(u.name, "Alice");
    assert_eq!(u.level, 10);
    assert_eq!(u.strength, 12);
    assert_eq!(u.intelligence, 30);
    assert_eq!(u.dexterity, 14);
    assert_eq!(u.charisma, 9);
    assert_eq!(u.immortal, 0);
    assert_eq!(u.class, Some(UserClass::Fighter));
    assert_eq!(u.weapon, Weapon::LongSword);
    assert_eq!(u.armor, Armor::RingMail);
    assert_eq!(u.experience_needed, Some(512 * 1040));
    assert_eq!(f64::from_bits(u.experience_bits).floor(), 1234.0);
}

#[test]
fn level_cap_has_no_experience_target() {
    let mut b = alice();
    set(&mut b, LEVEL_AT, 100);
    assert_eq!(record(decode_block(&b)).experience_needed, None);
    set(&mut b, LEVEL_AT, 99);
    assert!(record(decode_block(&b)).experience_needed.is_some());
}

#[test]
fn name_is_read_as_windows_1252() {
    let b = block(b"rene", &[b'R', 0xe9, b'n', 0xe9, 0x80]);
    let u = record(decode_block(&b));
    assert_eq!(u.name, "R\u{e9}n\u{e9}\u{20ac}");
}

#[test]
fn handle_keeps_utf8_and_loses_trailing_nuls() {
    let b = block("z\u{fc}rich".as_bytes(), b"Z");
    let u = record(decode_block(&b));
    assert_eq!(u.handle, "z\u{fc}rich");
    assert_eq!(u.name, "Z");
}

#[test]
fn assemble_record_from_texts() {
    let data = vec![0u8; DATA_LENGTH];
    let d = assemble_record(Some("bob\0\0".to_string()), "Bob\0".to_string(), &data);
    let u = record(d);
    assert_eq!(u.handle, "bob");
    assert_eq!(u.name, "Bob");
    assert_eq!(u.experience_needed, Some(550));
    assert!(matches!(
        assemble_record(Some("\0\0".to_string()), "X".to_string(), &data),
        Decoded::EmptySlot
    ));
    assert!(matches!(
        assemble_record(None, "X".to_string(), &data),
        Decoded::EmptySlot
    ));
}

#[test]
fn big_endian_words() {
    let d = [0x01, 0x02, 0x03, 0x04, 0x05, 0x06, 0x07, 0x08, 0xff];
    assert_eq!(read_be_u64(&d, 0), 0x0102030405060708);
    assert_eq!(read_be_u64(&d, 1), 0x02030405060708ff);
}

#[test]
fn trimming_and_placeholder() {
    assert_eq!(trim_nuls("ab\0\0"), "ab");
    assert_eq!(trim_nuls("\0a\0"), "\0a");
    assert_eq!(trim_nuls("\0\0"), "");
    assert!(is_placeholder_name("Hack & Slash"));
    assert!(!is_placeholder_name("Hack & Slosh"));
    assert!(!is_placeholder_name("Hack & Slash!"));
}
