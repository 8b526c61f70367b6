use zlib_py::checksum::{adler32, adler32_combine, crc32, crc32_combine};

#[test]
fn adler32_of_empty_is_start() {
    assert_eq!(adler32(b"", 1), 1);
    assert_eq!(adler32(b"", 0xffff_ffff), 0xffff_ffff);
}

#[test]
fn adler32_known_values() {
    assert_eq!(adler32(b"hello", 1), 103547413);
    assert_eq!(adler32(b"abcdef", 1), 136184406);
    assert_eq!(adler32(b"a", 0xffff_ffff), 8192111);
}

#[test]
fn adler32_is_running() {
    let first = adler32(b"hello ", 1);
    assert_eq!(adler32(b"world", first), adler32(b"hello world", 1));
    assert_eq!(adler32(b"hello world", 1), 436929629);
}

#[test]
fn adler32_of_long_input_matches_bytewise_definition() {
    let data: Vec<u8> = (0..100_000u32).map(|i| (i * 7 + 3) as u8).collect();
    let mut a: u32 = 1;
    let mut b: u32 = 0;
    for &x in &data {
        a = (a + x as u32) % 65521;
        b = (b + a) % 65521;
    }
    assert_eq!(adler32(&data, 1), (b << 16) | a);
}

#[test]
fn crc32_known_values() {
    assert_eq!(crc32(b"", 0), 0);
    assert_eq!(crc32(b"hello", 0), 907060870);
    assert_eq!(crc32(b"The quick brown fox jumps over the lazy dog", 0), 1095738169);
}

#[test]
fn crc32_is_running() {
    let first = crc32(b"hello ", 0);
    assert_eq!(crc32(b"world", first), crc32(b"hello world", 0));
    assert_eq!(crc32(b"hello world", 0), 222957957);
}

#[test]
fn crc32_of_long_input_matches_bitwise_definition() {
    let data: Vec<u8> = (0..5000u32).map(|i| (i * 13 + 5) as u8).collect();
    let mut c: u32 = !0;
    for &x in &data {
        c ^= x as u32;
        for _ in 0..8 {
            c = if c & 1 == 1 { (c >> 1) ^ 0xEDB8_8320 } else { c >> 1 };
        }
    }
    assert_eq!(crc32(&data, 0), !c);
}

#[test]
fn adler32_combine_gives_checksum_of_concatenation() {
    let a = adler32(b"abc", 1);
    let b = adler32(b"def", 1);
    assert_eq!(a, 38600999);
    assert_eq!(b, 39780656);
    assert_eq!(adler32_combine(a, b, 3), 136184406);
}

#[test]
fn crc32_combine_gives_checksum_of_concatenation() {
    let a = crc32(b"abc", 0);
    let b = crc32(b"def", 0);
    assert_eq!(a, 891568578);
    assert_eq!(b, 214229345);
    assert_eq!(crc32_combine(a, b, 3), 1267612143);
}

#[test]
fn combine_with_long_second_part() {
    let first: Vec<u8> = (0..1000u32).map(|i| i as u8).collect();
    let second: Vec<u8> = (0..70_000u32).map(|i| (i % 251) as u8).collect();
    let mut whole = first.clone();
    whole.extend_from_slice(&second);
    assert_eq!(
        adler32_combine(adler32(&first, 1), adler32(&second, 1), second.len() as i64),
        adler32(&whole, 1)
    );
    assert_eq!(
        crc32_combine(crc32(&first, 0), crc32(&second, 0), second.len() as i64),
        crc32(&whole, 0)
    );
}

#[test]
fn adler32_from_unreduced_start_matches_bytewise_definition() {
    let data: Vec<u8> = (0..100_000u32).map(|i| (i * 11 + 1) as u8).collect();
    let mut a: u32 = 0xffff;
    let mut b: u32 = 0xffff;
    for &x in &data {
        a = (a + x as u32) % 65521;
        b = (b + a) % 65521;
    }
    assert_eq!(adler32(&data, 0xffff_ffff), (b << 16) | a);
}

#[test]
fn adler32_halves_stay_below_the_modulus() {
    for start in [1u32, 0, 0xffff_ffff, 0xfff0_fff0] {
        let v = adler32(b"some bytes to checksum", start);
        assert!(v & 0xffff < 65521);
        assert!(v >> 16 < 65521);
    }
}
