use server::utils::{new_id, parse_id, space_path, u2b, u2s, u64_text, vector_db_path};

const SAMPLE: u128 = 0xa1a2a3a4b1b2c1c2d1d2d3d4d5d6d7d8;

#[test]
fn u2b_gives_big_endian_bytes() {
    assert_eq!(
        u2b(SAMPLE),
        vec![
            0xa1, 0xa2, 0xa3, 0xa4, 0xb1, 0xb2, 0xc1, 0xc2, 0xd1, 0xd2, 0xd3, 0xd4, 0xd5, 0xd6,
            0xd7, 0xd8
        ]
    );
    assert_eq!(u2b(0), vec![0u8; 16]);
    assert_eq!(u2b(1)[15], 1);
    assert_eq!(u2b(u128::MAX), vec![0xffu8; 16]);
}

#[test]
fn u2s_gives_hyphenated_lower_case() {
    assert_eq!(u2s(SAMPLE), "a1a2a3a4-b1b2-c1c2-d1d2-d3d4d5d6d7d8");
    assert_eq!(u2s(0), "00000000-0000-0000-0000-000000000000");
}

#[test]
fn parse_id_reads_what_u2s_writes() {
    assert_eq!(parse_id(&u2s(SAMPLE)), Some(SAMPLE));
    assert_eq!(parse_id("a1a2a3a4b1b2c1c2d1d2d3d4d5d6d7d8"), Some(SAMPLE));
    assert_eq!(parse_id("A1A2A3A4-B1B2-C1C2-D1D2-D3D4D5D6D7D8"), Some(SAMPLE));
}

#[test]
fn parse_id_refuses_other_texts() {
    assert_eq!(parse_id(""), None);
    assert_eq!(parse_id("file"), None);
    assert_eq!(parse_id("a1a2a3a4-b1b2-c1c2-d1d2-d3d4d5d6d7"), None);
    assert_eq!(parse_id("g1a2a3a4-b1b2-c1c2-d1d2-d3d4d5d6d7d8"), None);
}

#[test]
fn new_ids_are_random_version_four() {
    let a = new_id();
    let b = new_id();
    assert_ne!(a, b);
    assert_eq!((a >> 76) & 0xf, 4);
    assert_eq!(u2s(a).len(), 36);
}

#[test]
fn space_paths() {
    assert_eq!(
        space_path("/data/spaces", SAMPLE),
        "/data/spaces/a1a2a3a4-b1b2-c1c2-d1d2-d3d4d5d6d7d8"
    );
    assert_eq!(
        vector_db_path("/data/spaces", SAMPLE),
        "/data/spaces/a1a2a3a4-b1b2-c1c2-d1d2-d3d4d5d6d7d8/vector_db"
    );
    assert_eq!(
        vector_db_path("/data/spaces/", 0),
        "/data/spaces/00000000-0000-0000-0000-000000000000/vector_db"
    );
}

#[test]
fn numbers_are_written_in_decimal() {
    assert_eq!(u64_text(0), "0");
    assert_eq!(u64_text(7), "7");
    assert_eq!(u64_text(10), "10");
    assert_eq!(u64_text(512), "512");
    assert_eq!(u64_text(1_234_567_890), "1234567890");
    assert_eq!(u64_text(u64::MAX), "18446744073709551615");
    for n in [0u64, 9, 99, 100, 101, 65_535, 4_294_967_296, u64::MAX - 1] {
        assert_eq!(u64_text(n), n.to_string());
    }
}
