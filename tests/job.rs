use duino_fleet::job::{parse_job, JobError};

const DIGEST_HEX: &str = "deadbeef00112233445566778899aabbccddeeff";
const DIGEST: [u8; 20] = [
    0xde, 0xad, 0xbe, 0xef, 0x00, 0x11, 0x22, 0x33, 0x44, 0x55, 0x66, 0x77, 0x88, 0x99, 0xaa,
    0xbb, 0xcc, 0xdd, 0xee, 0xff,
];

fn err_of(line: &[u8]) -> JobError {
    match parse_job(line) {
        Ok(job) => panic!("accepted {:?}", job),
        Err(e) => e,
    }
}

#[test]
fn well_formed_job_line() {
    let line = format!("seedX,{},5\n", DIGEST_HEX);
    let job = parse_job(line.as_bytes()).unwrap();
    assert_eq!(job.seed_hash, "seedX");
    assert_eq!(job.expected_digest, DIGEST);
    assert_eq!(job.difficulty, 5);
}

#[test]
fn job_line_without_newline_and_upper_case() {
    let line = format!("s,{},12", DIGEST_HEX.to_uppercase());
    let job = parse_job(line.as_bytes()).unwrap();
    assert_eq!(job.seed_hash, "s");
    assert_eq!(job.expected_digest, DIGEST);
    assert_eq!(job.difficulty, 12);
}

#[test]
fn empty_seed_is_a_field() {
    let line = format!(",{},0\n", DIGEST_HEX);
    let job = parse_job(line.as_bytes()).unwrap();
    assert_eq!(job.seed_hash, "");
    assert_eq!(job.difficulty, 0);
}

#[test]
fn two_fields_are_a_shape_error() {
    assert_eq!(err_of(b"onlytwo,fields\n"), JobError::FieldCount);
    assert_eq!(err_of(b""), JobError::FieldCount);
    assert_eq!(err_of(b"\n"), JobError::FieldCount);
}

#[test]
fn four_fields_are_a_shape_error() {
    let line = format!("a,{},5,extra\n", DIGEST_HEX);
    assert_eq!(err_of(line.as_bytes()), JobError::FieldCount);
}

#[test]
fn seed_must_be_utf8() {
    let mut line = vec![0xffu8, 0xfe];
    line.extend_from_slice(format!(",{},5\n", DIGEST_HEX).as_bytes());
    assert_eq!(err_of(&line), JobError::SeedNotText);
}

#[test]
fn digest_must_be_hex() {
    assert_eq!(err_of(b"a,zz,5\n"), JobError::DigestNotHex);
    assert_eq!(err_of(b"a,abc,5\n"), JobError::DigestNotHex);
}

#[test]
fn digest_must_be_twenty_bytes() {
    assert_eq!(err_of(b"a,deadbeef,5\n"), JobError::DigestLength);
    let long = format!("a,{}00,5\n", DIGEST_HEX);
    assert_eq!(err_of(long.as_bytes()), JobError::DigestLength);
}

#[test]
fn difficulty_must_be_a_number() {
    let line = format!("a,{},five\n", DIGEST_HEX);
    assert_eq!(err_of(line.as_bytes()), JobError::DifficultyNotNumber);
    let line = format!("a,{},\n", DIGEST_HEX);
    assert_eq!(err_of(line.as_bytes()), JobError::DifficultyNotNumber);
    let line = format!("a,{},99999999999999999999\n", DIGEST_HEX);
    assert_eq!(err_of(line.as_bytes()), JobError::DifficultyNotNumber);
}

#[test]
fn difficulty_must_bound_a_countable_space() {
    let line = format!("a,{},{}\n", DIGEST_HEX, (u64::MAX - 1) / 100 + 1);
    assert_eq!(err_of(line.as_bytes()), JobError::DifficultyTooLarge);
    let line = format!("a,{},{}\n", DIGEST_HEX, (u64::MAX - 1) / 100);
    assert!(parse_job(line.as_bytes()).is_ok());
}
