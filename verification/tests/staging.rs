use j4i2prs::base64::encode;
use j4i2prs::error::StageError;
use j4i2prs::staging::{make_token, staged_name, StagingArea};

#[test]
fn token_shape() {
    let t = make_token();
    assert_eq!(t.len(), 32);
    assert!(t.chars().all(|c| c.is_ascii_hexdigit() && !c.is_ascii_uppercase()));
}

#[test]
fn staged_name_shape() {
    assert_eq!(staged_name("abc"), "sk.abc.dat");
    let t = make_token();
    let n = staged_name(&t);
    assert_eq!(n, format!("sk.{}.dat", t));
}

#[test]
fn many_stagings_never_collide() {
    // Simulates fifty tunnels staging secrets at once: every staged
    // name must be distinct.
    let mut area = StagingArea::new();
    let secret = encode(&[9u8, 8, 7, 6]);
    let mut names: Vec<String> = Vec::new();
    for _ in 0..50 {
        names.push(area.stage(&secret).unwrap());
    }
    assert_eq!(area.len(), 50);
    for (i, a) in names.iter().enumerate() {
        for b in names.iter().skip(i + 1) {
            assert_ne!(a, b);
        }
    }
}

#[test]
fn stage_and_read_back_round_trip() {
    // Base64-decode, write, read: the bytes that come back are exactly
    // the raw bytes that were encoded.
    let raw: Vec<u8> = (0u8..=255).collect();
    let secret = encode(&raw);
    let mut area = StagingArea::new();
    let name = area.stage(&secret).unwrap();
    assert!(name.starts_with("sk."));
    assert!(name.ends_with(".dat"));
    assert_eq!(area.read_back(&name).unwrap(), raw);
}

#[test]
fn stage_rejects_invalid_secret() {
    let mut area = StagingArea::new();
    assert_eq!(area.stage("not base64!").unwrap_err(), StageError::DecodeFailed);
    assert_eq!(area.len(), 0);
}

#[test]
fn release_removes_the_staged_file() {
    let mut area = StagingArea::new();
    let name = area.stage(&encode(&[1u8, 2, 3])).unwrap();
    assert!(area.read_back(&name).is_some());
    area.release(&name);
    assert!(area.read_back(&name).is_none());
    assert_eq!(area.len(), 0);
}

#[test]
fn release_keeps_other_secrets() {
    let mut area = StagingArea::new();
    let first = area.stage(&encode(&[1u8])).unwrap();
    let second = area.stage(&encode(&[2u8])).unwrap();
    area.release(&first);
    assert!(area.read_back(&first).is_none());
    assert_eq!(area.read_back(&second).unwrap(), vec![2u8]);
    assert_eq!(area.len(), 1);
}

#[test]
fn staging_an_empty_secret_stores_empty_bytes() {
    let mut area = StagingArea::new();
    let name = area.stage("").unwrap();
    assert_eq!(area.read_back(&name).unwrap(), Vec::<u8>::new());
}

#[test]
fn release_of_unknown_name_is_harmless() {
    let mut area = StagingArea::new();
    let name = area.stage(&encode(&[5u8])).unwrap();
    area.release(&String::from("sk.absent.dat"));
    assert_eq!(area.read_back(&name).unwrap(), vec![5u8]);
}
