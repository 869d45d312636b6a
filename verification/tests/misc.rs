//! Tests of the smaller components: certificate documents, the rate
//! limiter, the traffic timestamp, and assorted types.

use arti::acme::{
    build_csr, build_csr_tbs, caa_expiry, check_ca_nonce, OnionCaa, OnionCaaError, OnionCsrError,
};
use arti::hscrypto::RevisionCounter;
use arti::keymgr::{KeystoreId, KeystoreSelector};
use arti::logratelim::{Activity, Loggable};
use arti::netdoc::AllowAnnotations;
use arti::ratelim::{BwLimiter, LimiterConfig, TakeOutcome, TrafficRateLimit};
use arti::traffic::{note_incoming_traffic, time_since_last_incoming_traffic, TrafficTimestamp};

#[test]
fn onion_csr_too_short() {
    let key = [7u8; 32];
    let applicant_nonce = [0u8; 10];
    assert!(matches!(
        build_csr_tbs(&key, &[], &applicant_nonce),
        Err(OnionCsrError::CANonceTooShort)
    ));
}

#[test]
fn onion_csr_too_long() {
    let key = [7u8; 32];
    let applicant_nonce = [0u8; 10];
    let dummy_nonce = [0u8; 256];
    assert!(matches!(
        build_csr_tbs(&key, &dummy_nonce, &applicant_nonce),
        Err(OnionCsrError::CANonceTooLong)
    ));
}

#[test]
fn onion_csr_valid() {
    // The document's length depends only on the nonce length: a
    // 16-byte nonce yields a 180-byte request, a 32-byte one 196.
    let key = [7u8; 32];
    let applicant_nonce = [3u8; 10];
    let signature = [9u8; 64];

    let dummy_nonce = [0u8; 16];
    let tbs = build_csr_tbs(&key, &dummy_nonce, &applicant_nonce).unwrap();
    let generated_csr = build_csr(&tbs, &signature);
    assert_eq!(generated_csr.len(), 180);

    let dummy_nonce = [0u8; 32];
    let tbs = build_csr_tbs(&key, &dummy_nonce, &applicant_nonce).unwrap();
    let generated_csr = build_csr(&tbs, &signature);
    assert_eq!(generated_csr.len(), 196);
}

#[test]
fn csr_structure() {
    let key = [0xaau8; 32];
    let applicant_nonce = [0xbbu8; 10];
    let ca_nonce = [0xccu8; 16];
    let tbs = build_csr_tbs(&key, &ca_nonce, &applicant_nonce).unwrap();
    // The request information is a SEQUENCE beginning with version 0.
    assert_eq!(tbs[0], 0x30);
    assert_eq!(&tbs[2..7], &[0x02, 0x01, 0x00, 0x30, 0x00]);
    // The public key appears inside a 33-byte BIT STRING.
    let key_pos = tbs.windows(32).position(|w| w == key).unwrap();
    assert_eq!(&tbs[key_pos - 3..key_pos], &[0x03, 0x21, 0x00]);
    // The whole request carries the signature as its final BIT STRING.
    let signature = [0xddu8; 64];
    let csr = build_csr(&tbs, &signature);
    assert_eq!(&csr[csr.len() - 64..], &signature);
    assert_eq!(&csr[csr.len() - 67..csr.len() - 64], &[0x03, 0x41, 0x00]);
}

#[test]
fn nonce_bounds() {
    assert!(matches!(check_ca_nonce(&[0u8; 7]), Err(OnionCsrError::CANonceTooShort)));
    assert!(check_ca_nonce(&[0u8; 8]).is_ok());
    assert!(check_ca_nonce(&[0u8; 128]).is_ok());
    assert!(matches!(check_ca_nonce(&[0u8; 129]), Err(OnionCsrError::CANonceTooLong)));
}

#[test]
fn caa_expiry_arithmetic() {
    // A day of lifetime from just past a day, with the jitter anywhere
    // within its bound: the expiry lands in the expected window.
    let time_start = 86401u64;
    let time_expiry = 86400u64;
    for jitter in [0u64, 1, 900] {
        let expiry = caa_expiry(time_start, time_expiry, jitter).unwrap();
        assert!(expiry >= time_start + time_expiry);
        assert!(expiry <= time_start + time_expiry + 900);
    }
    assert_eq!(caa_expiry(10, 20, 30), Ok(60));
    assert!(matches!(
        caa_expiry(u64::MAX, 1, 0),
        Err(OnionCaaError::InvalidSystemTime)
    ));
}

#[test]
fn onion_caa_accessors() {
    let caa = OnionCaa::new(
        String::from("caa 128 issue \"test.example\""),
        123456,
        vec![1, 2, 3],
    );
    assert_eq!(caa.caa(), "caa 128 issue \"test.example\"");
    assert_eq!(caa.expiry(), 123456);
    assert_eq!(caa.signature(), &[1, 2, 3][..]);
}

#[test]
fn token_bucket_grants() {
    let lim = TrafficRateLimit { max_bytes_per_sec: 1000000, max_bytes_burst: 2000 };
    let mut bucket = BwLimiter::new(lim);
    // 576 bytes per cell at a million bytes a second: 576 microseconds.
    assert_eq!(bucket.dur_per_cell, 576000);
    assert_eq!(bucket.cur_level, 0);

    // An empty bucket defers everything.
    assert_eq!(bucket.take_bytes(10), TakeOutcome::Wait);

    // A refill is capped at the burst allowance.
    bucket.put_back(5000);
    assert_eq!(bucket.cur_level, 2000);

    // A request within the level is granted in full.
    assert_eq!(bucket.take_bytes(1500), TakeOutcome::Granted(1500));
    assert_eq!(bucket.cur_level, 500);

    // A larger request is granted one cell's worth if that much is
    // there.
    assert_eq!(bucket.take_bytes(1500), TakeOutcome::Wait);
    bucket.put_back(200);
    assert_eq!(bucket.take_bytes(1500), TakeOutcome::Granted(576));
    assert_eq!(bucket.cur_level, 124);

    // Below a cell's worth, big requests wait.
    assert_eq!(bucket.take_bytes(1500), TakeOutcome::Wait);
    // Small ones still pass.
    assert_eq!(bucket.take_bytes(124), TakeOutcome::Granted(124));
    assert_eq!(bucket.cur_level, 0);
}

#[test]
fn limiter_config_carries_both_directions() {
    let cfg = LimiterConfig {
        upload_limit: TrafficRateLimit { max_bytes_per_sec: 100, max_bytes_burst: 10 },
        download_limit: TrafficRateLimit { max_bytes_per_sec: 200, max_bytes_burst: 20 },
    };
    let up = BwLimiter::new(cfg.upload_limit);
    let down = BwLimiter::new(cfg.download_limit);
    assert_eq!(up.bytes_burst, 10);
    assert_eq!(down.bytes_burst, 20);
}

#[test]
fn traffic_timestamp() {
    let mut ts = TrafficTimestamp::new();
    assert_eq!(time_since_last_incoming_traffic(&ts, 500), None);
    note_incoming_traffic(&mut ts, 100);
    assert_eq!(time_since_last_incoming_traffic(&ts, 500), Some(400));
    note_incoming_traffic(&mut ts, 600);
    assert_eq!(time_since_last_incoming_traffic(&ts, 600), Some(0));
    // A clock running backwards clamps at zero.
    assert_eq!(time_since_last_incoming_traffic(&ts, 599), Some(0));
}

#[test]
fn keystore_types() {
    let id: KeystoreId = "primary".parse().unwrap();
    assert_eq!(id, KeystoreId::new(String::from("primary")));
    let by_id = KeystoreSelector::Id(&id);
    assert_ne!(by_id, KeystoreSelector::Primary);
    assert_eq!(KeystoreSelector::default(), KeystoreSelector::Primary);
}

#[test]
fn revision_counters_order() {
    let low = RevisionCounter::from(3u64);
    let high = RevisionCounter::from(10u64);
    assert!(low < high);
    assert_eq!(u64::from(high), 10);
    assert_eq!(low, RevisionCounter(3));
}

#[test]
fn loggable_flush_reports_activity() {
    struct CountingLog {
        failures: u32,
    }
    impl Loggable for CountingLog {
        fn flush(&mut self, _summarizing_ms: u64) -> Activity {
            if self.failures > 0 {
                self.failures = 0;
                Activity::Active
            } else {
                Activity::Dormant
            }
        }
    }
    let mut log = CountingLog { failures: 2 };
    assert_eq!(log.flush(1000), Activity::Active);
    assert_eq!(log.flush(1000), Activity::Dormant);
}

#[test]
fn annotation_modes_differ() {
    assert_ne!(
        AllowAnnotations::AnnotationsAllowed,
        AllowAnnotations::AnnotationsNotAllowed
    );
}
