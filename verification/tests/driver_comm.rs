use drriga_agent::driver_comm::{
    ctl_code, driver_flag_set, DriverComm, IOCTL_PROTECT_PROCESS, IOCTL_QUERY_INTEGRITY,
};

const KEY: [u8; 32] = [
    0, 1, 2, 3, 4, 5, 6, 7, 8, 9, 10, 11, 12, 13, 14, 15, 16, 17, 18, 19, 20, 21, 22, 23, 24, 25,
    26, 27, 28, 29, 30, 31,
];

const EXPECTED_TAG: [u8; 32] = [
    154, 126, 16, 130, 26, 36, 97, 135, 29, 164, 167, 109, 73, 36, 238, 213, 232, 29, 53, 95, 114,
    244, 130, 129, 107, 235, 125, 125, 79, 210, 232, 39,
];

#[test]
fn ioctl_codes_follow_ctl_code() {
    assert_eq!(ctl_code(0x8000, 0x800, 0, 0), IOCTL_PROTECT_PROCESS);
    assert_eq!(ctl_code(0x8000, 0x801, 0, 0), IOCTL_QUERY_INTEGRITY);
    assert_eq!(IOCTL_PROTECT_PROCESS, 0x8000_2000);
    assert_eq!(ctl_code(0x22, 0x1, 2, 3), (0x22 << 16) | (3 << 14) | (1 << 2) | 2);
}

#[test]
fn protect_request_is_signed_with_hmac_sha256() {
    let comm = DriverComm::new(KEY);
    let req = comm.sign_protect_request(1234, [0xAA; 16]);
    assert_eq!(req.pid, 1234);
    assert_eq!(req.nonce, [0xAA; 16]);
    assert_eq!(req.hmac, EXPECTED_TAG);
}

#[test]
fn protect_request_layout() {
    let comm = DriverComm::new(KEY);
    let bytes = comm.sign_protect_request(1234, [0xAA; 16]).to_bytes();
    assert_eq!(bytes.len(), 52);
    assert_eq!(&bytes[..4], &1234u32.to_le_bytes());
    assert_eq!(&bytes[4..20], &[0xAA; 16]);
    assert_eq!(&bytes[20..], &EXPECTED_TAG);
}

#[test]
fn fresh_requests_use_fresh_nonces() {
    let comm = DriverComm::new(KEY);
    let a = comm.protect_process_request(42);
    let b = comm.protect_process_request(42);
    assert_eq!(a.pid, 42);
    assert_ne!(a.nonce, b.nonce);
    assert_eq!(comm.sign_protect_request(42, a.nonce), a);
}

#[test]
fn driver_answers_yes_only_with_one() {
    assert!(driver_flag_set(1));
    assert!(!driver_flag_set(0));
    assert!(!driver_flag_set(2));
}
