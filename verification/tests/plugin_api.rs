use lovely_injector_nx::plugin_api::{
    check_api_version, lookup_result, registration_outcome, symbol_buffer, ApiError, API_VERSION,
    SYMBOL_API_VERSION, SYMBOL_BUFFER_LEN, SYMBOL_ON_READY,
};

#[test]
fn symbol_names() {
    assert_eq!(SYMBOL_API_VERSION, "lovely_nx_api_version");
    assert_eq!(SYMBOL_ON_READY, "lovely_nx_on_ready");
    assert_eq!(API_VERSION, 1);
}

#[test]
fn symbol_buffer_is_nul_padded() {
    let b = symbol_buffer("lovely_nx_on_ready").unwrap();
    assert_eq!(b.len(), SYMBOL_BUFFER_LEN);
    assert_eq!(&b[..18], b"lovely_nx_on_ready");
    assert!(b[18..].iter().all(|&c| c == 0));
    let e = symbol_buffer("").unwrap();
    assert!(e.iter().all(|&c| c == 0));
}

#[test]
fn symbol_buffer_refuses_long_names() {
    let name63 = "a".repeat(63);
    let b = symbol_buffer(&name63).unwrap();
    assert_eq!(b[62], b'a');
    assert_eq!(b[63], 0);
    assert_eq!(symbol_buffer(&"a".repeat(64)), None);
    assert_eq!(symbol_buffer(&"a".repeat(100)), None);
}

#[test]
fn lookup_needs_success_and_address() {
    assert_eq!(lookup_result(0, 0x1234), Some(0x1234));
    assert_eq!(lookup_result(0, 0), None);
    assert_eq!(lookup_result(1, 0x1234), None);
}

#[test]
fn version_is_checked() {
    assert_eq!(check_api_version(None), Err(ApiError::NotLoaded));
    assert_eq!(check_api_version(Some(2)), Err(ApiError::VersionMismatch));
    assert_eq!(check_api_version(Some(1)), Ok(()));
}

#[test]
fn registration_outcomes() {
    assert_eq!(registration_outcome(None, true), Err(ApiError::NotExported));
    assert_eq!(registration_outcome(Some(8), false), Err(ApiError::Refused));
    assert_eq!(registration_outcome(Some(8), true), Ok(()));
}

#[test]
fn error_messages() {
    assert_eq!(ApiError::NotLoaded.message(), "lovely-injector-nx plugin is not loaded");
    assert_eq!(ApiError::VersionMismatch.message(), "lovely-injector-nx API version mismatch");
    assert_eq!(ApiError::NotExported.message(), "lovely_nx_on_ready not exported");
    assert_eq!(ApiError::Refused.message(), "lovely-injector-nx refused the callback ?");
}
