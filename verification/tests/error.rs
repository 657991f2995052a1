use esp_ota::error::{
    ESP_ERR_INVALID_SIZE, ESP_ERR_INVALID_STATE, ESP_ERR_NOT_FOUND, ESP_ERR_NOT_SUPPORTED,
    ESP_FAIL, ESP_OK,
};
use esp_ota::OtaError;

#[test]
fn status_codes_have_their_native_values() {
    assert_eq!(ESP_OK, 0);
    assert_eq!(ESP_FAIL, -1);
    assert_eq!(ESP_ERR_INVALID_STATE, 259);
    assert_eq!(ESP_ERR_INVALID_SIZE, 260);
    assert_eq!(ESP_ERR_NOT_FOUND, 261);
    assert_eq!(ESP_ERR_NOT_SUPPORTED, 262);
}

#[test]
fn every_error_has_its_status_code() {
    assert_eq!(OtaError::AlreadyHeld.code(), ESP_ERR_INVALID_STATE);
    assert_eq!(OtaError::NotOpen.code(), ESP_FAIL);
    assert_eq!(OtaError::InvalidSize.code(), ESP_ERR_INVALID_SIZE);
    assert_eq!(OtaError::NotSupported.code(), ESP_ERR_NOT_SUPPORTED);
    assert_eq!(OtaError::NativeFailure(5379).code(), 5379);
    assert_eq!(OtaError::NativeFailure(-1).code(), -1);
}

#[test]
fn check_passes_success_only() {
    assert_eq!(OtaError::check(ESP_OK), Ok(()));
    assert_eq!(OtaError::check(ESP_FAIL), Err(OtaError::NativeFailure(ESP_FAIL)));
    assert_eq!(OtaError::check(1), Err(OtaError::NativeFailure(1)));
    assert_eq!(
        OtaError::check(ESP_ERR_NOT_FOUND),
        Err(OtaError::NativeFailure(ESP_ERR_NOT_FOUND))
    );
    assert_eq!(OtaError::check(i32::MIN), Err(OtaError::NativeFailure(i32::MIN)));
}
