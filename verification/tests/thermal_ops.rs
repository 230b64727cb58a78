//! Thermal-settings query discipline and the thermal enums.

use nvapi::enums::{ThermalController, ThermalTarget};
use nvapi::status::{Status, RAW_NOT_SUPPORTED, RAW_OK};
use nvapi::thermal::{get_thermal_settings, thermal_settings_request};
use nvapi::version::{version_tag, StructKind, NVAPI_MAX_THERMAL_SENSORS_PER_GPU};

#[test]
fn thermal_request_is_tagged_and_empty() {
    let settings = thermal_settings_request();
    assert_eq!(settings.version, version_tag(StructKind::ThermalSettingsV2));
    assert_eq!(settings.count, 0);
    assert_eq!(settings.sensor.len(), NVAPI_MAX_THERMAL_SENSORS_PER_GPU);
}

#[test]
fn thermal_reply_is_clamped_to_the_sensor_capacity() {
    let mut settings = thermal_settings_request();
    settings.count = 1;
    settings.sensor[0].currentTemp = 55;
    settings.sensor[0].target = ThermalTarget::Gpu.raw();
    settings.sensor[0].controller = ThermalController::GpuInternal.raw();
    let got = get_thermal_settings(RAW_OK, settings).unwrap();
    assert_eq!(got.count, 1);
    assert_eq!(got.sensor[0].currentTemp, 55);

    let mut overfull = thermal_settings_request();
    overfull.count = 99;
    let got = get_thermal_settings(RAW_OK, overfull).unwrap();
    assert_eq!(got.count as usize, NVAPI_MAX_THERMAL_SENSORS_PER_GPU);

    assert_eq!(
        get_thermal_settings(RAW_NOT_SUPPORTED, thermal_settings_request()),
        Err(Status::NotSupported)
    );
}

#[test]
fn thermal_enums_round_trip_and_keep_driver_values() {
    assert_eq!(ThermalTarget::Gpu.raw(), 1);
    assert_eq!(ThermalTarget::PowerSupply.raw(), 4);
    assert_eq!(ThermalTarget::Board.raw(), 8);
    assert_eq!(ThermalTarget::AllTargets.raw(), 15);
    assert_eq!(ThermalTarget::UnknownTarget.raw(), -1);
    assert_eq!(ThermalTarget::from_raw(8), Ok(ThermalTarget::Board));
    // A value the library does not know is reported, never a panic.
    assert!(ThermalTarget::from_raw(12).is_err());
    assert_eq!(
        ThermalController::from_raw(2),
        Ok(ThermalController::ADM1032)
    );
    assert!(ThermalController::from_raw(77).is_err());
}
