//! GPU thermal-sensor structs and their query discipline.
//!
//! The thermal-settings query follows the same versioned-struct rules as
//! everything else: the request carries the packed tag of the variant
//! being sent, the driver fills the sensor array and writes how many
//! entries are meaningful, and the reply is clamped to the fixed sensor
//! capacity so nothing is read past it.

#![allow(non_camel_case_types)]
#![allow(non_snake_case)]

use vstd::prelude::*;

use crate::status::{spec_translate, status_result, Status, RAW_OK};
use crate::version::{spec_tag, version_tag, StructKind, NVAPI_MAX_THERMAL_SENSORS_PER_GPU};

verus! {

/// Sensor index argument asking for every sensor at once.
pub const NVAPI_THERMAL_TARGET_ALL_SENSORS: u32 = 15;

/// One thermal sensor: its controller chip, its default temperature range
/// and current reading in degrees Celsius, and what it measures.
#[derive(Clone, Copy, Debug, PartialEq, Eq, Structural)]
#[allow(non_snake_case)]
pub struct NV_GPU_THERMAL_SETTINGS_SENSOR {
    /// Raw [`crate::enums::ThermalController`] value.
    pub controller: i32,
    pub defaultMinTemp: i32,
    pub defaultMaxTemp: i32,
    pub currentTemp: i32,
    /// Raw [`crate::enums::ThermalTarget`] value.
    pub target: i32,
}

impl NV_GPU_THERMAL_SETTINGS_SENSOR {
    /// The all-zero value.
    pub open spec fn spec_zeroed() -> Self {
        NV_GPU_THERMAL_SETTINGS_SENSOR {
            controller: 0,
            defaultMinTemp: 0,
            defaultMaxTemp: 0,
            currentTemp: 0,
            target: 0,
        }
    }

    /// Returns the all-zero value.
    pub fn zeroed() -> (r: Self)
        ensures
            r == Self::spec_zeroed(),
    {
        NV_GPU_THERMAL_SETTINGS_SENSOR {
            controller: 0,
            defaultMinTemp: 0,
            defaultMaxTemp: 0,
            currentTemp: 0,
            target: 0,
        }
    }
}

/// The thermal settings of one GPU: how many of the fixed sensor slots
/// are in use, and the sensors themselves.
#[derive(Clone, Debug, PartialEq)]
pub struct NV_GPU_THERMAL_SETTINGS {
    pub version: u32,
    pub count: u32,
    /// The fixed-capacity sensor array; only the first `count` entries
    /// are meaningful.
    pub sensor: Vec<NV_GPU_THERMAL_SETTINGS_SENSOR>,
}

impl NV_GPU_THERMAL_SETTINGS {
    /// The sensor array holds exactly its C capacity and the count stays
    /// within it.
    pub open spec fn wf(&self) -> bool {
        &&& self.sensor@.len() == NVAPI_MAX_THERMAL_SENSORS_PER_GPU
        &&& self.count <= NVAPI_MAX_THERMAL_SENSORS_PER_GPU
    }

    /// Returns the all-zero value.
    pub fn zeroed() -> (r: Self)
        ensures
            r.wf(),
            r.version == 0,
            r.count == 0,
            forall|i: int| 0 <= i < r.sensor@.len() ==> r.sensor@[i]
                == NV_GPU_THERMAL_SETTINGS_SENSOR::spec_zeroed(),
    {
        let mut sensor: Vec<NV_GPU_THERMAL_SETTINGS_SENSOR> = Vec::new();
        let mut i: usize = 0;
        while i < NVAPI_MAX_THERMAL_SENSORS_PER_GPU
            invariant
                i <= NVAPI_MAX_THERMAL_SENSORS_PER_GPU,
                sensor@.len() == i,
                forall|j: int| 0 <= j < i ==> sensor@[j]
                    == NV_GPU_THERMAL_SETTINGS_SENSOR::spec_zeroed(),
            decreases NVAPI_MAX_THERMAL_SENSORS_PER_GPU - i,
        {
            sensor.push(NV_GPU_THERMAL_SETTINGS_SENSOR::zeroed());
            i = i + 1;
        }
        NV_GPU_THERMAL_SETTINGS { version: 0, count: 0, sensor }
    }
}

/// A thermal-settings struct with its count clamped to the sensor
/// capacity.
pub open spec fn spec_clamped_thermal(settings: NV_GPU_THERMAL_SETTINGS)
    -> NV_GPU_THERMAL_SETTINGS {
    NV_GPU_THERMAL_SETTINGS {
        count: if settings.count <= NVAPI_MAX_THERMAL_SENSORS_PER_GPU as u32 {
            settings.count
        } else {
            NVAPI_MAX_THERMAL_SENSORS_PER_GPU as u32
        },
        ..settings
    }
}

/// Builds the thermal-settings request: zeroed, tagged with the V2
/// thermal version (same layout as V1; the driver goes by the tag).
pub fn thermal_settings_request() -> (settings: NV_GPU_THERMAL_SETTINGS)
    ensures
        settings.wf(),
        settings.version == spec_tag(StructKind::ThermalSettingsV2),
        settings.count == 0,
        forall|i: int| 0 <= i < settings.sensor@.len() ==> settings.sensor@[i]
            == NV_GPU_THERMAL_SETTINGS_SENSOR::spec_zeroed(),
{
    let mut settings = NV_GPU_THERMAL_SETTINGS::zeroed();
    settings.version = version_tag(StructKind::ThermalSettingsV2);
    settings
}

/// Interprets the thermal-settings reply: on success, the filled struct
/// with its sensor count clamped to the array capacity.
pub fn get_thermal_settings(status: i32, settings: NV_GPU_THERMAL_SETTINGS) -> (r: Result<
    NV_GPU_THERMAL_SETTINGS, Status>)
    ensures
        status != RAW_OK ==> r == Err::<NV_GPU_THERMAL_SETTINGS, Status>(spec_translate(status)),
        status == RAW_OK ==> (r matches Ok(out) && out == spec_clamped_thermal(settings)),
{
    match status_result(status) {
        Ok(()) => {
            let mut out = settings;
            if out.count > NVAPI_MAX_THERMAL_SENSORS_PER_GPU as u32 {
                out.count = NVAPI_MAX_THERMAL_SENSORS_PER_GPU as u32;
            }
            Ok(out)
        },
        Err(e) => Err(e),
    }
}

} // verus!
