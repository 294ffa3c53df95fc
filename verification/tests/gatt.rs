use blehr::access::{handle_read, AttError, DeviceInfoConfig, ATT_ERROR_CODE_UNSUPPORTED};
use blehr::catalog::{
    build_catalog, register, Catalog, Characteristic, ConfigError, RegisteredCharacteristic,
    Service, BODY_SENSOR_LOCATION_UUID, DEVICE_INFO_SERVICE_UUID, HEART_RATE_MEASUREMENT_UUID,
    HEART_RATE_SERVICE_UUID, MANUFACTURER_NAME_UUID, MODEL_NUMBER_UUID,
};

fn standard_config() -> DeviceInfoConfig {
    DeviceInfoConfig::new(
        b"Apache Mynewt ESP32 devkitC".to_vec(),
        b"Mynewt HR Sensor demo".to_vec(),
    )
    .unwrap()
}

#[test]
fn catalog_layout() {
    let c = build_catalog();
    assert_eq!(c.services.len(), 2);
    assert_eq!(c.services[0].uuid, HEART_RATE_SERVICE_UUID);
    assert!(c.services[0].primary);
    assert_eq!(
        c.services[0].characteristics,
        vec![
            Characteristic { uuid: HEART_RATE_MEASUREMENT_UUID, readable: false, notifiable: true },
            Characteristic { uuid: BODY_SENSOR_LOCATION_UUID, readable: true, notifiable: false },
        ]
    );
    assert_eq!(c.services[1].uuid, DEVICE_INFO_SERVICE_UUID);
    assert!(c.services[1].primary);
    assert_eq!(
        c.services[1].characteristics,
        vec![
            Characteristic { uuid: MANUFACTURER_NAME_UUID, readable: true, notifiable: false },
            Characteristic { uuid: MODEL_NUMBER_UUID, readable: true, notifiable: false },
        ]
    );
}

#[test]
fn registration_assigns_handles() {
    let c = build_catalog();
    let reg = register(&c).unwrap();
    // Handle numbering starts at 1: the heart-rate service declaration takes
    // handle 1, each characteristic a declaration and a value handle.
    assert_eq!(
        reg.characteristics,
        vec![
            RegisteredCharacteristic {
                service_uuid: HEART_RATE_SERVICE_UUID,
                characteristic_uuid: HEART_RATE_MEASUREMENT_UUID,
                value_handle: 3,
            },
            RegisteredCharacteristic {
                service_uuid: HEART_RATE_SERVICE_UUID,
                characteristic_uuid: BODY_SENSOR_LOCATION_UUID,
                value_handle: 5,
            },
            RegisteredCharacteristic {
                service_uuid: DEVICE_INFO_SERVICE_UUID,
                characteristic_uuid: MANUFACTURER_NAME_UUID,
                value_handle: 8,
            },
            RegisteredCharacteristic {
                service_uuid: DEVICE_INFO_SERVICE_UUID,
                characteristic_uuid: MODEL_NUMBER_UUID,
                value_handle: 10,
            },
        ]
    );
    assert_eq!(reg.hr_measurement_handle, 3);
    assert_ne!(reg.hr_measurement_handle, 0);
}

#[test]
fn registration_lookup_maps_uuids_to_handles() {
    let c = build_catalog();
    let reg = register(&c).unwrap();
    assert_eq!(
        reg.value_handle_for(HEART_RATE_SERVICE_UUID, HEART_RATE_MEASUREMENT_UUID),
        Some(3)
    );
    assert_eq!(
        reg.value_handle_for(HEART_RATE_SERVICE_UUID, BODY_SENSOR_LOCATION_UUID),
        Some(5)
    );
    assert_eq!(
        reg.value_handle_for(DEVICE_INFO_SERVICE_UUID, MANUFACTURER_NAME_UUID),
        Some(8)
    );
    assert_eq!(reg.value_handle_for(DEVICE_INFO_SERVICE_UUID, MODEL_NUMBER_UUID), Some(10));
    assert_eq!(reg.value_handle_for(HEART_RATE_SERVICE_UUID, MODEL_NUMBER_UUID), None);
    assert_eq!(reg.value_handle_for(0x9999, HEART_RATE_MEASUREMENT_UUID), None);
}

#[test]
fn registration_fails_when_handle_space_exhausted() {
    // One service with 32768 characteristics needs 1 + 2 * 32768 = 65537
    // attribute handles: one more than the 16-bit handle space offers.
    let mut characteristics = Vec::new();
    for uuid in 0..32768u16 {
        characteristics.push(Characteristic { uuid, readable: true, notifiable: false });
    }
    let c = Catalog {
        services: vec![Service { uuid: 0x1234, primary: true, characteristics }],
    };
    assert_eq!(register(&c), Err(ConfigError::HandleSpaceExhausted));
}

#[test]
fn body_sensor_location_reads_chest() {
    let cfg = standard_config();
    // The read returns exactly one byte, 0x01 ("Chest"), regardless of what
    // was read before.
    let first = handle_read(&cfg, HEART_RATE_SERVICE_UUID, BODY_SENSOR_LOCATION_UUID).unwrap();
    assert_eq!(first, vec![0x01]);
    let _ = handle_read(&cfg, DEVICE_INFO_SERVICE_UUID, MODEL_NUMBER_UUID).unwrap();
    let _ = handle_read(&cfg, 0x1801, 0x2A05);
    let again = handle_read(&cfg, HEART_RATE_SERVICE_UUID, BODY_SENSOR_LOCATION_UUID).unwrap();
    assert_eq!(again, vec![0x01]);
    assert_eq!(again.len(), 1);
}

#[test]
fn device_info_reads_exact_strings() {
    let cfg = standard_config();
    let manuf = handle_read(&cfg, DEVICE_INFO_SERVICE_UUID, MANUFACTURER_NAME_UUID).unwrap();
    assert_eq!(manuf, b"Apache Mynewt ESP32 devkitC".to_vec());
    assert_eq!(manuf.len(), "Apache Mynewt ESP32 devkitC".len());
    let model = handle_read(&cfg, DEVICE_INFO_SERVICE_UUID, MODEL_NUMBER_UUID).unwrap();
    assert_eq!(model, b"Mynewt HR Sensor demo".to_vec());
    assert_eq!(model.len(), "Mynewt HR Sensor demo".len());
}

#[test]
fn unsupported_reads_fail() {
    let cfg = standard_config();
    // The heart-rate measurement characteristic is notify-only.
    let r = handle_read(&cfg, HEART_RATE_SERVICE_UUID, HEART_RATE_MEASUREMENT_UUID);
    assert_eq!(r, Err(AttError::UnsupportedAttribute));
    // A characteristic addressed to the wrong service's handler fails.
    assert!(handle_read(&cfg, HEART_RATE_SERVICE_UUID, MANUFACTURER_NAME_UUID).is_err());
    assert!(handle_read(&cfg, DEVICE_INFO_SERVICE_UUID, BODY_SENSOR_LOCATION_UUID).is_err());
    // An unknown service fails.
    assert!(handle_read(&cfg, 0x1801, BODY_SENSOR_LOCATION_UUID).is_err());
    assert_eq!(AttError::UnsupportedAttribute.code(), ATT_ERROR_CODE_UNSUPPORTED);
    assert_eq!(ATT_ERROR_CODE_UNSUPPORTED, 0x0E);
}

#[test]
fn embedded_nul_rejected() {
    let r = DeviceInfoConfig::new(b"bad\0name".to_vec(), b"model".to_vec());
    assert_eq!(r, Err(ConfigError::EmbeddedNul));
    let r = DeviceInfoConfig::new(b"maker".to_vec(), b"\0".to_vec());
    assert_eq!(r, Err(ConfigError::EmbeddedNul));
    assert!(DeviceInfoConfig::new(b"maker".to_vec(), b"model".to_vec()).is_ok());
}
