//! The read dispatcher: resolves a read request, addressed by a (service
//! UUID, characteristic UUID) pair, to the payload the characteristic's
//! handler owes, or reports the request unsupported.

use vstd::prelude::*;
use crate::catalog::{
    is_standard_catalog, BODY_SENSOR_LOCATION_CHEST, BODY_SENSOR_LOCATION_UUID, Catalog,
    ConfigError, DEVICE_INFO_SERVICE_UUID, HEART_RATE_SERVICE_UUID, MANUFACTURER_NAME_UUID,
    MODEL_NUMBER_UUID,
};

verus! {

/// ATT error code reported for a read of an unsupported attribute.
pub const ATT_ERROR_CODE_UNSUPPORTED: u8 = 0x0E;

/// Protocol-level failure of a read: the UUID pair addresses no readable
/// characteristic of a registered service.  Reported to the requester via
/// its error code; never fatal.
#[derive(Clone, Copy, PartialEq, Eq, Structural, Debug)]
pub enum AttError {
    UnsupportedAttribute,
}

impl AttError {
    /// The protocol-level error code sent back to the requester.
    pub fn code(&self) -> (r: u8)
        ensures
            r == ATT_ERROR_CODE_UNSUPPORTED,
    {
        match self {
            AttError::UnsupportedAttribute => ATT_ERROR_CODE_UNSUPPORTED,
        }
    }
}

/// No NUL byte anywhere: the configured strings carry their length
/// explicitly and never rely on terminator scanning.
pub open spec fn nul_free(s: Seq<u8>) -> bool {
    forall|k: int| 0 <= k < s.len() ==> s[k] != 0
}

/// The two fixed byte strings the Device Information service serves,
/// supplied at build time.
#[derive(Clone, PartialEq, Eq, Debug)]
pub struct DeviceInfoConfig {
    pub manufacturer_name: Vec<u8>,
    pub model_number: Vec<u8>,
}

/// A device-information configuration is well formed when neither string
/// embeds a NUL.
pub open spec fn device_info_wf(cfg: DeviceInfoConfig) -> bool {
    nul_free(cfg.manufacturer_name@) && nul_free(cfg.model_number@)
}

/// Whether a byte string embeds a NUL.
fn contains_nul(s: &Vec<u8>) -> (r: bool)
    ensures
        r == !nul_free(s@),
{
    let mut k: usize = 0;
    while k < s.len()
        invariant
            k <= s@.len(),
            forall|k2: int| 0 <= k2 < k ==> s@[k2] != 0,
        decreases s@.len() - k,
    {
        if s[k] == 0 {
            return true;
        }
        k = k + 1;
    }
    false
}

impl DeviceInfoConfig {
    /// Accepts the manufacturer-name and model-number strings, rejecting a
    /// string with an embedded NUL.
    pub fn new(manufacturer_name: Vec<u8>, model_number: Vec<u8>) -> (r: Result<
        DeviceInfoConfig,
        ConfigError,
    >)
        ensures
            r is Ok <==> nul_free(manufacturer_name@) && nul_free(model_number@),
            r matches Ok(cfg) ==> {
                &&& cfg.manufacturer_name@ == manufacturer_name@
                &&& cfg.model_number@ == model_number@
                &&& device_info_wf(cfg)
            },
            r matches Err(e) ==> e is EmbeddedNul,
    {
        if contains_nul(&manufacturer_name) || contains_nul(&model_number) {
            Err(ConfigError::EmbeddedNul)
        } else {
            Ok(DeviceInfoConfig { manufacturer_name, model_number })
        }
    }
}

/// The payload a read of the body-sensor-location characteristic yields:
/// always the single byte meaning "Chest".
pub open spec fn body_sensor_location_payload() -> Seq<u8> {
    seq![BODY_SENSOR_LOCATION_CHEST]
}

/// Whether the UUID pair addresses a characteristic this peripheral serves
/// reads for.
pub open spec fn read_supported(service_uuid: u16, characteristic_uuid: u16) -> bool {
    ||| service_uuid == HEART_RATE_SERVICE_UUID && characteristic_uuid
        == BODY_SENSOR_LOCATION_UUID
    ||| service_uuid == DEVICE_INFO_SERVICE_UUID && characteristic_uuid == MANUFACTURER_NAME_UUID
    ||| service_uuid == DEVICE_INFO_SERVICE_UUID && characteristic_uuid == MODEL_NUMBER_UUID
}

/// The dispatcher agrees with the catalog: a read is supported exactly for
/// the UUID pairs that the peripheral's own table marks readable.
pub proof fn lemma_reads_match_catalog(c: Catalog, service_uuid: u16, characteristic_uuid: u16)
    requires
        is_standard_catalog(c),
    ensures
        read_supported(service_uuid, characteristic_uuid) <==> exists|i: int, j: int|
            0 <= i < c.services@.len() && 0 <= j < c.services@[i].characteristics@.len()
                && c.services@[i].uuid == service_uuid
                && (#[trigger] c.services@[i].characteristics@[j]).uuid == characteristic_uuid
                && c.services@[i].characteristics@[j].readable,
{
    if read_supported(service_uuid, characteristic_uuid) {
        if service_uuid == HEART_RATE_SERVICE_UUID {
            assert(c.services@[0].characteristics@[1].uuid == characteristic_uuid
                && c.services@[0].characteristics@[1].readable);
        } else if characteristic_uuid == MANUFACTURER_NAME_UUID {
            assert(c.services@[1].characteristics@[0].uuid == characteristic_uuid
                && c.services@[1].characteristics@[0].readable);
        } else {
            assert(c.services@[1].characteristics@[1].uuid == characteristic_uuid
                && c.services@[1].characteristics@[1].readable);
        }
    }
}

/// Access handler of the Heart Rate service: the body-sensor-location
/// characteristic reads as the single byte "Chest"; any other UUID handed to
/// this handler is a contract violation and fails as unsupported.
pub fn read_heart_rate_service(characteristic_uuid: u16) -> (r: Result<Vec<u8>, AttError>)
    ensures
        characteristic_uuid == BODY_SENSOR_LOCATION_UUID ==> (r matches Ok(p) && p@
            =~= body_sensor_location_payload()),
        characteristic_uuid != BODY_SENSOR_LOCATION_UUID ==> (r matches Err(e) && e
            is UnsupportedAttribute),
{
    if characteristic_uuid == BODY_SENSOR_LOCATION_UUID {
        let mut payload: Vec<u8> = Vec::new();
        payload.push(BODY_SENSOR_LOCATION_CHEST);
        Ok(payload)
    } else {
        Err(AttError::UnsupportedAttribute)
    }
}

/// Access handler of the Device Information service: the manufacturer-name
/// and model-number characteristics read as exactly the configured byte
/// strings; any other UUID fails as unsupported.
pub fn read_device_info_service(cfg: &DeviceInfoConfig, characteristic_uuid: u16) -> (r: Result<
    Vec<u8>,
    AttError,
>)
    ensures
        characteristic_uuid == MANUFACTURER_NAME_UUID ==> (r matches Ok(p) && p@
            == cfg.manufacturer_name@),
        characteristic_uuid == MODEL_NUMBER_UUID ==> (r matches Ok(p) && p@ == cfg.model_number@),
        characteristic_uuid != MANUFACTURER_NAME_UUID && characteristic_uuid != MODEL_NUMBER_UUID
            ==> (r matches Err(e) && e is UnsupportedAttribute),
{
    if characteristic_uuid == MANUFACTURER_NAME_UUID {
        Ok(copy_bytes(&cfg.manufacturer_name))
    } else if characteristic_uuid == MODEL_NUMBER_UUID {
        Ok(copy_bytes(&cfg.model_number))
    } else {
        Err(AttError::UnsupportedAttribute)
    }
}

/// A fresh copy of a byte string, to serialize into a response.
fn copy_bytes(s: &Vec<u8>) -> (r: Vec<u8>)
    ensures
        r@ == s@,
{
    let mut r: Vec<u8> = Vec::new();
    let mut k: usize = 0;
    while k < s.len()
        invariant
            k <= s@.len(),
            r@ =~= s@.subrange(0, k as int),
        decreases s@.len() - k,
    {
        r.push(s[k]);
        k = k + 1;
    }
    assert(r@ =~= s@);
    r
}

/// Resolves a read addressed by (service UUID, characteristic UUID): the
/// service's handler answers, and a pair naming no registered service fails
/// as unsupported.  Succeeds on exactly the three readable characteristics,
/// whatever reads or notifications came before.
pub fn handle_read(cfg: &DeviceInfoConfig, service_uuid: u16, characteristic_uuid: u16) -> (r:
    Result<Vec<u8>, AttError>)
    ensures
        r is Ok <==> read_supported(service_uuid, characteristic_uuid),
        service_uuid == HEART_RATE_SERVICE_UUID && characteristic_uuid
            == BODY_SENSOR_LOCATION_UUID ==> (r matches Ok(p) && p@
            =~= body_sensor_location_payload()),
        service_uuid == DEVICE_INFO_SERVICE_UUID && characteristic_uuid == MANUFACTURER_NAME_UUID
            ==> (r matches Ok(p) && p@ == cfg.manufacturer_name@),
        service_uuid == DEVICE_INFO_SERVICE_UUID && characteristic_uuid == MODEL_NUMBER_UUID ==> (r
            matches Ok(p) && p@ == cfg.model_number@),
        r matches Err(e) ==> e is UnsupportedAttribute,
{
    if service_uuid == HEART_RATE_SERVICE_UUID {
        read_heart_rate_service(characteristic_uuid)
    } else if service_uuid == DEVICE_INFO_SERVICE_UUID {
        read_device_info_service(cfg, characteristic_uuid)
    } else {
        Err(AttError::UnsupportedAttribute)
    }
}

} // verus!
