//! The advertising manager's data: the fields broadcast in one advertising
//! cycle and the fixed parameters under which advertising starts.  The shell
//! hands both to the stack whenever the state machine asks for advertising.

use vstd::prelude::*;

verus! {

/// Advertising flag: general discoverable mode.
pub const ADV_FLAG_GENERAL_DISCOVERABLE: u8 = 0x02;

/// Advertising flag: classic Bluetooth (BR/EDR) unsupported, BLE only.
pub const ADV_FLAG_BREDR_UNSUPPORTED: u8 = 0x04;

/// The one device name, advertised as the complete local name and set as the
/// GAP device name.
pub fn device_name() -> (r: String)
    ensures
        r@ == "blehr_sensor_1.0"@,
{
    String::from_str("blehr_sensor_1.0")
}

/// What one advertising cycle broadcasts: the discoverability flags, a
/// transmit-power level the stack fills in automatically, and the complete
/// device name.
pub struct AdvFields {
    pub flags: u8,
    pub tx_power_auto: bool,
    pub name: String,
    pub name_complete: bool,
}

/// The parameters advertising starts under: undirected connectable, general
/// discoverable, no whitelist filtering, no time limit.
#[derive(Clone, Copy, PartialEq, Eq, Structural, Debug)]
pub struct AdvParams {
    pub undirected_connectable: bool,
    pub general_discoverable: bool,
    pub use_whitelist: bool,
    pub duration_ms: Option<u32>,
}

/// Builds the advertisement fields of one cycle: general discoverable and
/// BLE-only, automatic transmit-power reporting, and the complete device
/// name.
pub fn build_adv_fields() -> (f: AdvFields)
    ensures
        f.flags == (ADV_FLAG_GENERAL_DISCOVERABLE | ADV_FLAG_BREDR_UNSUPPORTED),
        f.tx_power_auto,
        f.name@ == "blehr_sensor_1.0"@,
        f.name_complete,
{
    AdvFields {
        flags: ADV_FLAG_GENERAL_DISCOVERABLE | ADV_FLAG_BREDR_UNSUPPORTED,
        tx_power_auto: true,
        name: device_name(),
        name_complete: true,
    }
}

/// The fixed parameters every advertising cycle starts under: undirected
/// connectable, general discoverable, no whitelist, advertising until a
/// state transition cancels it.
pub fn adv_params() -> (p: AdvParams)
    ensures
        p.undirected_connectable,
        p.general_discoverable,
        !p.use_whitelist,
        p.duration_ms is None,
{
    AdvParams {
        undirected_connectable: true,
        general_discoverable: true,
        use_whitelist: false,
        duration_ms: None,
    }
}

} // verus!
