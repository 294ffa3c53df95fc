//! The GATT catalog: the fixed table of services and characteristics this
//! peripheral exposes, and the registration step that assigns each
//! characteristic its attribute value handle.

use vstd::prelude::*;

verus! {

/// Bluetooth SIG-assigned 16-bit UUID of the Heart Rate service.
pub const HEART_RATE_SERVICE_UUID: u16 = 0x180D;
/// UUID of the heart-rate measurement characteristic (notify only).
pub const HEART_RATE_MEASUREMENT_UUID: u16 = 0x2A37;
/// UUID of the body-sensor-location characteristic (read only).
pub const BODY_SENSOR_LOCATION_UUID: u16 = 0x2A38;
/// UUID of the Device Information service.
pub const DEVICE_INFO_SERVICE_UUID: u16 = 0x180A;
/// UUID of the manufacturer-name characteristic (read only).
pub const MANUFACTURER_NAME_UUID: u16 = 0x2A29;
/// UUID of the model-number characteristic (read only).
pub const MODEL_NUMBER_UUID: u16 = 0x2A24;

/// Body-sensor-location code meaning "Chest".
pub const BODY_SENSOR_LOCATION_CHEST: u8 = 0x01;

/// A characteristic of a service: its UUID and the operations a client may
/// use on it.
#[derive(Clone, Copy, PartialEq, Eq, Structural, Debug)]
pub struct Characteristic {
    pub uuid: u16,
    pub readable: bool,
    pub notifiable: bool,
}

/// A GATT service: its UUID, whether it is a primary service, and its
/// ordered characteristics.  Immutable once registered.
#[derive(Clone, Debug)]
pub struct Service {
    pub uuid: u16,
    pub primary: bool,
    pub characteristics: Vec<Characteristic>,
}

/// The full table of services the peripheral registers with the stack.
#[derive(Clone, Debug)]
pub struct Catalog {
    pub services: Vec<Service>,
}

/// A service is well formed when no two of its characteristics share a UUID.
pub open spec fn service_wf(s: Service) -> bool {
    forall|j1: int, j2: int|
        0 <= j1 < j2 < s.characteristics@.len()
            ==> s.characteristics@[j1].uuid != s.characteristics@[j2].uuid
}

/// A catalog is well formed when its service UUIDs are pairwise distinct and
/// every service is well formed; UUIDs then map to at most one handle.
pub open spec fn catalog_wf(c: Catalog) -> bool {
    &&& forall|i1: int, i2: int|
        0 <= i1 < i2 < c.services@.len() ==> c.services@[i1].uuid != c.services@[i2].uuid
    &&& forall|i: int| 0 <= i < c.services@.len() ==> service_wf(c.services@[i])
}

/// The fixed table this peripheral serves: the Heart Rate service with the
/// measurement (notify) and body-sensor-location (read) characteristics, and
/// the Device Information service with the manufacturer-name and
/// model-number characteristics (both read).
pub open spec fn is_standard_catalog(c: Catalog) -> bool {
    &&& c.services@.len() == 2
    &&& c.services@[0].uuid == HEART_RATE_SERVICE_UUID
    &&& c.services@[0].primary
    &&& c.services@[0].characteristics@ =~= seq![
        (Characteristic { uuid: HEART_RATE_MEASUREMENT_UUID, readable: false, notifiable: true }),
        (Characteristic { uuid: BODY_SENSOR_LOCATION_UUID, readable: true, notifiable: false }),
    ]
    &&& c.services@[1].uuid == DEVICE_INFO_SERVICE_UUID
    &&& c.services@[1].primary
    &&& c.services@[1].characteristics@ =~= seq![
        (Characteristic { uuid: MANUFACTURER_NAME_UUID, readable: true, notifiable: false }),
        (Characteristic { uuid: MODEL_NUMBER_UUID, readable: true, notifiable: false }),
    ]
}

/// Builds the fixed catalog of this peripheral.
pub fn build_catalog() -> (c: Catalog)
    ensures
        is_standard_catalog(c),
        catalog_wf(c),
{
    let mut heart_rate_chars: Vec<Characteristic> = Vec::new();
    heart_rate_chars.push(Characteristic {
        uuid: HEART_RATE_MEASUREMENT_UUID,
        readable: false,
        notifiable: true,
    });
    heart_rate_chars.push(Characteristic {
        uuid: BODY_SENSOR_LOCATION_UUID,
        readable: true,
        notifiable: false,
    });
    let mut device_info_chars: Vec<Characteristic> = Vec::new();
    device_info_chars.push(Characteristic {
        uuid: MANUFACTURER_NAME_UUID,
        readable: true,
        notifiable: false,
    });
    device_info_chars.push(Characteristic {
        uuid: MODEL_NUMBER_UUID,
        readable: true,
        notifiable: false,
    });
    let mut services: Vec<Service> = Vec::new();
    services.push(Service {
        uuid: HEART_RATE_SERVICE_UUID,
        primary: true,
        characteristics: heart_rate_chars,
    });
    services.push(Service {
        uuid: DEVICE_INFO_SERVICE_UUID,
        primary: true,
        characteristics: device_info_chars,
    });
    Catalog { services }
}

/// A configuration-time failure: the catalog needs more attribute handles
/// than the 16-bit handle space offers, or a configured byte string embeds a
/// NUL.  Configuration errors are fatal to the device; the caller decides
/// how to abort.
#[derive(Clone, Copy, PartialEq, Eq, Structural, Debug)]
pub enum ConfigError {
    HandleSpaceExhausted,
    EmbeddedNul,
}

/// One characteristic as registered: the UUID pair that addresses it and the
/// value handle assigned to it.
#[derive(Clone, Copy, PartialEq, Eq, Structural, Debug)]
pub struct RegisteredCharacteristic {
    pub service_uuid: u16,
    pub characteristic_uuid: u16,
    pub value_handle: u16,
}

/// The outcome of registering a catalog: every characteristic with its
/// assigned value handle, in catalog order, and the captured value handle of
/// the heart-rate measurement characteristic.  A handle of 0 means "absent"
/// and is never a valid handle.
#[derive(Clone, PartialEq, Eq, Debug)]
pub struct Registration {
    pub characteristics: Vec<RegisteredCharacteristic>,
    pub hr_measurement_handle: u16,
}

/// The value handle of the first registered characteristic matching the UUID
/// pair; None when the pair was not registered.
pub open spec fn find_value_handle(
    entries: Seq<RegisteredCharacteristic>,
    service_uuid: u16,
    characteristic_uuid: u16,
) -> Option<u16>
    decreases entries.len(),
{
    if entries.len() == 0 {
        None
    } else if entries[0].service_uuid == service_uuid && entries[0].characteristic_uuid
        == characteristic_uuid {
        Some(entries[0].value_handle)
    } else {
        find_value_handle(entries.drop_first(), service_uuid, characteristic_uuid)
    }
}

impl Registration {
    /// The mapping registration built: the value handle assigned to the
    /// characteristic the UUID pair addresses, if any.
    pub fn value_handle_for(&self, service_uuid: u16, characteristic_uuid: u16) -> (r: Option<
        u16,
    >)
        ensures
            r == find_value_handle(self.characteristics@, service_uuid, characteristic_uuid),
    {
        let entries = &self.characteristics;
        proof {
            assert(entries@.skip(0) =~= entries@);
        }
        let mut k: usize = 0;
        while k < entries.len()
            invariant
                entries@ == self.characteristics@,
                k <= entries@.len(),
                find_value_handle(entries@, service_uuid, characteristic_uuid)
                    == find_value_handle(
                    entries@.skip(k as int),
                    service_uuid,
                    characteristic_uuid,
                ),
            decreases entries@.len() - k,
        {
            proof {
                assert(entries@.skip(k as int)[0] == entries@[k as int]);
                assert(entries@.skip(k as int).drop_first() =~= entries@.skip(k as int + 1));
            }
            let e = entries[k];
            if e.service_uuid == service_uuid && e.characteristic_uuid == characteristic_uuid {
                proof {
                    assert(find_value_handle(
                        entries@.skip(k as int),
                        service_uuid,
                        characteristic_uuid,
                    ) == Some(e.value_handle));
                }
                return Some(e.value_handle);
            }
            k = k + 1;
        }
        proof {
            assert(entries@.skip(k as int) =~= Seq::<RegisteredCharacteristic>::empty());
        }
        None
    }
}

/// Attribute handles a service consumes: one for its declaration and two per
/// characteristic (the characteristic declaration and its value).
pub open spec fn service_attr_count(s: Service) -> int {
    1 + 2 * (s.characteristics@.len() as int)
}

/// Attribute handles consumed by the first n services of the table.
pub open spec fn attrs_before(services: Seq<Service>, n: int) -> int
    decreases n,
{
    if n <= 0 {
        0
    } else {
        attrs_before(services, n - 1) + service_attr_count(services[n - 1])
    }
}

/// Characteristics contained in the first n services of the table.
pub open spec fn chars_before(services: Seq<Service>, n: int) -> int
    decreases n,
{
    if n <= 0 {
        0
    } else {
        chars_before(services, n - 1) + services[n - 1].characteristics@.len()
    }
}

/// The slot of characteristic j of service i in the flattened registration
/// table.
pub open spec fn char_slot(services: Seq<Service>, i: int, j: int) -> int {
    chars_before(services, i) + j
}

/// Handle numbering starts at 1; the declaration of service i comes after
/// everything that the earlier services consumed.
pub open spec fn service_decl_handle(services: Seq<Service>, i: int) -> int {
    1 + attrs_before(services, i)
}

/// The value handle assigned to characteristic j of service i: one past that
/// characteristic's own declaration handle.
pub open spec fn value_handle(services: Seq<Service>, i: int, j: int) -> int {
    service_decl_handle(services, i) + 2 * j + 2
}

/// The greatest attribute handle the whole catalog needs.
pub open spec fn total_attr_count(c: Catalog) -> int {
    attrs_before(c.services@, c.services@.len() as int)
}

/// Whether the catalog contains the heart-rate measurement characteristic.
pub open spec fn has_hr_measurement(services: Seq<Service>) -> bool {
    exists|i: int, j: int|
        0 <= i < services.len() && 0 <= j < services[i].characteristics@.len()
            && services[i].uuid == HEART_RATE_SERVICE_UUID
            && (#[trigger] services[i].characteristics@[j]).uuid == HEART_RATE_MEASUREMENT_UUID
}

pub proof fn lemma_attrs_before_mono(services: Seq<Service>, m: int, n: int)
    requires
        0 <= m <= n,
    ensures
        attrs_before(services, m) <= attrs_before(services, n),
    decreases n,
{
    if m < n {
        lemma_attrs_before_mono(services, m, n - 1);
    }
}

pub proof fn lemma_chars_before_mono(services: Seq<Service>, m: int, n: int)
    requires
        0 <= m <= n,
    ensures
        chars_before(services, m) <= chars_before(services, n),
    decreases n,
{
    if m < n {
        lemma_chars_before_mono(services, m, n - 1);
    }
}

/// The slot of characteristic j of service i comes before every slot that a
/// later service contributes.
pub proof fn lemma_char_slot(services: Seq<Service>, i: int, j: int, n: int)
    requires
        0 <= i < n,
        0 <= j < services[i].characteristics@.len(),
    ensures
        0 <= char_slot(services, i, j) < chars_before(services, n),
{
    lemma_chars_before_mono(services, 0, i);
    lemma_chars_before_mono(services, i + 1, n);
    assert(chars_before(services, i + 1) == chars_before(services, i) + services[i].characteristics@.len());
}

pub proof fn lemma_value_handle_in_range(services: Seq<Service>, i: int, j: int)
    requires
        0 <= i < services.len(),
        0 <= j < services[i].characteristics@.len(),
    ensures
        3 <= value_handle(services, i, j),
        value_handle(services, i, j) <= attrs_before(services, i + 1),
        attrs_before(services, i + 1) <= attrs_before(services, services.len() as int),
{
    lemma_attrs_before_mono(services, 0, i);
    lemma_attrs_before_mono(services, i + 1, services.len() as int);
    assert(attrs_before(services, i + 1) == attrs_before(services, i) + service_attr_count(
        services[i],
    ));
}

/// Handle assignment is injective: characteristics that come one after the
/// other in the catalog get strictly increasing value handles, so no two
/// characteristics share one.
pub proof fn lemma_value_handles_distinct(
    services: Seq<Service>,
    i1: int,
    j1: int,
    i2: int,
    j2: int,
)
    requires
        0 <= i1 < services.len(),
        0 <= j1 < services[i1].characteristics@.len(),
        0 <= i2 < services.len(),
        0 <= j2 < services[i2].characteristics@.len(),
        i1 < i2 || (i1 == i2 && j1 < j2),
    ensures
        value_handle(services, i1, j1) < value_handle(services, i2, j2),
{
    if i1 < i2 {
        lemma_value_handle_in_range(services, i1, j1);
        lemma_attrs_before_mono(services, i1 + 1, i2);
        lemma_value_handle_in_range(services, i2, j2);
    }
}

/// Registers the catalog: walks the service table in order, assigns the
/// consecutive attribute handles that submitting the table to the stack
/// yields, and captures the value handle of the heart-rate measurement
/// characteristic for later notification addressing.  Fails exactly when the
/// catalog does not fit the 16-bit handle space.
pub fn register(c: &Catalog) -> (r: Result<Registration, ConfigError>)
    requires
        catalog_wf(*c),
    ensures
        r is Err <==> total_attr_count(*c) > u16::MAX,
        r matches Err(e) ==> e is HandleSpaceExhausted,
        r matches Ok(reg) ==> {
            let services = c.services@;
            &&& reg.characteristics@.len() == chars_before(services, services.len() as int)
            &&& forall|i: int, j: int|
                0 <= i < services.len() && 0 <= j < services[i].characteristics@.len()
                    ==> reg.characteristics@[char_slot(services, i, j)]
                        == (RegisteredCharacteristic {
                        service_uuid: services[i].uuid,
                        characteristic_uuid: (#[trigger] services[i].characteristics@[j]).uuid,
                        value_handle: value_handle(services, i, j) as u16,
                    })
            &&& forall|i: int, j: int|
                0 <= i < services.len() && 0 <= j < services[i].characteristics@.len()
                    ==> 0 < #[trigger] value_handle(services, i, j) <= u16::MAX
            &&& forall|i: int, j: int|
                0 <= i < services.len() && 0 <= j < services[i].characteristics@.len()
                    && services[i].uuid == HEART_RATE_SERVICE_UUID
                    && (#[trigger] services[i].characteristics@[j]).uuid
                    == HEART_RATE_MEASUREMENT_UUID
                    ==> reg.hr_measurement_handle == value_handle(services, i, j)
            &&& reg.hr_measurement_handle != 0 <==> has_hr_measurement(services)
        },
{
    let ghost services = c.services@;
    let mut characteristics: Vec<RegisteredCharacteristic> = Vec::new();
    let mut hr_measurement_handle: u16 = 0;
    let mut next_handle: u32 = 1;
    let mut i: usize = 0;
    while i < c.services.len()
        invariant
            catalog_wf(*c),
            services == c.services@,
            i <= services.len(),
            next_handle == 1 + attrs_before(services, i as int),
            next_handle <= 0x10000,
            characteristics@.len() == chars_before(services, i as int),
            forall|i2: int, j2: int|
                0 <= i2 < i && 0 <= j2 < services[i2].characteristics@.len()
                    ==> characteristics@[char_slot(services, i2, j2)]
                        == (RegisteredCharacteristic {
                        service_uuid: services[i2].uuid,
                        characteristic_uuid: (#[trigger] services[i2].characteristics@[j2]).uuid,
                        value_handle: value_handle(services, i2, j2) as u16,
                    }),
            forall|i2: int, j2: int|
                0 <= i2 < i && 0 <= j2 < services[i2].characteristics@.len()
                    && services[i2].uuid == HEART_RATE_SERVICE_UUID
                    && (#[trigger] services[i2].characteristics@[j2]).uuid
                    == HEART_RATE_MEASUREMENT_UUID
                    ==> hr_measurement_handle == value_handle(services, i2, j2),
            hr_measurement_handle != 0 <==> exists|i2: int, j2: int|
                0 <= i2 < i && 0 <= j2 < services[i2].characteristics@.len()
                    && services[i2].uuid == HEART_RATE_SERVICE_UUID
                    && (#[trigger] services[i2].characteristics@[j2]).uuid
                    == HEART_RATE_MEASUREMENT_UUID,
        decreases services.len() - i,
    {
        if next_handle > 0xFFFF {
            proof {
                assert(attrs_before(services, i as int + 1) == attrs_before(services, i as int)
                    + service_attr_count(services[i as int]));
                lemma_attrs_before_mono(services, i as int + 1, services.len() as int);
            }
            return Err(ConfigError::HandleSpaceExhausted);
        }
        next_handle = next_handle + 1;
        let svc = &c.services[i];
        let mut j: usize = 0;
        while j < svc.characteristics.len()
            invariant
                catalog_wf(*c),
                services == c.services@,
                i < services.len(),
                svc == services[i as int],
                j <= svc.characteristics@.len(),
                next_handle == service_decl_handle(services, i as int) + 1 + 2 * j,
                next_handle <= 0x10000,
                characteristics@.len() == chars_before(services, i as int) + j,
                forall|i2: int, j2: int|
                    0 <= i2 < services.len() && 0 <= j2 < services[i2].characteristics@.len()
                        && (i2 < i || (i2 == i && j2 < j))
                        ==> characteristics@[char_slot(services, i2, j2)]
                            == (RegisteredCharacteristic {
                            service_uuid: services[i2].uuid,
                            characteristic_uuid: (#[trigger] services[i2].characteristics@[j2]).uuid,
                            value_handle: value_handle(services, i2, j2) as u16,
                        }),
                forall|i2: int, j2: int|
                    0 <= i2 < services.len() && 0 <= j2 < services[i2].characteristics@.len()
                        && (i2 < i || (i2 == i && j2 < j))
                        && services[i2].uuid == HEART_RATE_SERVICE_UUID
                        && (#[trigger] services[i2].characteristics@[j2]).uuid
                        == HEART_RATE_MEASUREMENT_UUID
                        ==> hr_measurement_handle == value_handle(services, i2, j2),
                hr_measurement_handle != 0 <==> exists|i2: int, j2: int|
                    0 <= i2 < services.len() && 0 <= j2 < services[i2].characteristics@.len()
                        && (i2 < i || (i2 == i && j2 < j))
                        && services[i2].uuid == HEART_RATE_SERVICE_UUID
                        && (#[trigger] services[i2].characteristics@[j2]).uuid
                        == HEART_RATE_MEASUREMENT_UUID,
            decreases svc.characteristics@.len() - j,
        {
            if next_handle + 1 > 0xFFFF {
                proof {
                    lemma_value_handle_in_range(services, i as int, j as int);
                }
                return Err(ConfigError::HandleSpaceExhausted);
            }
            let val: u16 = (next_handle + 1) as u16;
            proof {
                assert(val == value_handle(services, i as int, j as int));
                lemma_chars_before_mono(services, 0, i as int);
                assert forall|i2: int, j2: int|
                    0 <= i2 < i && 0 <= j2 < services[i2].characteristics@.len() implies 0
                    <= #[trigger] char_slot(services, i2, j2) < chars_before(services, i as int) by {
                    lemma_char_slot(services, i2, j2, i as int);
                }
            }
            characteristics.push(RegisteredCharacteristic {
                service_uuid: svc.uuid,
                characteristic_uuid: svc.characteristics[j].uuid,
                value_handle: val,
            });
            if svc.uuid == HEART_RATE_SERVICE_UUID && svc.characteristics[j].uuid
                == HEART_RATE_MEASUREMENT_UUID {
                hr_measurement_handle = val;
            }
            next_handle = next_handle + 2;
            j = j + 1;
        }
        proof {
            assert(attrs_before(services, i as int + 1) == attrs_before(services, i as int)
                + service_attr_count(services[i as int]));
            assert(chars_before(services, i as int + 1) == chars_before(services, i as int)
                + services[i as int].characteristics@.len());
        }
        i = i + 1;
    }
    proof {
        assert forall|i2: int, j2: int|
            0 <= i2 < services.len() && 0 <= j2 < services[i2].characteristics@.len() implies 0
            < #[trigger] value_handle(services, i2, j2) <= u16::MAX by {
            lemma_value_handle_in_range(services, i2, j2);
        }
    }
    Ok(Registration { characteristics, hr_measurement_handle })
}

} // verus!
