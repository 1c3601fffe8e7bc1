//! The GATT uuid-set discovery heuristic and uuid-set resolution.
//!
//! GATT identifiers are carried as their 128-bit integral values; the
//! I/O layer converts its native identifier type at the boundary.
use vstd::prelude::*;

use crate::error::SoundcoreError;

verus! {

/// Generic-access service id, excluded from discovery.
pub const EXCLUDED_SERVICE_GENERIC_ACCESS: u128 = 0x00001800_0000_1000_8000_00805f9b34fb;

/// Generic-attribute service id, excluded from discovery.
pub const EXCLUDED_SERVICE_GENERIC_ATTRIBUTE: u128 = 0x00001801_0000_1000_8000_00805f9b34fb;

/// First vendor noise service id, excluded from discovery.
pub const EXCLUDED_SERVICE_VENDOR_NOISE_A: u128 = 0x86868686_8686_8686_8686_868686868686;

/// Second vendor noise service id, excluded from discovery.
pub const EXCLUDED_SERVICE_VENDOR_NOISE_B: u128 = 0x66666666_6666_6666_6666_666666666666;

/// The vendor transport endpoints of a device: the service and its read
/// and write characteristics.
#[derive(Clone, Copy, Debug, PartialEq, Eq, Structural)]
pub struct BLEConnectionUuidSet {
    pub service_uuid: u128,
    pub read_uuid: u128,
    pub write_uuid: u128,
}

/// One GATT characteristic, reduced to what the heuristic reads: its id
/// and the four property flags of interest.
#[derive(Clone, Copy, Debug, PartialEq, Eq, Structural)]
pub struct CharacteristicModel {
    pub uuid: u128,
    pub read: bool,
    pub write: bool,
    pub write_without_response: bool,
    pub notify: bool,
}

/// One GATT service: its id and its characteristics.
#[derive(Debug)]
pub struct ServiceModel {
    pub uuid: u128,
    pub characteristics: Vec<CharacteristicModel>,
}

impl Clone for ServiceModel {
    /// An exact copy: same id, same characteristics.
    fn clone(&self) -> (r: ServiceModel)
        ensures
            r.uuid == self.uuid,
            r.characteristics@ == self.characteristics@,
    {
        let mut chars: Vec<CharacteristicModel> = Vec::new();
        let mut i: usize = 0;
        while i < self.characteristics.len()
            invariant
                0 <= i <= self.characteristics@.len(),
                chars@ =~= self.characteristics@.take(i as int),
            decreases self.characteristics@.len() - i,
        {
            chars.push(self.characteristics[i]);
            i = i + 1;
        }
        proof {
            assert(self.characteristics@.take(self.characteristics@.len() as int)
                =~= self.characteristics@);
        }
        ServiceModel { uuid: self.uuid, characteristics: chars }
    }
}

/// A service id on the fixed exclusion list.
pub open spec fn spec_excluded_service(u: u128) -> bool {
    ||| u == EXCLUDED_SERVICE_GENERIC_ACCESS
    ||| u == EXCLUDED_SERVICE_GENERIC_ATTRIBUTE
    ||| u == EXCLUDED_SERVICE_VENDOR_NOISE_A
    ||| u == EXCLUDED_SERVICE_VENDOR_NOISE_B
}

/// A discovery candidate: at least two characteristics and not on the
/// exclusion list.
pub open spec fn spec_candidate(s: ServiceModel) -> bool {
    s.characteristics@.len() >= 2 && !spec_excluded_service(s.uuid)
}

/// The first discovery candidate among `services`.
pub open spec fn spec_first_candidate(services: Seq<ServiceModel>) -> Option<ServiceModel>
    decreases services.len(),
{
    if services.len() == 0 {
        None
    } else if spec_candidate(services[0]) {
        Some(services[0])
    } else {
        spec_first_candidate(services.drop_first())
    }
}

/// A characteristic usable for receiving: notify and read.
pub open spec fn spec_is_read_char(c: CharacteristicModel) -> bool {
    c.notify && c.read
}

/// A characteristic usable for sending: write and write-without-response.
pub open spec fn spec_is_write_char(c: CharacteristicModel) -> bool {
    c.write && c.write_without_response
}

/// The first receive-capable characteristic.
pub open spec fn spec_first_read_char(chars: Seq<CharacteristicModel>) -> Option<
    CharacteristicModel,
>
    decreases chars.len(),
{
    if chars.len() == 0 {
        None
    } else if spec_is_read_char(chars[0]) {
        Some(chars[0])
    } else {
        spec_first_read_char(chars.drop_first())
    }
}

/// The first send-capable characteristic.
pub open spec fn spec_first_write_char(chars: Seq<CharacteristicModel>) -> Option<
    CharacteristicModel,
>
    decreases chars.len(),
{
    if chars.len() == 0 {
        None
    } else if spec_is_write_char(chars[0]) {
        Some(chars[0])
    } else {
        spec_first_write_char(chars.drop_first())
    }
}

/// The uuid set the heuristic derives from `services`: the first
/// candidate service, its first receive-capable characteristic and its
/// first send-capable one; nothing when any of the three is missing.
pub open spec fn spec_uuid_set_of(services: Seq<ServiceModel>) -> Option<BLEConnectionUuidSet> {
    match spec_first_candidate(services) {
        None => None,
        Some(svc) => match (
            spec_first_read_char(svc.characteristics@),
            spec_first_write_char(svc.characteristics@),
        ) {
            (Some(r), Some(w)) => Some(
                BLEConnectionUuidSet {
                    service_uuid: svc.uuid,
                    read_uuid: r.uuid,
                    write_uuid: w.uuid,
                },
            ),
            _ => None,
        },
    }
}

/// The first service with the given id.
pub open spec fn spec_find_service(services: Seq<ServiceModel>, uuid: u128) -> Option<ServiceModel>
    decreases services.len(),
{
    if services.len() == 0 {
        None
    } else if services[0].uuid == uuid {
        Some(services[0])
    } else {
        spec_find_service(services.drop_first(), uuid)
    }
}

/// The first characteristic with the given id.
pub open spec fn spec_find_char(chars: Seq<CharacteristicModel>, uuid: u128) -> Option<
    CharacteristicModel,
>
    decreases chars.len(),
{
    if chars.len() == 0 {
        None
    } else if chars[0].uuid == uuid {
        Some(chars[0])
    } else {
        spec_find_char(chars.drop_first(), uuid)
    }
}

proof fn lemma_first_candidate_found(services: Seq<ServiceModel>)
    ensures
        spec_first_candidate(services) matches Some(s) ==> services.contains(s) && spec_candidate(
            s,
        ),
    decreases services.len(),
{
    if services.len() > 0 && !spec_candidate(services[0]) {
        lemma_first_candidate_found(services.drop_first());
        if spec_first_candidate(services) is Some {
            let s = spec_first_candidate(services)->Some_0;
            let i = choose|i: int|
                0 <= i < services.drop_first().len() && services.drop_first()[i] == s;
            assert(services[i + 1] == s);
        }
    }
}

proof fn lemma_first_read_char_found(chars: Seq<CharacteristicModel>)
    ensures
        spec_first_read_char(chars) matches Some(c) ==> chars.contains(c) && spec_is_read_char(c),
    decreases chars.len(),
{
    if chars.len() > 0 && !spec_is_read_char(chars[0]) {
        lemma_first_read_char_found(chars.drop_first());
        if spec_first_read_char(chars) is Some {
            let c = spec_first_read_char(chars)->Some_0;
            let i = choose|i: int| 0 <= i < chars.drop_first().len() && chars.drop_first()[i] == c;
            assert(chars[i + 1] == c);
        }
    }
}

proof fn lemma_first_write_char_found(chars: Seq<CharacteristicModel>)
    ensures
        spec_first_write_char(chars) matches Some(c) ==> chars.contains(c) && spec_is_write_char(
            c,
        ),
    decreases chars.len(),
{
    if chars.len() > 0 && !spec_is_write_char(chars[0]) {
        lemma_first_write_char_found(chars.drop_first());
        if spec_first_write_char(chars) is Some {
            let c = spec_first_write_char(chars)->Some_0;
            let i = choose|i: int| 0 <= i < chars.drop_first().len() && chars.drop_first()[i] == c;
            assert(chars[i + 1] == c);
        }
    }
}

/// A service that can carry a given uuid set: a discovery candidate
/// whose id is the set's service id, holding a receive-capable
/// characteristic with the set's read id and a send-capable one with
/// the set's write id.
pub open spec fn spec_carries_uuid_set(s: ServiceModel, us: BLEConnectionUuidSet) -> bool {
    &&& spec_candidate(s)
    &&& s.uuid == us.service_uuid
    &&& exists|c: CharacteristicModel|
        #[trigger] s.characteristics@.contains(c) && c.uuid == us.read_uuid && spec_is_read_char(
            c,
        )
    &&& exists|c: CharacteristicModel|
        #[trigger] s.characteristics@.contains(c) && c.uuid == us.write_uuid && spec_is_write_char(
            c,
        )
}

/// Every uuid set the heuristic produces is well formed: all three ids
/// resolve to one discovered candidate service, the read characteristic
/// supports notify and read, and the write characteristic supports
/// write and write-without-response.
pub proof fn lemma_uuid_set_well_formed(services: Seq<ServiceModel>)
    ensures
        spec_uuid_set_of(services) matches Some(us) ==> exists|s: ServiceModel|
            #[trigger] services.contains(s) && spec_carries_uuid_set(s, us),
{
    lemma_first_candidate_found(services);
    if spec_uuid_set_of(services) is Some {
        let us = spec_uuid_set_of(services)->Some_0;
        let svc = spec_first_candidate(services)->Some_0;
        lemma_first_read_char_found(svc.characteristics@);
        lemma_first_write_char_found(svc.characteristics@);
        assert(services.contains(svc) && spec_carries_uuid_set(svc, us));
    }
}

/// Tests a service id against the fixed exclusion list.
pub fn is_excluded_service(u: u128) -> (r: bool)
    ensures
        r == spec_excluded_service(u),
{
    u == EXCLUDED_SERVICE_GENERIC_ACCESS || u == EXCLUDED_SERVICE_GENERIC_ATTRIBUTE || u
        == EXCLUDED_SERVICE_VENDOR_NOISE_A || u == EXCLUDED_SERVICE_VENDOR_NOISE_B
}

/// Tests whether a service qualifies as a discovery candidate.
fn is_candidate(s: &ServiceModel) -> (r: bool)
    ensures
        r == spec_candidate(*s),
{
    s.characteristics.len() >= 2 && !is_excluded_service(s.uuid)
}

/// The first receive-capable characteristic of `chars`.
fn find_read_char(chars: &Vec<CharacteristicModel>) -> (r: Option<CharacteristicModel>)
    ensures
        r == spec_first_read_char(chars@),
{
    proof {
        assert(chars@.subrange(0, chars@.len() as int) =~= chars@);
    }
    let mut i: usize = 0;
    while i < chars.len()
        invariant
            0 <= i <= chars@.len(),
            spec_first_read_char(chars@) == spec_first_read_char(
                chars@.subrange(i as int, chars@.len() as int),
            ),
            forall|j: int| 0 <= j < i ==> !spec_is_read_char(chars@[j]),
        decreases chars@.len() - i,
    {
        let c = chars[i];
        proof {
            assert(chars@.subrange(i as int, chars@.len() as int).drop_first() =~= chars@.subrange(
                i as int + 1,
                chars@.len() as int,
            ));
        }
        if c.notify && c.read {
            return Some(c);
        }
        i = i + 1;
    }
    None
}

/// The first send-capable characteristic of `chars`.
fn find_write_char(chars: &Vec<CharacteristicModel>) -> (r: Option<CharacteristicModel>)
    ensures
        r == spec_first_write_char(chars@),
{
    proof {
        assert(chars@.subrange(0, chars@.len() as int) =~= chars@);
    }
    let mut i: usize = 0;
    while i < chars.len()
        invariant
            0 <= i <= chars@.len(),
            spec_first_write_char(chars@) == spec_first_write_char(
                chars@.subrange(i as int, chars@.len() as int),
            ),
            forall|j: int| 0 <= j < i ==> !spec_is_write_char(chars@[j]),
        decreases chars@.len() - i,
    {
        let c = chars[i];
        proof {
            assert(chars@.subrange(i as int, chars@.len() as int).drop_first() =~= chars@.subrange(
                i as int + 1,
                chars@.len() as int,
            ));
        }
        if c.write && c.write_without_response {
            return Some(c);
        }
        i = i + 1;
    }
    None
}

/// Runs the discovery heuristic over the enumerated services: the first
/// candidate service is taken and its first receive- and send-capable
/// characteristics form the uuid set. Returns nothing when no service
/// qualifies.
pub fn find_soundcore_uuid_set(services: &Vec<ServiceModel>) -> (r: Option<BLEConnectionUuidSet>)
    ensures
        r == spec_uuid_set_of(services@),
{
    proof {
        assert(services@.subrange(0, services@.len() as int) =~= services@);
    }
    let mut i: usize = 0;
    while i < services.len()
        invariant
            0 <= i <= services@.len(),
            spec_first_candidate(services@) == spec_first_candidate(
                services@.subrange(i as int, services@.len() as int),
            ),
        decreases services@.len() - i,
    {
        proof {
            assert(services@.subrange(i as int, services@.len() as int).drop_first()
                =~= services@.subrange(i as int + 1, services@.len() as int));
        }
        if is_candidate(&services[i]) {
            let svc = &services[i];
            let read_char = find_read_char(&svc.characteristics);
            let write_char = find_write_char(&svc.characteristics);
            match (read_char, write_char) {
                (Some(r), Some(w)) => {
                    return Some(
                        BLEConnectionUuidSet {
                            service_uuid: svc.uuid,
                            read_uuid: r.uuid,
                            write_uuid: w.uuid,
                        },
                    );
                },
                _ => {
                    return None;
                },
            }
        }
        i = i + 1;
    }
    None
}

/// Finds the first service carrying `uuid`.
pub fn find_service_by_uuid(services: &Vec<ServiceModel>, uuid: u128) -> (r: Option<ServiceModel>)
    ensures
        r is Some <==> spec_find_service(services@, uuid) is Some,
        r matches Some(s) ==> (spec_find_service(services@, uuid) matches Some(s2) && s.uuid
            == s2.uuid && s.characteristics@ == s2.characteristics@),
{
    proof {
        assert(services@.subrange(0, services@.len() as int) =~= services@);
    }
    let mut i: usize = 0;
    while i < services.len()
        invariant
            0 <= i <= services@.len(),
            spec_find_service(services@, uuid) == spec_find_service(
                services@.subrange(i as int, services@.len() as int),
                uuid,
            ),
        decreases services@.len() - i,
    {
        proof {
            assert(services@.subrange(i as int, services@.len() as int).drop_first()
                =~= services@.subrange(i as int + 1, services@.len() as int));
        }
        if services[i].uuid == uuid {
            return Some(services[i].clone());
        }
        i = i + 1;
    }
    None
}

/// Finds the first characteristic carrying `uuid`.
pub fn find_characteristic_by_uuid(service: &ServiceModel, uuid: u128) -> (r: Option<
    CharacteristicModel,
>)
    ensures
        r == spec_find_char(service.characteristics@, uuid),
{
    let chars = &service.characteristics;
    proof {
        assert(chars@.subrange(0, chars@.len() as int) =~= chars@);
    }
    let mut i: usize = 0;
    while i < chars.len()
        invariant
            0 <= i <= chars@.len(),
            spec_find_char(service.characteristics@, uuid) == spec_find_char(
                chars@.subrange(i as int, chars@.len() as int),
                uuid,
            ),
        decreases chars@.len() - i,
    {
        proof {
            assert(chars@.subrange(i as int, chars@.len() as int).drop_first() =~= chars@.subrange(
                i as int + 1,
                chars@.len() as int,
            ));
        }
        if chars[i].uuid == uuid {
            return Some(chars[i]);
        }
        i = i + 1;
    }
    None
}

/// Resolves a supplied uuid set against the live services: the service
/// must exist, and both characteristics must resolve inside it. Returns
/// the read characteristic, the one the transport subscribes to.
pub fn resolve_uuid_set(services: &Vec<ServiceModel>, uuid_set: &BLEConnectionUuidSet) -> (r:
    Result<CharacteristicModel, SoundcoreError>)
    ensures
        spec_find_service(services@, uuid_set.service_uuid) is None ==> r == Result::<
            CharacteristicModel,
            SoundcoreError,
        >::Err(SoundcoreError::MissingService),
        spec_find_service(services@, uuid_set.service_uuid) matches Some(svc) ==> r == (
        match spec_find_char(svc.characteristics@, uuid_set.read_uuid) {
            None => Result::<CharacteristicModel, SoundcoreError>::Err(
                SoundcoreError::MissingCharacteristic,
            ),
            Some(rc) => {
                if spec_find_char(svc.characteristics@, uuid_set.write_uuid) is Some {
                    Result::<CharacteristicModel, SoundcoreError>::Ok(rc)
                } else {
                    Result::<CharacteristicModel, SoundcoreError>::Err(
                        SoundcoreError::MissingCharacteristic,
                    )
                }
            },
        }),
    {
        let svc = match find_service_by_uuid(services, uuid_set.service_uuid) {
            Some(svc) => svc,
            None => {
                return Err(SoundcoreError::MissingService);
            },
        };
        let read_char = match find_characteristic_by_uuid(&svc, uuid_set.read_uuid) {
            Some(c) => c,
            None => {
                return Err(SoundcoreError::MissingCharacteristic);
            },
        };
        match find_characteristic_by_uuid(&svc, uuid_set.write_uuid) {
            Some(c) => {},
            None => {
                return Err(SoundcoreError::MissingCharacteristic);
            },
        }
        Ok(read_char)
    }

/// The endpoint-resolution step of connection setup: take the supplied
/// uuid set, or run discovery when none was supplied, then resolve the
/// set against the live services. Returns the set together with the
/// read characteristic the transport subscribes to; fails with
/// `MissingUuidSet` when discovery finds no candidate, and with the
/// resolution errors otherwise.
pub fn resolve_connection_endpoints(
    services: &Vec<ServiceModel>,
    supplied: Option<BLEConnectionUuidSet>,
) -> (r: Result<(BLEConnectionUuidSet, CharacteristicModel), SoundcoreError>)
    ensures
        ({
            let chosen = if supplied is Some {
                supplied
            } else {
                spec_uuid_set_of(services@)
            };
            match chosen {
                None => r == Result::<
                    (BLEConnectionUuidSet, CharacteristicModel),
                    SoundcoreError,
                >::Err(SoundcoreError::MissingUuidSet),
                Some(us) => match spec_find_service(services@, us.service_uuid) {
                    None => r == Result::<
                        (BLEConnectionUuidSet, CharacteristicModel),
                        SoundcoreError,
                    >::Err(SoundcoreError::MissingService),
                    Some(svc) => match spec_find_char(svc.characteristics@, us.read_uuid) {
                        None => r == Result::<
                            (BLEConnectionUuidSet, CharacteristicModel),
                            SoundcoreError,
                        >::Err(SoundcoreError::MissingCharacteristic),
                        Some(rc) => {
                            if spec_find_char(svc.characteristics@, us.write_uuid) is Some {
                                r == Result::<
                                    (BLEConnectionUuidSet, CharacteristicModel),
                                    SoundcoreError,
                                >::Ok((us, rc))
                            } else {
                                r == Result::<
                                    (BLEConnectionUuidSet, CharacteristicModel),
                                    SoundcoreError,
                                >::Err(SoundcoreError::MissingCharacteristic)
                            }
                        },
                    },
                },
            }
        }),
{
    let uuid_set = match supplied {
        Some(us) => us,
        None => {
            match find_soundcore_uuid_set(services) {
                Some(us) => us,
                None => {
                    return Err(SoundcoreError::MissingUuidSet);
                },
            }
        },
    };
    match resolve_uuid_set(services, &uuid_set) {
        Ok(read_char) => Ok((uuid_set, read_char)),
        Err(e) => Err(e),
    }
}

} // verus!
