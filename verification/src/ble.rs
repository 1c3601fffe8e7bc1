//! Discovered-device descriptors and the decision logic of the scanner:
//! naming, name-resolution fallback and deduplication. Adapter discovery
//! itself is I/O and stays with the caller, which hands the harvested
//! per-peripheral data to the functions here.
use vstd::prelude::*;

use crate::btaddr::BluetoothAdrr;
use crate::error::SoundcoreError;

verus! {

/// How a frame is written to the device: a GATT write with response, or
/// the fire-and-forget variant.
#[derive(Clone, Copy, Debug, PartialEq, Eq, Structural)]
pub enum WriteType {
    WithResponse,
    WithoutResponse,
}

/// A discovered device: its stable address and a display name. The name
/// may be empty, never absent.
#[derive(Debug)]
pub struct BLEDeviceDescriptor {
    pub addr: BluetoothAdrr,
    pub name: String,
}

impl Clone for BLEDeviceDescriptor {
    /// An exact copy: same address, same name.
    fn clone(&self) -> (r: BLEDeviceDescriptor)
        ensures
            r.addr == self.addr,
            r.name@ == self.name@,
    {
        BLEDeviceDescriptor { addr: self.addr, name: self.name.clone() }
    }
}

impl BLEDeviceDescriptor {
    /// Builds a descriptor from its parts.
    pub fn new(addr: BluetoothAdrr, name: String) -> (r: BLEDeviceDescriptor)
        ensures
            r.addr == addr,
            r.name == name,
    {
        BLEDeviceDescriptor { addr, name }
    }
}

/// Some descriptor in `list` carries the address `a`.
pub open spec fn spec_has_addr(list: Seq<BLEDeviceDescriptor>, a: Seq<u8>) -> bool {
    exists|i: int| 0 <= i < list.len() && (#[trigger] list[i]).addr.address@ == a
}

/// `d` restates a descriptor of `list`: same address, same name.
pub open spec fn spec_from_list(d: BLEDeviceDescriptor, list: Seq<BLEDeviceDescriptor>) -> bool {
    exists|k: int|
        0 <= k < list.len() && d.addr.address@ == (#[trigger] list[k]).addr.address@ && d.name@
            == list[k].name@
}

/// The scanner over the btleplug-style adapters. Discovery start/stop,
/// the scan delay and the per-peripheral probes are I/O and live with
/// the caller; the decisions they feed are here.
pub struct BtlePlugScanner {}

impl BtlePlugScanner {
    /// The descriptor for one probed peripheral: the advertised name
    /// when the properties carried one, the empty string otherwise.
    pub fn peripheral_to_descriptor(addr: BluetoothAdrr, local_name: Option<String>) -> (r:
        BLEDeviceDescriptor)
        ensures
            r.addr == addr,
            local_name matches Some(n) ==> r.name == n,
            local_name is None ==> r.name@ == Seq::<char>::empty(),
    {
        match local_name {
            Some(n) => BLEDeviceDescriptor { addr, name: n },
            None => BLEDeviceDescriptor { addr, name: String::new() },
        }
    }

    /// The platform name-resolution fallback decision: a descriptor that
    /// already carries a name keeps it; a blank one takes the
    /// platform-resolved name, when the platform produced one.
    pub fn resolve_name_for_descriptor(descriptor: BLEDeviceDescriptor, resolved: Option<String>)
        -> (r: BLEDeviceDescriptor)
        ensures
            r.addr == descriptor.addr,
            descriptor.name@.len() > 0 ==> r.name@ == descriptor.name@,
            descriptor.name@.len() == 0 ==> r.name@ == match resolved {
                Some(n) => n@,
                None => Seq::<char>::empty(),
            },
    {
        if !descriptor.name.as_str().is_empty() {
            descriptor
        } else {
            match resolved {
                Some(n) => BLEDeviceDescriptor { addr: descriptor.addr, name: n },
                None => descriptor,
            }
        }
    }

    /// Whether `list` already holds a descriptor for `addr`.
    fn contains_addr(list: &Vec<BLEDeviceDescriptor>, addr: &BluetoothAdrr) -> (r: bool)
        ensures
            r == spec_has_addr(list@, addr.address@),
    {
        let mut i: usize = 0;
        while i < list.len()
            invariant
                0 <= i <= list@.len(),
                forall|j: int| 0 <= j < i ==> (#[trigger] list@[j]).addr.address@ != addr.address@,
            decreases list@.len() - i,
        {
            if list[i].addr == *addr {
                return true;
            }
            i = i + 1;
        }
        false
    }

    /// Deduplicates scan results by address: the first descriptor seen
    /// for each address is kept, every address survives, and the result
    /// holds no two descriptors for one address. Order of the result is
    /// not part of the contract.
    pub fn dedup_descriptors(list: &Vec<BLEDeviceDescriptor>) -> (r: Vec<BLEDeviceDescriptor>)
        ensures
            forall|i: int, j: int|
                0 <= i < j < r@.len() ==> (#[trigger] r@[i]).addr.address@ != (
                #[trigger] r@[j]).addr.address@,
            forall|i: int| 0 <= i < r@.len() ==> spec_from_list(#[trigger] r@[i], list@),
            forall|k: int|
                0 <= k < list@.len() ==> spec_has_addr(r@, (#[trigger] list@[k]).addr.address@),
    {
        let mut out: Vec<BLEDeviceDescriptor> = Vec::new();
        let mut i: usize = 0;
        while i < list.len()
            invariant
                0 <= i <= list@.len(),
                forall|x: int, y: int|
                    0 <= x < y < out@.len() ==> (#[trigger] out@[x]).addr.address@ != (
                    #[trigger] out@[y]).addr.address@,
                forall|x: int| 0 <= x < out@.len() ==> spec_from_list(#[trigger] out@[x], list@),
                forall|k: int|
                    0 <= k < i ==> spec_has_addr(out@, (#[trigger] list@[k]).addr.address@),
            decreases list@.len() - i,
        {
            if !Self::contains_addr(&out, &list[i].addr) {
                let d = list[i].clone();
                let ghost prev = out@;
                out.push(d);
                proof {
                    assert(out@[prev.len() as int].addr.address@ == list@[i as int].addr.address@);
                    assert forall|k: int|
                        0 <= k < i + 1 implies spec_has_addr(
                        out@,
                        (#[trigger] list@[k]).addr.address@,
                    ) by {
                        if k < i {
                            let w = choose|w: int|
                                0 <= w < prev.len() && (#[trigger] prev[w]).addr.address@
                                    == list@[k].addr.address@;
                            assert(out@[w] == prev[w]);
                        } else {
                            assert(out@[prev.len() as int].addr.address@
                                == list@[k].addr.address@);
                        }
                    }
                    assert forall|x: int|
                        0 <= x < out@.len() implies spec_from_list(
                        #[trigger] out@[x],
                        list@,
                    ) by {
                        if x < prev.len() {
                            assert(out@[x] == prev[x]);
                        } else {
                            assert(0 <= i < list@.len() && out@[x].addr.address@ == list@[
                                i as int
                            ].addr.address@ && out@[x].name@ == list@[i as int].name@);
                        }
                    }
                }
            } else {
                proof {
                    assert forall|k: int|
                        0 <= k < i + 1 implies spec_has_addr(
                        out@,
                        (#[trigger] list@[k]).addr.address@,
                    ) by {}
                }
            }
            i = i + 1;
        }
        out
    }
}

/// A scanner double for tests and demos: it always reports exactly one
/// fixed device.
pub struct MockBLEScanner;

impl MockBLEScanner {
    /// Reports the one mock device.
    pub fn scan(&self) -> (r: Result<Vec<BLEDeviceDescriptor>, SoundcoreError>)
        ensures
            r matches Ok(v) ==> {
                &&& v@.len() == 1
                &&& v@[0].addr.address@ == seq![0x00u8, 0x11u8, 0x22u8, 0x33u8, 0x44u8, 0x55u8]
                &&& v@[0].name@ == "Mock Soundcore Device"@
            },
            r is Ok,
    {
        let addr = BluetoothAdrr { address: [0x00, 0x11, 0x22, 0x33, 0x44, 0x55] };
        let name: String = "Mock Soundcore Device".to_owned();
        let descriptor = BLEDeviceDescriptor { addr, name };
        let mut v: Vec<BLEDeviceDescriptor> = Vec::new();
        v.push(descriptor);
        proof {
            assert(v@[0].addr.address@ =~= seq![0x00u8, 0x11u8, 0x22u8, 0x33u8, 0x44u8, 0x55u8]);
        }
        Ok(v)
    }
}

} // verus!
