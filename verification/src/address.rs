//! Deterministic derivation of the device's two link-layer addresses and the
//! fixed security-root key material.
//!
//! Both addresses are functions of the controller's hardware identifier
//! alone: the public address packs the low identifier bytes with the device
//! type and vendor identifier, the random address packs the same low bytes
//! with a fixed vendor tail. Identical seeds therefore yield identical
//! addresses across resets.

use vstd::prelude::*;

verus! {

/// The hardware identification words a controller exposes in its device
/// information block; the address derivation reads nothing else.
#[derive(Clone, Copy, PartialEq, Eq, Structural, Debug)]
pub struct HardwareSeed {
    /// 64-bit unique-identifier register; only the low 24 bits are used.
    pub uid64: u64,
    /// Device-type identifier byte.
    pub device_type_id: u8,
    /// Vendor (company) identifier word.
    pub st_company_id: u16,
}

/// A 6-byte link-layer device address.
#[derive(Clone, Copy, PartialEq, Eq, Debug)]
pub struct DeviceAddress {
    pub bytes: [u8; 6],
}

/// A 16-byte security root (identity root or encryption root).
#[derive(Clone, Copy, PartialEq, Eq, Debug)]
pub struct SecurityKey {
    pub bytes: [u8; 16],
}

/// The public address derived from a seed: low three identifier bytes,
/// device type, then the vendor identifier little-endian.
pub open spec fn spec_public_address(seed: HardwareSeed) -> Seq<u8> {
    seq![
        (seed.uid64 & 0xff) as u8,
        ((seed.uid64 >> 8) & 0xff) as u8,
        ((seed.uid64 >> 16) & 0xff) as u8,
        seed.device_type_id,
        (seed.st_company_id & 0xff) as u8,
        ((seed.st_company_id >> 8) & 0xff) as u8,
    ]
}

/// The random address derived from a seed: the same low three identifier
/// bytes, then a fixed vendor tail.
pub open spec fn spec_random_address(seed: HardwareSeed) -> Seq<u8> {
    seq![
        (seed.uid64 & 0xff) as u8,
        ((seed.uid64 >> 8) & 0xff) as u8,
        ((seed.uid64 >> 16) & 0xff) as u8,
        0u8,
        0x6eu8,
        0xedu8,
    ]
}

/// Derives the public device address from the hardware seed.
pub fn get_bd_addr(seed: &HardwareSeed) -> (r: DeviceAddress)
    ensures
        r.bytes@ == spec_public_address(*seed),
{
    let bytes: [u8; 6] = [
        (seed.uid64 & 0xff) as u8,
        ((seed.uid64 >> 8) & 0xff) as u8,
        ((seed.uid64 >> 16) & 0xff) as u8,
        seed.device_type_id,
        (seed.st_company_id & 0xff) as u8,
        ((seed.st_company_id >> 8) & 0xff) as u8,
    ];
    proof {
        assert(bytes@ =~= spec_public_address(*seed));
    }
    DeviceAddress { bytes }
}

/// Derives the static random device address from the hardware seed.
pub fn get_random_addr(seed: &HardwareSeed) -> (r: DeviceAddress)
    ensures
        r.bytes@ == spec_random_address(*seed),
{
    let bytes: [u8; 6] = [
        (seed.uid64 & 0xff) as u8,
        ((seed.uid64 >> 8) & 0xff) as u8,
        ((seed.uid64 >> 16) & 0xff) as u8,
        0u8,
        0x6eu8,
        0xedu8,
    ];
    proof {
        assert(bytes@ =~= spec_random_address(*seed));
    }
    DeviceAddress { bytes }
}

/// The compiled-in identity root.
pub open spec fn spec_identity_root() -> Seq<u8> {
    seq![
        0x12u8, 0x34u8, 0x56u8, 0x78u8, 0x9au8, 0xbcu8, 0xdeu8, 0xf0u8,
        0x12u8, 0x34u8, 0x56u8, 0x78u8, 0x9au8, 0xbcu8, 0xdeu8, 0xf0u8,
    ]
}

/// The compiled-in encryption root.
pub open spec fn spec_encryption_root() -> Seq<u8> {
    seq![
        0xfeu8, 0xdcu8, 0xbau8, 0x09u8, 0x87u8, 0x65u8, 0x43u8, 0x21u8,
        0xfeu8, 0xdcu8, 0xbau8, 0x09u8, 0x87u8, 0x65u8, 0x43u8, 0x21u8,
    ]
}

/// Returns the identity root used to configure the security layer.
pub fn get_irk() -> (r: SecurityKey)
    ensures
        r.bytes@ == spec_identity_root(),
{
    let bytes: [u8; 16] = [
        0x12, 0x34, 0x56, 0x78, 0x9a, 0xbc, 0xde, 0xf0,
        0x12, 0x34, 0x56, 0x78, 0x9a, 0xbc, 0xde, 0xf0,
    ];
    proof {
        assert(bytes@ =~= spec_identity_root());
    }
    SecurityKey { bytes }
}

/// Returns the encryption root used to configure the security layer.
pub fn get_erk() -> (r: SecurityKey)
    ensures
        r.bytes@ == spec_encryption_root(),
{
    let bytes: [u8; 16] = [
        0xfe, 0xdc, 0xba, 0x09, 0x87, 0x65, 0x43, 0x21,
        0xfe, 0xdc, 0xba, 0x09, 0x87, 0x65, 0x43, 0x21,
    ];
    proof {
        assert(bytes@ =~= spec_encryption_root());
    }
    SecurityKey { bytes }
}

/// Law: address derivation is deterministic — equal seeds give equal public
/// addresses and equal random addresses.
pub proof fn lemma_address_determinism(s1: HardwareSeed, s2: HardwareSeed)
    requires
        s1 == s2,
    ensures
        spec_public_address(s1) == spec_public_address(s2),
        spec_random_address(s1) == spec_random_address(s2),
{
}

/// Law: the two address variants derived from one seed agree on their first
/// three bytes; only the last three bytes may differ.
pub proof fn lemma_address_variants_share_prefix(seed: HardwareSeed)
    ensures
        spec_public_address(seed).len() == 6,
        spec_random_address(seed).len() == 6,
        forall|i: int| 0 <= i < 3 ==> spec_public_address(seed)[i] == spec_random_address(seed)[i],
{
}

} // verus!
