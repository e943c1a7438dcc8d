//! Bluetooth proxies: what they can do, and what they report.

use crate::flags::{graded_bits, lemma_members_graded, members, Flag, FlagSet};
use vstd::prelude::*;

verus! {

/// What a Bluetooth proxy can do.
#[derive(Debug, Clone, Copy, PartialEq, Eq)]
pub enum BluetoothProxyFeature {
    PassiveScan,
    ActiveConnections,
    RemoteCaching,
    Pairing,
    CacheClearing,
    RawAdvertisements,
}

impl Flag for BluetoothProxyFeature {
    open spec fn spec_position(self) -> u8 {
        match self {
            BluetoothProxyFeature::PassiveScan => 0,
            BluetoothProxyFeature::ActiveConnections => 1,
            BluetoothProxyFeature::RemoteCaching => 2,
            BluetoothProxyFeature::Pairing => 3,
            BluetoothProxyFeature::CacheClearing => 4,
            BluetoothProxyFeature::RawAdvertisements => 5,
        }
    }

    proof fn lemma_position_in_byte(self) {
    }

    proof fn lemma_position_distinct(self, other: Self) {
    }

    fn position(self) -> (position: u8) {
        match self {
            BluetoothProxyFeature::PassiveScan => 0,
            BluetoothProxyFeature::ActiveConnections => 1,
            BluetoothProxyFeature::RemoteCaching => 2,
            BluetoothProxyFeature::Pairing => 3,
            BluetoothProxyFeature::CacheClearing => 4,
            BluetoothProxyFeature::RawAdvertisements => 5,
        }
    }
}

impl BluetoothProxyFeature {
    /// The features that a device states by the version of its proxy alone,
    /// each with the first version that has it.
    pub open spec fn spec_legacy_table() -> Seq<(u8, BluetoothProxyFeature)> {
        seq![
            (1u8, BluetoothProxyFeature::PassiveScan),
            (2u8, BluetoothProxyFeature::ActiveConnections),
            (3u8, BluetoothProxyFeature::RemoteCaching),
            (4u8, BluetoothProxyFeature::Pairing),
            (5u8, BluetoothProxyFeature::CacheClearing),
        ]
    }

    /// The byte of the features of a proxy of the given version.
    pub open spec fn spec_legacy_bits(version: u8) -> u8 {
        graded_bits(Self::spec_legacy_table(), version)
    }

    /// The features of a proxy of the given version.
    pub fn from_legacy_version(version: u8) -> (features: FlagSet<BluetoothProxyFeature>)
        ensures
            features.spec_bits() == Self::spec_legacy_bits(version),
    {
        let table = [
            (1u8, BluetoothProxyFeature::PassiveScan),
            (2u8, BluetoothProxyFeature::ActiveConnections),
            (3u8, BluetoothProxyFeature::RemoteCaching),
            (4u8, BluetoothProxyFeature::Pairing),
            (5u8, BluetoothProxyFeature::CacheClearing),
        ];
        FlagSet::graded(table.as_slice(), version)
    }
}

/// A proxy of a given version has a feature exactly if the version has
/// reached the one that brought the feature. No version stands for raw
/// advertisements.
pub proof fn lemma_legacy_proxy_features(version: u8, feature: BluetoothProxyFeature)
    ensures
        members::<BluetoothProxyFeature>(
            BluetoothProxyFeature::spec_legacy_bits(version),
        ).contains(feature) <==> (match feature {
            BluetoothProxyFeature::PassiveScan => version >= 1,
            BluetoothProxyFeature::ActiveConnections => version >= 2,
            BluetoothProxyFeature::RemoteCaching => version >= 3,
            BluetoothProxyFeature::Pairing => version >= 4,
            BluetoothProxyFeature::CacheClearing => version >= 5,
            BluetoothProxyFeature::RawAdvertisements => false,
        }),
{
    let table = BluetoothProxyFeature::spec_legacy_table();
    lemma_members_graded(table, version, feature);
    assert(table[0].1 == BluetoothProxyFeature::PassiveScan && table[0].0 == 1);
    assert(table[1].1 == BluetoothProxyFeature::ActiveConnections && table[1].0 == 2);
    assert(table[2].1 == BluetoothProxyFeature::RemoteCaching && table[2].0 == 3);
    assert(table[3].1 == BluetoothProxyFeature::Pairing && table[3].0 == 4);
    assert(table[4].1 == BluetoothProxyFeature::CacheClearing && table[4].0 == 5);
}

/// Each version of the proxy up to the fifth has every feature of the
/// version before it, and one more.
pub proof fn lemma_legacy_proxy_features_grow(version: u8)
    requires
        version < 5,
    ensures
        members::<BluetoothProxyFeature>(
            BluetoothProxyFeature::spec_legacy_bits(version),
        ).subset_of(
            members::<BluetoothProxyFeature>(
                BluetoothProxyFeature::spec_legacy_bits((version + 1) as u8),
            ),
        ),
        members::<BluetoothProxyFeature>(BluetoothProxyFeature::spec_legacy_bits(version))
            != members::<BluetoothProxyFeature>(
            BluetoothProxyFeature::spec_legacy_bits((version + 1) as u8),
        ),
        BluetoothProxyFeature::spec_legacy_bits(version) != BluetoothProxyFeature::spec_legacy_bits(
            (version + 1) as u8,
        ),
{
    let next = (version + 1) as u8;
    let lower = members::<BluetoothProxyFeature>(BluetoothProxyFeature::spec_legacy_bits(version));
    let upper = members::<BluetoothProxyFeature>(BluetoothProxyFeature::spec_legacy_bits(next));
    assert forall|feature: BluetoothProxyFeature| lower.contains(feature) implies upper.contains(
        feature,
    ) by {
        lemma_legacy_proxy_features(version, feature);
        lemma_legacy_proxy_features(next, feature);
    }
    let added = BluetoothProxyFeature::spec_legacy_table()[version as int].1;
    lemma_legacy_proxy_features(version, added);
    lemma_legacy_proxy_features(next, added);
}

/// The byte of the features of a proxy, version by version.
pub proof fn lemma_legacy_proxy_bits(version: u8)
    ensures
        BluetoothProxyFeature::spec_legacy_bits(version) == (if version >= 5 {
            0b1_1111u8
        } else if version >= 4 {
            0b1111u8
        } else if version >= 3 {
            0b111u8
        } else if version >= 2 {
            0b11u8
        } else if version >= 1 {
            0b1u8
        } else {
            0u8
        }),
{
    let t5 = BluetoothProxyFeature::spec_legacy_table();
    let t4 = t5.drop_last();
    let t3 = t4.drop_last();
    let t2 = t3.drop_last();
    let t1 = t2.drop_last();
    let t0 = t1.drop_last();
    assert(graded_bits(t0, version) == 0);
    assert(0u8 | (1u8 << 0u8) == 0b1u8) by (bit_vector);
    assert(0b1u8 | (1u8 << 1u8) == 0b11u8) by (bit_vector);
    assert(0b11u8 | (1u8 << 2u8) == 0b111u8) by (bit_vector);
    assert(0b111u8 | (1u8 << 3u8) == 0b1111u8) by (bit_vector);
    assert(0b1111u8 | (1u8 << 4u8) == 0b1_1111u8) by (bit_vector);
    assert(graded_bits(t1, version) == if version >= 1 {
        0b1u8
    } else {
        0u8
    });
    assert(graded_bits(t2, version) == if version >= 2 {
        0b11u8
    } else {
        graded_bits(t1, version)
    });
    assert(graded_bits(t3, version) == if version >= 3 {
        0b111u8
    } else {
        graded_bits(t2, version)
    });
    assert(graded_bits(t4, version) == if version >= 4 {
        0b1111u8
    } else {
        graded_bits(t3, version)
    });
}

/// What a client can ask of a Bluetooth proxy when it subscribes.
#[derive(Debug, Clone, Copy, PartialEq, Eq)]
pub enum BluetoothProxySubscriptionFlag {
    RawAdvertisements,
}

impl Flag for BluetoothProxySubscriptionFlag {
    open spec fn spec_position(self) -> u8 {
        0
    }

    proof fn lemma_position_in_byte(self) {
    }

    proof fn lemma_position_distinct(self, other: Self) {
    }

    fn position(self) -> (position: u8) {
        0
    }
}

/// Whether a proxy is connected to a device.
pub struct BluetoothDeviceConnection {
    pub address: u64,
    pub connected: bool,
    pub mtu: u16,
    pub error: u8,
}

/// How pairing with a device went.
pub struct BluetoothDevicePairing {
    pub address: u64,
    pub paired: bool,
    pub error: u8,
}

/// How unpairing from a device went.
pub struct BluetoothDeviceUnpairing {
    pub address: u64,
    pub success: bool,
    pub error: u8,
}

/// How clearing the cache of a device went.
pub struct BluetoothDeviceClearCache {
    pub address: u64,
    pub success: bool,
    pub error: u8,
}

/// What a proxy read from a handle of a device.
pub struct BluetoothGATTRead {
    pub address: u64,
    pub handle: u16,
    pub data: Vec<u8>,
}

/// A descriptor of a GATT characteristic.
pub struct BluetoothGATTDescriptor {
    pub uuid: String,
    pub handle: u16,
}

/// A characteristic of a GATT service.
pub struct BluetoothGATTCharacteristic {
    pub uuid: String,
    pub handle: u16,
    pub properties: u8,
    pub descriptors: Vec<BluetoothGATTDescriptor>,
}

/// A GATT service of a device.
pub struct BluetoothGATTService {
    pub uuid: String,
    pub handle: u16,
    pub characteristics: Vec<BluetoothGATTCharacteristic>,
}

/// The GATT services of a device.
pub struct BluetoothGATTServices {
    pub address: u64,
    pub services: Vec<BluetoothGATTService>,
}

/// The GATT services of a device, as a proxy lists them.
pub struct ESPHomeBluetoothGATTServices {
    pub address: u64,
    pub services: Vec<BluetoothGATTService>,
}

/// How many connections a proxy has left.
pub struct BluetoothConnectionsFree {
    pub free: u8,
    pub limit: u8,
}

/// What went wrong at a handle of a device.
pub struct BluetoothGATTError {
    pub address: u64,
    pub handle: u16,
    pub error: u8,
}

/// What a client can ask a proxy to do with a device.
#[derive(Debug, Clone, Copy, PartialEq, Eq)]
pub enum BluetoothDeviceRequestType {
    Connect,
    Disconnect,
    Pair,
    Unpair,
    ConnectV3WithCache,
    ConnectV3WithoutCache,
    ClearCache,
}

} // verus!
