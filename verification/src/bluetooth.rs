//! Bluetooth Low Energy advertisements.
//!
//! A proxy forwards an advertisement with its payloads in one of two
//! encodings and with UUIDs as the device spelt them. [`BluetoothLEAdvertisement::from_pb`]
//! brings it into one form: payloads as bytes, UUIDs canonical, company
//! identifiers as numbers.

use crate::company_id::{parse_company_id, spec_parse_company_id};
use crate::proto;
use crate::uuid::{spec_uuid_convert, uuid_convert};
use std::collections::HashMap;
use vstd::hash_map::StringHashMap;
use vstd::prelude::*;

verus! {

/// What went wrong with one entry of a message.
#[derive(Debug, Clone, Copy, PartialEq, Eq)]
pub enum DecodeError {
    /// The entry of manufacturer data at `index` names its company by
    /// something other than a 16-bit number.
    InvalidCompanyId { index: usize },
}

/// A Bluetooth Low Energy advertisement in its normal form.
pub struct BluetoothLEAdvertisement {
    pub address: u64,
    pub rssi: i32,
    pub address_type: u32,
    pub name: String,
    pub service_uuids: Vec<String>,
    pub service_data: StringHashMap<Vec<u8>>,
    pub manufacturer_data: HashMap<u16, Vec<u8>>,
}

/// What an advertisement says: the plain fields as they are, the texts and
/// the payloads by their contents.
pub struct AdvertisementView {
    pub address: u64,
    pub rssi: i32,
    pub address_type: u32,
    pub name: Seq<char>,
    pub service_uuids: Seq<Seq<char>>,
    pub service_data: Map<Seq<char>, Seq<u8>>,
    pub manufacturer_data: Map<u16, Seq<u8>>,
}

impl View for BluetoothLEAdvertisement {
    type V = AdvertisementView;

    open spec fn view(&self) -> AdvertisementView {
        AdvertisementView {
            address: self.address,
            rssi: self.rssi,
            address_type: self.address_type,
            name: self.name@,
            service_uuids: texts(self.service_uuids@),
            service_data: payloads(self.service_data@),
            manufacturer_data: payloads(self.manufacturer_data@),
        }
    }
}

/// The bytes that a map holds under each of its keys.
pub open spec fn payloads<K>(map: Map<K, Vec<u8>>) -> Map<K, Seq<u8>> {
    map.map_values(|bytes: Vec<u8>| bytes@)
}

/// The service UUIDs of a message, each in its canonical form.
pub open spec fn canonical_uuids(uuids: Seq<String>) -> Seq<Seq<char>> {
    Seq::new(uuids.len(), |i: int| spec_uuid_convert(uuids[i]@))
}

/// The text of each string of a list.
pub open spec fn texts(strings: Seq<String>) -> Seq<Seq<char>> {
    Seq::new(strings.len(), |i: int| strings[i]@)
}

/// The bytes of a payload in the older encoding: every number gives two
/// bytes, the low one first.
pub open spec fn little_endian_pairs(words: Seq<u16>) -> Seq<u8> {
    Seq::new(
        2 * words.len(),
        |i: int|
            if i % 2 == 0 {
                (words[i / 2] % 256) as u8
            } else {
                (words[i / 2] / 256) as u8
            },
    )
}

/// Whether a list of entries is in the older encoding. The first entry
/// decides for the whole list: it is, if that entry carries no bytes.
pub open spec fn uses_legacy_encoding(items: Seq<proto::BluetoothServiceData>) -> bool {
    items.len() > 0 && items[0].data@.len() == 0
}

/// The payload of one entry under the encoding of its list.
pub open spec fn payload(item: proto::BluetoothServiceData, legacy: bool) -> Seq<u8> {
    if legacy {
        little_endian_pairs(item.legacy_data@)
    } else {
        item.data@
    }
}

/// The manufacturer data that a list of entries amounts to: each entry whose
/// identifier is well-formed is written under it, in the order of the list,
/// so that of two entries with one identifier the later one stays.
pub open spec fn manufacturer_entries(
    items: Seq<proto::BluetoothServiceData>,
    legacy: bool,
) -> Map<u16, Seq<u8>>
    decreases items.len(),
{
    if items.len() == 0 {
        Map::empty()
    } else {
        let earlier = manufacturer_entries(items.drop_last(), legacy);
        match spec_parse_company_id(items.last().uuid@) {
            Some(id) => earlier.insert(id, payload(items.last(), legacy)),
            None => earlier,
        }
    }
}

/// The entries of a list of manufacturer data that are left out because
/// their identifier is malformed, in the order of the list.
pub open spec fn rejected_entries(items: Seq<proto::BluetoothServiceData>) -> Seq<DecodeError>
    decreases items.len(),
{
    if items.len() == 0 {
        Seq::empty()
    } else {
        let earlier = rejected_entries(items.drop_last());
        match spec_parse_company_id(items.last().uuid@) {
            Some(_) => earlier,
            None => earlier.push(
                DecodeError::InvalidCompanyId { index: (items.len() - 1) as usize },
            ),
        }
    }
}

/// The service data that a list of entries amounts to: each entry is written
/// under its canonical UUID, in the order of the list, so that of two entries
/// with one UUID the later one stays.
pub open spec fn service_entries(items: Seq<proto::BluetoothServiceData>, legacy: bool) -> Map<
    Seq<char>,
    Seq<u8>,
>
    decreases items.len(),
{
    if items.len() == 0 {
        Map::empty()
    } else {
        service_entries(items.drop_last(), legacy).insert(
            spec_uuid_convert(items.last().uuid@),
            payload(items.last(), legacy),
        )
    }
}

/// What the advertisement of a message says.
pub open spec fn spec_from_pb(data: proto::BluetoothLEAdvertisementResponse) -> AdvertisementView {
    AdvertisementView {
        address: data.address,
        rssi: data.rssi,
        address_type: data.address_type,
        name: data.name@,
        service_uuids: canonical_uuids(data.service_uuids@),
        service_data: service_entries(
            data.service_data@,
            uses_legacy_encoding(data.service_data@),
        ),
        manufacturer_data: manufacturer_entries(
            data.manufacturer_data@,
            uses_legacy_encoding(data.manufacturer_data@),
        ),
    }
}

/// The bytes of a payload in the older encoding.
pub fn expand_legacy_data(words: &Vec<u16>) -> (bytes: Vec<u8>)
    ensures
        bytes@ == little_endian_pairs(words@),
{
    let mut bytes: Vec<u8> = Vec::new();
    let mut i: usize = 0;
    while i < words.len()
        invariant
            i <= words.len(),
            bytes@ == little_endian_pairs(words@.take(i as int)),
        decreases words.len() - i,
    {
        let word: u16 = words[i];
        bytes.push((word % 256) as u8);
        bytes.push((word / 256) as u8);
        i += 1;
    }
    bytes
}

/// Whether a list of entries is in the older encoding.
pub fn is_legacy_encoded(items: &Vec<proto::BluetoothServiceData>) -> (legacy: bool)
    ensures
        legacy == uses_legacy_encoding(items@),
{
    items.len() > 0 && items[0].data.len() == 0
}

/// The payload of one entry under the encoding of its list.
pub fn decode_payload(item: &proto::BluetoothServiceData, legacy: bool) -> (bytes: Vec<u8>)
    ensures
        bytes@ == payload(*item, legacy),
{
    if legacy {
        expand_legacy_data(&item.legacy_data)
    } else {
        item.data.clone()
    }
}

/// Decodes a list of manufacturer data. An entry whose company identifier is
/// malformed is left out of the map and reported; the entries around it are
/// decoded all the same.
pub fn decode_manufacturer_data(items: &Vec<proto::BluetoothServiceData>) -> (decoded: (
    HashMap<u16, Vec<u8>>,
    Vec<DecodeError>,
))
    ensures
        payloads(decoded.0@) == manufacturer_entries(items@, uses_legacy_encoding(items@)),
        decoded.1@ == rejected_entries(items@),
{
    let legacy = is_legacy_encoded(items);
    let mut map: HashMap<u16, Vec<u8>> = HashMap::new();
    let mut errors: Vec<DecodeError> = Vec::new();
    let mut i: usize = 0;
    while i < items.len()
        invariant
            i <= items.len(),
            payloads(map@) == manufacturer_entries(items@.take(i as int), legacy),
            errors@ == rejected_entries(items@.take(i as int)),
        decreases items.len() - i,
    {
        proof {
            assert(items@.take(i + 1).drop_last() =~= items@.take(i as int));
        }
        let item = &items[i];
        match parse_company_id(item.uuid.as_str()) {
            Some(id) => {
                map.insert(id, decode_payload(item, legacy));
            },
            None => {
                errors.push(DecodeError::InvalidCompanyId { index: i });
            },
        }
        i += 1;
    }
    assert(items@.take(i as int) =~= items@);
    (map, errors)
}

/// Decodes a list of service data.
pub fn decode_service_data(items: &Vec<proto::BluetoothServiceData>) -> (map: StringHashMap<
    Vec<u8>,
>)
    ensures
        payloads(map@) == service_entries(items@, uses_legacy_encoding(items@)),
{
    let legacy = is_legacy_encoded(items);
    let mut map: StringHashMap<Vec<u8>> = StringHashMap::new();
    let mut i: usize = 0;
    while i < items.len()
        invariant
            i <= items.len(),
            payloads(map@) == service_entries(items@.take(i as int), legacy),
        decreases items.len() - i,
    {
        proof {
            assert(items@.take(i + 1).drop_last() =~= items@.take(i as int));
        }
        let item = &items[i];
        map.insert(uuid_convert(item.uuid.clone()), decode_payload(item, legacy));
        i += 1;
    }
    assert(items@.take(i as int) =~= items@);
    map
}

/// Brings each service UUID of a message into its canonical form. The order
/// stays, and so does a UUID that occurs twice.
pub fn convert_service_uuids(uuids: &Vec<String>) -> (canonical: Vec<String>)
    ensures
        texts(canonical@) == canonical_uuids(uuids@),
{
    let mut canonical: Vec<String> = Vec::new();
    let mut i: usize = 0;
    while i < uuids.len()
        invariant
            i <= uuids.len(),
            canonical@.len() == i,
            texts(canonical@) == canonical_uuids(uuids@.take(i as int)),
        decreases uuids.len() - i,
    {
        let ghost before = canonical@;
        let uuid = uuid_convert(uuids[i].clone());
        canonical.push(uuid);
        i += 1;
        proof {
            let now = canonical_uuids(uuids@.take(i as int));
            assert forall|j: int| 0 <= j < i implies texts(canonical@)[j] == now[j] by {
                if j < i - 1 {
                    assert(texts(before)[j] == canonical_uuids(uuids@.take(i - 1))[j]);
                }
            }
        }
    }
    canonical
}

impl BluetoothLEAdvertisement {
    /// Brings an advertisement into its normal form. The second part of the
    /// result lists the entries of manufacturer data that had to be left out.
    pub fn from_pb(data: proto::BluetoothLEAdvertisementResponse) -> (decoded: (
        Self,
        Vec<DecodeError>,
    ))
        ensures
            decoded.0@ == spec_from_pb(data),
            decoded.1@ == rejected_entries(data.manufacturer_data@),
    {
        let (manufacturer_data, errors) = decode_manufacturer_data(&data.manufacturer_data);
        let service_data = decode_service_data(&data.service_data);
        let service_uuids = convert_service_uuids(&data.service_uuids);
        let advertisement = BluetoothLEAdvertisement {
            address: data.address,
            rssi: data.rssi,
            address_type: data.address_type,
            name: data.name,
            service_uuids,
            service_data,
            manufacturer_data,
        };
        (advertisement, errors)
    }
}

/// The manufacturer data has an entry for a company exactly if some entry
/// of the list names that company.
pub proof fn lemma_manufacturer_companies(
    items: Seq<proto::BluetoothServiceData>,
    legacy: bool,
    id: u16,
)
    ensures
        manufacturer_entries(items, legacy).contains_key(id) <==> exists|i: int|
            0 <= i < items.len() && spec_parse_company_id(#[trigger] items[i].uuid@) == Some(id),
    decreases items.len(),
{
    if items.len() > 0 {
        let front = items.drop_last();
        lemma_manufacturer_companies(front, legacy, id);
        let named = exists|i: int|
            0 <= i < items.len() && spec_parse_company_id(#[trigger] items[i].uuid@) == Some(id);
        let named_before = exists|i: int|
            0 <= i < front.len() && spec_parse_company_id(#[trigger] front[i].uuid@) == Some(id);
        if named {
            let i = choose|i: int|
                0 <= i < items.len() && spec_parse_company_id(#[trigger] items[i].uuid@) == Some(
                    id,
                );
            if i < items.len() - 1 {
                assert(spec_parse_company_id(front[i].uuid@) == Some(id));
            }
        }
        if named_before {
            let i = choose|i: int|
                0 <= i < front.len() && spec_parse_company_id(#[trigger] front[i].uuid@) == Some(
                    id,
                );
            assert(spec_parse_company_id(items[i].uuid@) == Some(id));
        }
    }
}

/// Of the entries that name one company the last one stays: the manufacturer
/// data holds its payload, whatever the entries before it carried.
pub proof fn lemma_manufacturer_last_stays(
    items: Seq<proto::BluetoothServiceData>,
    legacy: bool,
    i: int,
    id: u16,
)
    requires
        0 <= i < items.len(),
        spec_parse_company_id(items[i].uuid@) == Some(id),
        forall|j: int|
            i < j < items.len() ==> spec_parse_company_id(#[trigger] items[j].uuid@) != Some(id),
    ensures
        manufacturer_entries(items, legacy).contains_key(id),
        manufacturer_entries(items, legacy)[id] == payload(items[i], legacy),
    decreases items.len(),
{
    let front = items.drop_last();
    if i < items.len() - 1 {
        assert forall|j: int| i < j < front.len() implies spec_parse_company_id(
            #[trigger] front[j].uuid@,
        ) != Some(id) by {
            assert(front[j] == items[j]);
        }
        lemma_manufacturer_last_stays(front, legacy, i, id);
    }
}

/// The entries that are left out are those whose company identifier is
/// malformed, each once and in the order of the list.
pub proof fn lemma_rejected_entries(items: Seq<proto::BluetoothServiceData>)
    requires
        items.len() <= usize::MAX,
    ensures
        forall|k: int|
            0 <= k < rejected_entries(items).len() ==> (#[trigger] rejected_entries(
                items,
            )[k])->index < items.len() && spec_parse_company_id(
                items[rejected_entries(items)[k]->index as int].uuid@,
            ) is None,
        forall|k: int, l: int|
            0 <= k < l < rejected_entries(items).len() ==> (#[trigger] rejected_entries(
                items,
            )[k])->index < (#[trigger] rejected_entries(items)[l])->index,
        forall|i: int|
            0 <= i < items.len() && spec_parse_company_id(#[trigger] items[i].uuid@) is None
                ==> rejected_entries(items).contains(
                DecodeError::InvalidCompanyId { index: i as usize },
            ),
        rejected_entries(items).len() <= items.len(),
    decreases items.len(),
{
    if items.len() > 0 {
        let front = items.drop_last();
        lemma_rejected_entries(front);
        let earlier = rejected_entries(front);
        let now = rejected_entries(items);
        let last = items.len() - 1;
        assert forall|i: int|
            0 <= i < items.len() && spec_parse_company_id(
                #[trigger] items[i].uuid@,
            ) is None implies now.contains(DecodeError::InvalidCompanyId { index: i as usize }) by {
            if i < last {
                assert(front[i] == items[i]);
                let error = DecodeError::InvalidCompanyId { index: i as usize };
                let k = choose|k: int| 0 <= k < earlier.len() && earlier[k] == error;
                assert(now[k] == error);
            } else {
                assert(now[now.len() - 1] == DecodeError::InvalidCompanyId { index: i as usize });
            }
        }
        assert forall|k: int| 0 <= k < now.len() implies (#[trigger] now[k])->index < items.len()
            && spec_parse_company_id(items[now[k]->index as int].uuid@) is None by {
            if k < earlier.len() {
                assert(now[k] == earlier[k]);
            }
        }
        assert forall|k: int, l: int| 0 <= k < l < now.len() implies (#[trigger] now[k])->index < (
        #[trigger] now[l])->index by {
            assert(now[k] == earlier[k]);
        }
    }
}

/// The service data has an entry for a UUID exactly if some entry of the
/// list has that UUID for its canonical form.
pub proof fn lemma_service_uuids(
    items: Seq<proto::BluetoothServiceData>,
    legacy: bool,
    uuid: Seq<char>,
)
    ensures
        service_entries(items, legacy).contains_key(uuid) <==> exists|i: int|
            0 <= i < items.len() && spec_uuid_convert(#[trigger] items[i].uuid@) == uuid,
    decreases items.len(),
{
    if items.len() > 0 {
        let front = items.drop_last();
        lemma_service_uuids(front, legacy, uuid);
        let named = exists|i: int|
            0 <= i < items.len() && spec_uuid_convert(#[trigger] items[i].uuid@) == uuid;
        let named_before = exists|i: int|
            0 <= i < front.len() && spec_uuid_convert(#[trigger] front[i].uuid@) == uuid;
        if named {
            let i = choose|i: int|
                0 <= i < items.len() && spec_uuid_convert(#[trigger] items[i].uuid@) == uuid;
            if i < items.len() - 1 {
                assert(spec_uuid_convert(front[i].uuid@) == uuid);
            }
        }
        if named_before {
            let i = choose|i: int|
                0 <= i < front.len() && spec_uuid_convert(#[trigger] front[i].uuid@) == uuid;
            assert(spec_uuid_convert(items[i].uuid@) == uuid);
        }
    }
}

/// Of the entries with one canonical UUID the last one stays: the service
/// data holds its payload, whatever the entries before it carried.
pub proof fn lemma_service_last_stays(
    items: Seq<proto::BluetoothServiceData>,
    legacy: bool,
    i: int,
)
    requires
        0 <= i < items.len(),
        forall|j: int|
            i < j < items.len() ==> spec_uuid_convert(#[trigger] items[j].uuid@)
                != spec_uuid_convert(items[i].uuid@),
    ensures
        service_entries(items, legacy).contains_key(spec_uuid_convert(items[i].uuid@)),
        service_entries(items, legacy)[spec_uuid_convert(items[i].uuid@)] == payload(
            items[i],
            legacy,
        ),
    decreases items.len(),
{
    let front = items.drop_last();
    if i < items.len() - 1 {
        assert forall|j: int| i < j < front.len() implies spec_uuid_convert(
            #[trigger] front[j].uuid@,
        ) != spec_uuid_convert(front[i].uuid@) by {
            assert(front[j] == items[j]);
        }
        lemma_service_last_stays(front, legacy, i);
    }
}

/// A payload in the older encoding has two bytes for every number: the low
/// byte of the number, then its high byte.
pub proof fn lemma_little_endian_pairs(words: Seq<u16>, i: int)
    requires
        0 <= i < words.len(),
    ensures
        little_endian_pairs(words).len() == 2 * words.len(),
        little_endian_pairs(words)[2 * i] + 256 * little_endian_pairs(words)[2 * i + 1]
            == words[i],
{
    assert((2 * i) / 2 == i && (2 * i + 1) / 2 == i);
}

/// Decoding an advertisement twice gives one answer: what the function may
/// return is fixed by the message.
pub proof fn lemma_from_pb_repeatable(
    data: proto::BluetoothLEAdvertisementResponse,
    first: (BluetoothLEAdvertisement, Vec<DecodeError>),
    second: (BluetoothLEAdvertisement, Vec<DecodeError>),
)
    requires
        call_ensures(BluetoothLEAdvertisement::from_pb, (data,), first),
        call_ensures(BluetoothLEAdvertisement::from_pb, (data,), second),
    ensures
        first.0@ == second.0@,
        first.1@ == second.1@,
{
}

} // verus!
