//! What an iTag advertises: its name, the 16-bit service UUIDs it lists,
//! and its manufacturer data.
//!
//! Advertising data is decoded into its AD structures by `trouble-host`.
//! The decoded structures are carried here as [`AdItem`]s, and the questions
//! the scanner asks are answered over them.

use vstd::prelude::*;
use vstd::utf8::{valid_utf8, encode_utf8};
use vstd::string::StringSliceAdditionalSpecFns;
use trouble_host::advertise::AdStructure;

verus! {

/// One decoded AD structure, as far as the scanner looks at it.
pub enum AdItem {
    /// Incomplete list of 16-bit service UUIDs, little-endian.
    IncompleteServiceUuids16(Vec<[u8; 2]>),
    /// Complete list of 16-bit service UUIDs, little-endian.
    CompleteServiceUuids16(Vec<[u8; 2]>),
    /// The full device name, as raw bytes.
    CompleteLocalName(Vec<u8>),
    /// A shortened device name, as raw bytes.
    ShortenedLocalName(Vec<u8>),
    /// Manufacturer specific data, by company identifier.
    ManufacturerSpecificData(u16),
    /// Any other well-formed structure.
    Other,
    /// A structure that failed to decode.
    Malformed,
}

/// An [`AdItem`] with its byte lists as sequences.
pub ghost enum AdItemView {
    IncompleteServiceUuids16(Seq<[u8; 2]>),
    CompleteServiceUuids16(Seq<[u8; 2]>),
    CompleteLocalName(Seq<u8>),
    ShortenedLocalName(Seq<u8>),
    ManufacturerSpecificData(u16),
    Other,
    Malformed,
}

impl View for AdItem {
    type V = AdItemView;

    open spec fn view(&self) -> AdItemView {
        match self {
            AdItem::IncompleteServiceUuids16(u) => AdItemView::IncompleteServiceUuids16(u@),
            AdItem::CompleteServiceUuids16(u) => AdItemView::CompleteServiceUuids16(u@),
            AdItem::CompleteLocalName(n) => AdItemView::CompleteLocalName(n@),
            AdItem::ShortenedLocalName(n) => AdItemView::ShortenedLocalName(n@),
            AdItem::ManufacturerSpecificData(c) => AdItemView::ManufacturerSpecificData(*c),
            AdItem::Other => AdItemView::Other,
            AdItem::Malformed => AdItemView::Malformed,
        }
    }
}

/// The structures `trouble_host::advertise::AdStructure::decode` yields for
/// advertising data `data`, in order.
pub uninterp spec fn ad_structures(data: Seq<u8>) -> Seq<AdItemView>;

/// The views of decoded items.
pub open spec fn item_views(items: Seq<AdItem>) -> Seq<AdItemView> {
    items.map_values(|i: AdItem| i@)
}

/// `trouble_host::advertise::AdStructure::decode`: splits advertising data
/// into AD structures. Each structure is converted one for one into an
/// [`AdItem`]; a decoding error becomes [`AdItem::Malformed`].
#[verifier::external_body]
pub(crate) fn decode_ad_structures(data: &[u8]) -> (items: Vec<AdItem>)
    ensures
        item_views(items@) == ad_structures(data@),
{
    let mut items = Vec::new();
    for s in AdStructure::decode(data) {
        items.push(match s {
            Ok(AdStructure::IncompleteServiceUuids16(u)) => AdItem::IncompleteServiceUuids16(u.to_vec()),
            Ok(AdStructure::CompleteServiceUuids16(u)) => AdItem::CompleteServiceUuids16(u.to_vec()),
            Ok(AdStructure::CompleteLocalName(n)) => AdItem::CompleteLocalName(n.to_vec()),
            Ok(AdStructure::ShortenedLocalName(n)) => AdItem::ShortenedLocalName(n.to_vec()),
            Ok(AdStructure::ManufacturerSpecificData { company_identifier, .. }) => AdItem::ManufacturerSpecificData(company_identifier),
            Ok(_) => AdItem::Other,
            Err(_) => AdItem::Malformed,
        });
    }
    items
}

/// `core::str::from_utf8`: the bytes as a string slice when they are valid
/// UTF-8, `None` otherwise.
#[verifier::external_body]
pub(crate) fn str_from_utf8(bytes: &[u8]) -> (s: Option<&str>)
    ensures
        s is Some <==> valid_utf8(bytes@),
        s matches Some(t) ==> t.spec_bytes() == bytes@,
{
    core::str::from_utf8(bytes).ok()
}

/// The UTF-8 bytes of an optional string.
pub open spec fn string_bytes(s: Option<String>) -> Option<Seq<u8>> {
    match s {
        Some(t) => Some(encode_utf8(t@)),
        None => None,
    }
}

/// `i` is the first complete-name structure.
pub open spec fn first_complete_name(items: Seq<AdItemView>, i: int) -> bool {
    &&& 0 <= i < items.len()
    &&& items[i] is CompleteLocalName
    &&& forall|j: int| 0 <= j < i ==> !(#[trigger] items[j] is CompleteLocalName)
}

/// Whether a structure is a shortened name in valid UTF-8.
pub open spec fn is_valid_short_name(item: AdItemView) -> bool {
    item matches AdItemView::ShortenedLocalName(b) && valid_utf8(b)
}

/// `i` is the first shortened name in valid UTF-8.
pub open spec fn first_valid_short_name(items: Seq<AdItemView>, i: int) -> bool {
    &&& 0 <= i < items.len()
    &&& is_valid_short_name(items[i])
    &&& forall|j: int| 0 <= j < i ==> !is_valid_short_name(#[trigger] items[j])
}

/// The advertised name: the first complete name if there is one (and
/// nothing if it is not valid UTF-8); else the first shortened name that is
/// valid UTF-8; else nothing.
pub open spec fn spec_advertised_name(items: Seq<AdItemView>) -> Option<Seq<u8>> {
    if exists|i: int| first_complete_name(items, i) {
        let i = choose|i: int| first_complete_name(items, i);
        let b = items[i]->CompleteLocalName_0;
        if valid_utf8(b) {
            Some(b)
        } else {
            None
        }
    } else if exists|i: int| first_valid_short_name(items, i) {
        let i = choose|i: int| first_valid_short_name(items, i);
        Some(items[i]->ShortenedLocalName_0)
    } else {
        None
    }
}

proof fn lemma_first_complete_unique(items: Seq<AdItemView>, i: int, k: int)
    requires
        first_complete_name(items, i),
        first_complete_name(items, k),
    ensures
        i == k,
{
    if k < i {
        assert(!(items[k] is CompleteLocalName));
    }
    if i < k {
        assert(!(items[i] is CompleteLocalName));
    }
}

proof fn lemma_first_short_unique(items: Seq<AdItemView>, i: int, k: int)
    requires
        first_valid_short_name(items, i),
        first_valid_short_name(items, k),
    ensures
        i == k,
{
    if k < i {
        assert(!is_valid_short_name(items[k]));
    }
    if i < k {
        assert(!is_valid_short_name(items[i]));
    }
}

/// The bytes as an owned string, when they are valid UTF-8.
fn owned_utf8(bytes: &Vec<u8>) -> (s: Option<String>)
    ensures
        s is Some <==> valid_utf8(bytes@),
        s matches Some(t) ==> encode_utf8(t@) == bytes@,
{
    match str_from_utf8(bytes.as_slice()) {
        Some(t) => Some(t.to_owned()),
        None => None,
    }
}

/// The advertised name among decoded structures.
pub fn advertised_name_in(items: &Vec<AdItem>) -> (name: Option<String>)
    ensures
        string_bytes(name) == spec_advertised_name(item_views(items@)),
{
    let ghost views = item_views(items@);
    let mut shortened_name: Option<String> = None;
    let ghost mut short_at: int = -1;
    let mut i: usize = 0;
    while i < items.len()
        invariant
            i <= items.len(),
            views == item_views(items@),
            views.len() == items.len(),
            forall|j: int| 0 <= j < i ==> !(#[trigger] views[j] is CompleteLocalName),
            shortened_name is None ==> forall|j: int| 0 <= j < i ==> !is_valid_short_name(#[trigger] views[j]),
            shortened_name is Some ==> first_valid_short_name(views, short_at) && short_at < i
                && string_bytes(shortened_name) == Some(views[short_at]->ShortenedLocalName_0),
        decreases items.len() - i,
    {
        assert(views[i as int] == items@[i as int]@);
        match &items[i] {
            AdItem::CompleteLocalName(n) => {
                proof {
                    assert(first_complete_name(views, i as int));
                    let k = choose|k: int| first_complete_name(views, k);
                    lemma_first_complete_unique(views, i as int, k);
                }
                return owned_utf8(n);
            },
            AdItem::ShortenedLocalName(n) => {
                if shortened_name.is_none() {
                    shortened_name = owned_utf8(n);
                    proof {
                        if shortened_name is Some {
                            short_at = i as int;
                        }
                    }
                }
            },
            _ => {},
        }
        i = i + 1;
    }
    proof {
        assert(!exists|k: int| first_complete_name(views, k));
        if shortened_name is Some {
            let k = choose|k: int| first_valid_short_name(views, k);
            lemma_first_short_unique(views, short_at, k);
        } else {
            assert(!exists|k: int| first_valid_short_name(views, k));
        }
    }
    shortened_name
}

/// The name an advertisement carries, if any.
pub fn advertised_name(data: &[u8]) -> (name: Option<String>)
    ensures
        string_bytes(name) == spec_advertised_name(ad_structures(data@)),
{
    let items = decode_ad_structures(data);
    advertised_name_in(&items)
}

/// Whether a decoded structure carries manufacturer data of company `id`.
pub open spec fn is_manufacturer(item: AdItemView, id: u16) -> bool {
    item matches AdItemView::ManufacturerSpecificData(c) && c == id
}

/// Whether some decoded structure carries manufacturer data of company
/// `target_id`.
pub fn has_manufacturer_data_in(items: &Vec<AdItem>, target_id: u16) -> (found: bool)
    ensures
        found == exists|i: int| 0 <= i < items.len() && is_manufacturer(#[trigger] item_views(items@)[i], target_id),
{
    let ghost views = item_views(items@);
    let mut i: usize = 0;
    while i < items.len()
        invariant
            i <= items.len(),
            views == item_views(items@),
            forall|j: int| 0 <= j < i ==> !is_manufacturer(#[trigger] views[j], target_id),
        decreases items.len() - i,
    {
        assert(views[i as int] == items@[i as int]@);
        if let AdItem::ManufacturerSpecificData(company_identifier) = &items[i] {
            if *company_identifier == target_id {
                assert(is_manufacturer(views[i as int], target_id));
                return true;
            }
        }
        i = i + 1;
    }
    false
}

/// Whether an advertisement carries manufacturer data of company
/// `target_id`.
pub fn has_manufacturer_data(data: &[u8], target_id: u16) -> (found: bool)
    ensures
        found == exists|i: int| 0 <= i < ad_structures(data@).len() && is_manufacturer(#[trigger] ad_structures(data@)[i], target_id),
{
    let items = decode_ad_structures(data);
    has_manufacturer_data_in(&items, target_id)
}

/// The UUID a little-endian pair of bytes encodes.
pub open spec fn uuid16_le(bytes: [u8; 2]) -> int {
    bytes[0] + bytes[1] * 256
}

/// The 16-bit UUIDs a structure lists, if it is a UUID list.
pub open spec fn uuid_list(item: AdItemView) -> Seq<[u8; 2]> {
    match item {
        AdItemView::IncompleteServiceUuids16(u) => u,
        AdItemView::CompleteServiceUuids16(u) => u,
        _ => seq![],
    }
}

/// Whether a structure lists the 16-bit service UUID `uuid`.
pub open spec fn lists_uuid(item: AdItemView, uuid: u16) -> bool {
    exists|k: int| 0 <= k < uuid_list(item).len() && uuid16_le(#[trigger] uuid_list(item)[k]) == uuid
}

fn list_has_uuid(uuids: &Vec<[u8; 2]>, target_uuid: u16) -> (found: bool)
    ensures
        found == exists|k: int| 0 <= k < uuids@.len() && uuid16_le(#[trigger] uuids@[k]) == target_uuid,
{
    let mut k: usize = 0;
    while k < uuids.len()
        invariant
            k <= uuids.len(),
            forall|j: int| 0 <= j < k ==> uuid16_le(#[trigger] uuids@[j]) != target_uuid,
        decreases uuids.len() - k,
    {
        let uuid = uuids[k];
        let value: u16 = uuid[0] as u16 + uuid[1] as u16 * 256;
        if value == target_uuid {
            return true;
        }
        k = k + 1;
    }
    false
}

/// Whether some decoded structure lists the 16-bit service UUID
/// `target_uuid`.
pub fn has_service_uuid16_in(items: &Vec<AdItem>, target_uuid: u16) -> (found: bool)
    ensures
        found == exists|i: int| 0 <= i < items.len() && lists_uuid(#[trigger] item_views(items@)[i], target_uuid),
{
    let ghost views = item_views(items@);
    let mut i: usize = 0;
    while i < items.len()
        invariant
            i <= items.len(),
            views == item_views(items@),
            forall|j: int| 0 <= j < i ==> !lists_uuid(#[trigger] views[j], target_uuid),
        decreases items.len() - i,
    {
        assert(views[i as int] == items@[i as int]@);
        let found = match &items[i] {
            AdItem::IncompleteServiceUuids16(uuids) => {
                let f = list_has_uuid(uuids, target_uuid);
                proof {
                    if f {
                        let k = choose|k: int| 0 <= k < uuids@.len() && uuid16_le(uuids@[k]) == target_uuid;
                        assert(uuid_list(views[i as int])[k] == uuids@[k]);
                    }
                }
                f
            },
            AdItem::CompleteServiceUuids16(uuids) => {
                let f = list_has_uuid(uuids, target_uuid);
                proof {
                    if f {
                        let k = choose|k: int| 0 <= k < uuids@.len() && uuid16_le(uuids@[k]) == target_uuid;
                        assert(uuid_list(views[i as int])[k] == uuids@[k]);
                    }
                }
                f
            },
            _ => false,
        };
        if found {
            assert(lists_uuid(views[i as int], target_uuid));
            return true;
        }
        i = i + 1;
    }
    false
}

/// Whether an advertisement lists the 16-bit service UUID `target_uuid`.
pub fn has_service_uuid16(data: &[u8], target_uuid: u16) -> (found: bool)
    ensures
        found == exists|i: int| 0 <= i < ad_structures(data@).len() && lists_uuid(#[trigger] ad_structures(data@)[i], target_uuid),
{
    let items = decode_ad_structures(data);
    has_service_uuid16_in(&items, target_uuid)
}

} // verus!
