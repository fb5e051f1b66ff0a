//! How Garmin devices announce themselves, and their names.

use vstd::prelude::*;
use vstd::slice::*;
use vstd::string::*;
use vstd::utf8::*;

use super::protocol::{
    CDM_OFFSET_PRODUCT_ID, CDM_OFFSET_PRODUCT_SUBTYPE, CDM_OFFSET_SIMULATOR_MODE,
    CDM_OFFSET_VERSION_MARKER, MSG_CDM_PRODUCT_DATA_REQUEST, MSG_CDM_SET_ALIAS,
};
use crate::bytes;
use crate::bytes::{get_le16, push_all, push_le32};
use crate::text;
use crate::text::c_string;

verus! {

/// Length that a heartbeat body has at least.
pub const MIN_CDM_BODY_LEN: usize = 12;

/// Length that a product data body has at least.
pub const MIN_PRODUCT_DATA_LEN: usize = 0x42;

/// The longest device alias, in bytes.
pub const ALIAS_LEN: usize = 30;

/// What a heartbeat tells of a device.
#[derive(Clone, Copy, Debug, PartialEq, Eq, Structural)]
pub struct CdmHeartbeat {
    /// Always 2.
    pub version: u8,
    /// The product, see [`product_name`].
    pub product_id: u16,
    /// 0 for a real device.
    pub simulator_mode: u8,
    pub product_subtype: u8,
}

/// What a heartbeat body tells; `None` when it is too short or of another
/// version.
pub open spec fn heartbeat(payload: Seq<u8>) -> Option<CdmHeartbeat> {
    if payload.len() < MIN_CDM_BODY_LEN || payload[0] != 2 {
        None
    } else {
        Some(
            CdmHeartbeat {
                version: 2,
                product_id: bytes::le16(payload, 2) as u16,
                simulator_mode: payload[4],
                product_subtype: payload[5],
            },
        )
    }
}

/// Read a heartbeat body.
pub fn parse(payload: &[u8]) -> (r: Option<CdmHeartbeat>)
    ensures
        r == heartbeat(payload@),
{
    if payload.len() < MIN_CDM_BODY_LEN {
        return None;
    }
    let version: u8 = payload[CDM_OFFSET_VERSION_MARKER];
    if version != 2 {
        return None;
    }
    let product_id: u16 = get_le16(payload, CDM_OFFSET_PRODUCT_ID);
    Some(
        CdmHeartbeat {
            version,
            product_id,
            simulator_mode: payload[CDM_OFFSET_SIMULATOR_MODE],
            product_subtype: payload[CDM_OFFSET_PRODUCT_SUBTYPE],
        },
    )
}

/// The names of a device.
#[derive(Clone, Debug)]
pub struct CdmProductData {
    /// The name that the maker gave the model.
    pub device_name: String,
    /// The name that the user gave the device.
    pub device_alias: String,
}

/// What the names of a device are.
pub ghost struct ProductDataView {
    pub device_name: Seq<char>,
    pub device_alias: Seq<char>,
}

impl View for CdmProductData {
    type V = ProductDataView;

    open spec fn view(&self) -> ProductDataView {
        ProductDataView { device_name: self.device_name@, device_alias: self.device_alias@ }
    }
}

/// The names in a product data body; `None` when it is too short or a name is
/// not UTF-8.
pub open spec fn product_data(payload: Seq<u8>) -> Option<ProductDataView> {
    if payload.len() < MIN_PRODUCT_DATA_LEN {
        None
    } else {
        match (text::c_text(payload.subrange(4, 34)), text::c_text(payload.subrange(0x23, 66))) {
            (Some(device_name), Some(device_alias)) => Some(
                ProductDataView { device_name, device_alias },
            ),
            _ => None,
        }
    }
}

/// Read a product data body.
pub fn parse_product_data(payload: &[u8]) -> (r: Option<CdmProductData>)
    ensures
        r is Some <==> product_data(payload@) is Some,
        r matches Some(p) ==> product_data(payload@) == Some(p@),
{
    if payload.len() < MIN_PRODUCT_DATA_LEN {
        return None;
    }
    let device_name = match c_string(slice_subrange(payload, 4, 34)) {
        Some(s) => s,
        None => {
            return None;
        },
    };
    let device_alias = match c_string(slice_subrange(payload, 0x23, 66)) {
        Some(s) => s,
        None => {
            return None;
        },
    };
    Some(
        CdmProductData {
            device_name: String::from_str(device_name),
            device_alias: String::from_str(device_alias),
        },
    )
}

/// A request for product data: a header without a payload.
pub fn build_product_data_request() -> (r: [u8; 8])
    ensures
        r@ == bytes::le32_bytes(MSG_CDM_PRODUCT_DATA_REQUEST as int) + bytes::le32_bytes(0),
{
    let buf: [u8; 8] = [0x91, 0x03, 0, 0, 0, 0, 0, 0];
    assert(buf@ =~= bytes::le32_bytes(MSG_CDM_PRODUCT_DATA_REQUEST as int) + bytes::le32_bytes(0));
    buf
}

/// The bytes of an alias that are sent.
pub open spec fn alias_bytes(alias: Seq<char>) -> Seq<u8> {
    let all = encode_utf8(alias);
    if all.len() <= ALIAS_LEN {
        all
    } else {
        all.take(ALIAS_LEN as int)
    }
}

/// The packet that gives a device an alias: the first 30 bytes, then zeros.
pub open spec fn alias_packet(alias: Seq<char>) -> Seq<u8> {
    bytes::le32_bytes(MSG_CDM_SET_ALIAS as int) + bytes::le32_bytes(32) + alias_bytes(alias)
        + Seq::new((32 - alias_bytes(alias).len()) as nat, |i: int| 0u8)
}

/// Build the packet that gives a device an alias.
pub fn build_set_alias(alias: &str) -> (r: Vec<u8>)
    ensures
        r@ == alias_packet(alias@),
{
    let all = alias.as_bytes();
    let n: usize = if all.len() < ALIAS_LEN {
        all.len()
    } else {
        ALIAS_LEN
    };
    let mut buf: Vec<u8> = Vec::new();
    push_le32(&mut buf, MSG_CDM_SET_ALIAS);
    push_le32(&mut buf, 32);
    push_all(&mut buf, slice_subrange(all, 0, n));
    assert(all@.subrange(0, n as int) =~= alias_bytes(alias@));
    let ghost head = buf@;
    let mut i: usize = n;
    while i < 32
        invariant
            n <= i <= 32,
            n <= ALIAS_LEN,
            buf@ == head + Seq::new((i - n) as nat, |k: int| 0u8),
        decreases 32 - i,
    {
        buf.push(0);
        i += 1;
        assert(buf@ =~= head + Seq::new((i - n) as nat, |k: int| 0u8));
    }
    buf
}

/// The model name of a product, where it is known.
pub open spec fn product_label(product_id: u16) -> Option<Seq<char>> {
    if product_id == 0x010f {
        Some("GMR 18"@)
    } else if product_id == 0x0195 {
        Some("GMR 24 HD"@)
    } else if product_id == 0x01fd {
        Some("GMR 18 HD"@)
    } else if product_id == 0x021d || product_id == 0x0263 {
        Some("GMR (legacy)"@)
    } else if product_id == 0x06d0 {
        Some("GMR xHD"@)
    } else {
        None
    }
}

/// The model name of a product.
pub fn product_name(product_id: u16) -> (r: Option<&'static str>)
    ensures
        r is Some <==> product_label(product_id) is Some,
        r matches Some(s) ==> product_label(product_id) == Some(s@),
{
    match product_id {
        0x010f => Some("GMR 18"),
        0x0195 => Some("GMR 24 HD"),
        0x01fd => Some("GMR 18 HD"),
        0x021d => Some("GMR (legacy)"),
        0x0263 => Some("GMR (legacy)"),
        0x06d0 => Some("GMR xHD"),
        _ => None,
    }
}

proof fn lemma_no_nul_prefix(s: Seq<u8>, tail: Seq<u8>)
    requires
        forall|i: int| 0 <= i < s.len() ==> s[i] != 0,
        tail.len() == 0 || tail[0] == 0,
    ensures
        text::nul_position(s + tail) == s.len(),
    decreases s.len(),
{
    if s.len() == 0 {
        assert(s + tail =~= tail);
    } else {
        assert((s + tail).drop_first() =~= s.drop_first() + tail);
        lemma_no_nul_prefix(s.drop_first(), tail);
    }
}

/// An alias of at most 30 bytes without zeros is what a device reads from the
/// packet that sets it.
pub proof fn law_alias_arrives_whole(alias: Seq<char>)
    requires
        encode_utf8(alias).len() <= ALIAS_LEN,
        forall|i: int| 0 <= i < encode_utf8(alias).len() ==> encode_utf8(alias)[i] != 0,
    ensures
        alias_packet(alias).len() == 40,
        text::c_text(alias_packet(alias).subrange(8, 40)) == Some(alias),
{
    let all = encode_utf8(alias);
    let zeros = Seq::new((32 - all.len()) as nat, |i: int| 0u8);
    assert(alias_packet(alias).subrange(8, 40) =~= all + zeros);
    lemma_no_nul_prefix(all, zeros);
    assert(text::before_nul(all + zeros) =~= all);
    encode_utf8_valid_utf8(alias);
    encode_utf8_decode_utf8(alias);
}

/// A heartbeat reads back: the product, the mode and the subtype that were put into it.
pub proof fn law_heartbeat_reads_back(payload: Seq<u8>, product_id: u16, mode: u8, subtype: u8)
    requires
        payload.len() >= 12,
        payload[0] == 2,
        payload[2] == product_id as int % 0x100,
        payload[3] == product_id as int / 0x100,
        payload[4] == mode,
        payload[5] == subtype,
    ensures
        heartbeat(payload) == Some(
            CdmHeartbeat {
                version: 2,
                product_id,
                simulator_mode: mode,
                product_subtype: subtype,
            },
        ),
{
}

/// Product data reads back: the name and the alias that were put into it, each ended by a
/// zero, are the ones that are read.
pub proof fn law_names_read_back(payload: Seq<u8>, name: Seq<char>, alias: Seq<char>)
    requires
        payload.len() >= 66,
        encode_utf8(name).len() < 30,
        encode_utf8(alias).len() < 31,
        forall|i: int| 0 <= i < encode_utf8(name).len() ==> encode_utf8(name)[i] != 0,
        forall|i: int| 0 <= i < encode_utf8(alias).len() ==> encode_utf8(alias)[i] != 0,
        forall|i: int|
            0 <= i < encode_utf8(name).len() ==> #[trigger] payload[4 + i] == encode_utf8(name)[i],
        payload[4 + encode_utf8(name).len() as int] == 0,
        forall|i: int|
            0 <= i < encode_utf8(alias).len() ==> #[trigger] payload[35 + i] == encode_utf8(
                alias,
            )[i],
        payload[35 + encode_utf8(alias).len() as int] == 0,
    ensures
        product_data(payload) == Some(
            ProductDataView { device_name: name, device_alias: alias },
        ),
{
    let first = payload.subrange(4, 34);
    let second = payload.subrange(35, 66);
    assert forall|i: int| 0 <= i < encode_utf8(name).len() implies #[trigger] first[i]
        == encode_utf8(name)[i] by {
        assert(payload[4 + i] == encode_utf8(name)[i]);
    }
    assert forall|i: int| 0 <= i < encode_utf8(alias).len() implies #[trigger] second[i]
        == encode_utf8(alias)[i] by {
        assert(payload[35 + i] == encode_utf8(alias)[i]);
    }
    lemma_text_field(first, name);
    lemma_text_field(second, alias);
}

proof fn lemma_text_field(field: Seq<u8>, name: Seq<char>)
    requires
        encode_utf8(name).len() < field.len(),
        forall|i: int| 0 <= i < encode_utf8(name).len() ==> encode_utf8(name)[i] != 0,
        forall|i: int|
            0 <= i < encode_utf8(name).len() ==> #[trigger] field[i] == encode_utf8(name)[i],
        field[encode_utf8(name).len() as int] == 0,
    ensures
        text::c_text(field) == Some(name),
{
    let all = encode_utf8(name);
    let tail = field.skip(all.len() as int);
    assert(field =~= all + tail);
    lemma_no_nul_prefix(all, tail);
    assert(text::before_nul(all + tail) =~= all);
    encode_utf8_valid_utf8(name);
    encode_utf8_decode_utf8(name);
}

/// The models by their product numbers.
pub proof fn law_product_numbers(product_id: u16)
    ensures
        product_label(0x010f) == Some("GMR 18"@),
        product_label(0x0195) == Some("GMR 24 HD"@),
        product_label(0x01fd) == Some("GMR 18 HD"@),
        product_label(0x021d) == Some("GMR (legacy)"@),
        product_label(0x0263) == Some("GMR (legacy)"@),
        product_label(0x06d0) == Some("GMR xHD"@),
        product_label(product_id) is Some <==> product_id == 0x010f || product_id == 0x0195
            || product_id == 0x01fd || product_id == 0x021d || product_id == 0x0263 || product_id
            == 0x06d0,
{
}

/// An alias that is too long is cut to its first thirty bytes, and two zeros stand behind.
pub proof fn law_long_alias_is_cut(alias: Seq<char>, i: int)
    requires
        encode_utf8(alias).len() > 30,
        0 <= i < 30,
    ensures
        alias_packet(alias).len() == 40,
        alias_packet(alias)[8 + i] == encode_utf8(alias)[i],
        alias_packet(alias)[38] == 0 && alias_packet(alias)[39] == 0,
        bytes::holds32(alias_packet(alias), 0, 0x0393),
        bytes::holds32(alias_packet(alias), 4, 32),
{
}

} // verus!
