//! Finding Navico radars on the network.

use vstd::prelude::*;
use vstd::slice::*;

use super::protocol::{
    COMMAND_SUBTYPE, DISCOVERY_QUERY_PACKET, RADAR_SERVICE_TYPE, REPORT_SUBTYPE,
    SPOKE_DATA_SUBTYPE,
};
use crate::bytes;
use crate::bytes::{get_be16, get_le16, same_bytes};
use crate::radar::Address;
use crate::text;
use crate::text::c_string;

verus! {

/// The addresses of a scanner.
#[derive(Clone, Copy, Debug, PartialEq, Eq, Structural)]
pub struct RadarScanner {
    pub data: Address,
    pub send: Address,
    pub report: Address,
}

/// What a beacon tells.
#[derive(Debug)]
pub struct Gen3PlusBeacon<'a> {
    pub serial_no: &'a str,
    pub radar_addr: Address,
    pub num_devices: u16,
    /// The scanners, A before B.
    pub scanners: Vec<RadarScanner>,
}

/// The address at offset `i`: four bytes and a port.
pub open spec fn address_at(data: Seq<u8>, i: int) -> Address {
    Address {
        a: data[i],
        b: data[i + 1],
        c: data[i + 2],
        d: data[i + 3],
        port: bytes::be16(data, i + 4) as u16,
    }
}

/// The last address with a subtype among `n` services of ten bytes at offset
/// `at`.
pub open spec fn service(data: Seq<u8>, at: int, n: nat, subtype: u16) -> Option<Address>
    decreases n,
{
    if n == 0 {
        None
    } else {
        let i = at + 10 * (n - 1);
        if bytes::le16(data, i) == subtype {
            Some(address_at(data, i + 4))
        } else {
            service(data, at, (n - 1) as nat, subtype)
        }
    }
}

/// The scanner of a group of `n` services at offset `at`, where none is
/// missing.
pub open spec fn scanner_of(data: Seq<u8>, at: int, n: nat) -> Option<RadarScanner> {
    match (
        service(data, at, n, SPOKE_DATA_SUBTYPE),
        service(data, at, n, COMMAND_SUBTYPE),
        service(data, at, n, REPORT_SUBTYPE),
    ) {
        (Some(d), Some(s), Some(r)) => Some(RadarScanner { data: d, send: s, report: r }),
        _ => None,
    }
}

/// A scanner and the number of its part of the radar.
pub type Numbered = (u8, RadarScanner);

/// The list with `x` behind all that are not greater.
pub open spec fn inserted(s: Seq<Numbered>, x: Numbered) -> Seq<Numbered>
    decreases s.len(),
{
    if s.len() > 0 && s.last().0 > x.0 {
        inserted(s.drop_last(), x).push(s.last())
    } else {
        s.push(x)
    }
}

/// The list `found` with the scanners of `left` more groups at offset `at`.
/// A group that is cut off ends the list.
pub open spec fn scanners_from(found: Seq<Numbered>, data: Seq<u8>, at: int, left: nat) -> Seq<
    Numbered,
>
    decreases left,
{
    if left == 0 || at + 6 > data.len() || at + 6 + 10 * bytes::le16(data, at + 4) > data.len() {
        found
    } else {
        let n = bytes::le16(data, at + 4) as nat;
        let next = if bytes::le16(data, at) == RADAR_SERVICE_TYPE && scanner_of(data, at + 6, n)
            is Some {
            inserted(found, (data[at + 3], scanner_of(data, at + 6, n)->0))
        } else {
            found
        };
        scanners_from(next, data, at + 6 + 10 * n, (left - 1) as nat)
    }
}

/// The numbered scanners of a beacon, in the order of their numbers.
pub open spec fn numbered_scanners(data: Seq<u8>) -> Seq<Numbered> {
    scanners_from(Seq::empty(), data, 26, bytes::le16(data, 24) as nat)
}

/// The scanners of a beacon.
pub open spec fn beacon_scanners(data: Seq<u8>) -> Seq<RadarScanner> {
    Seq::new(numbered_scanners(data).len(), |i: int| numbered_scanners(data)[i].1)
}

/// Whether a packet is long enough for a beacon and its serial number is a
/// text.
pub open spec fn is_beacon(data: Seq<u8>) -> bool {
    data.len() >= 26 && text::c_text(data.subrange(2, 18)) is Some
}

fn get_address(data: &[u8], i: usize) -> (r: Address)
    requires
        i + 6 <= data@.len(),
    ensures
        r == address_at(data@, i as int),
{
    Address {
        a: data[i],
        b: data[i + 1],
        c: data[i + 2],
        d: data[i + 3],
        port: get_be16(data, i + 4),
    }
}

fn find_scanner(data: &[u8], at: usize, n: usize) -> (r: Option<RadarScanner>)
    requires
        at + 10 * n <= data@.len(),
    ensures
        r == scanner_of(data@, at as int, n as nat),
{
    let mut data_addr: Option<Address> = None;
    let mut send_addr: Option<Address> = None;
    let mut report_addr: Option<Address> = None;
    let mut k: usize = 0;
    while k < n
        invariant
            k <= n,
            at + 10 * n <= data@.len(),
            data@.len() == data.len(),
            data_addr == service(data@, at as int, k as nat, SPOKE_DATA_SUBTYPE),
            send_addr == service(data@, at as int, k as nat, COMMAND_SUBTYPE),
            report_addr == service(data@, at as int, k as nat, REPORT_SUBTYPE),
        decreases n - k,
    {
        let i: usize = at + 10 * k;
        let subtype: u16 = get_le16(data, i);
        let addr = get_address(data, i + 4);
        if subtype == SPOKE_DATA_SUBTYPE {
            data_addr = Some(addr);
        } else if subtype == COMMAND_SUBTYPE {
            send_addr = Some(addr);
        } else if subtype == REPORT_SUBTYPE {
            report_addr = Some(addr);
        }
        k += 1;
    }
    match (data_addr, send_addr, report_addr) {
        (Some(d), Some(s), Some(r)) => Some(RadarScanner { data: d, send: s, report: r }),
        _ => None,
    }
}

proof fn lemma_inserted_at(s: Seq<Numbered>, x: Numbered, at: int)
    requires
        0 <= at <= s.len(),
        at == 0 || s[at - 1].0 <= x.0,
        forall|i: int| at <= i < s.len() ==> s[i].0 > x.0,
    ensures
        inserted(s, x) == s.insert(at, x),
    decreases s.len(),
{
    if s.len() > 0 && s.last().0 > x.0 {
        lemma_inserted_at(s.drop_last(), x, at);
        assert(s.insert(at, x) =~= s.drop_last().insert(at, x).push(s.last()));
    } else {
        assert(at == s.len());
        assert(s.insert(at, x) =~= s.push(x));
    }
}

fn insert_scanner(list: &mut Vec<Numbered>, x: Numbered)
    ensures
        final(list)@ == inserted(old(list)@, x),
{
    let mut at: usize = list.len();
    while at > 0 && list[at - 1].0 > x.0
        invariant
            at <= list@.len(),
            list@ == old(list)@,
            forall|i: int| at <= i < list@.len() ==> (#[trigger] list@[i]).0 > x.0,
        decreases at,
    {
        at -= 1;
    }
    proof {
        lemma_inserted_at(list@, x, at as int);
    }
    list.insert(at, x);
}

/// Read a beacon. It holds the serial number, the address of the radar and
/// groups of services; scanners are the groups of radar services that lack
/// none.
pub fn parse_gen3plus_beacon(data: &[u8]) -> (r: Option<Gen3PlusBeacon<'_>>)
    ensures
        r is Some <==> is_beacon(data@),
        r matches Some(b) ==> {
            &&& Some(b.serial_no@) == text::c_text(data@.subrange(2, 18))
            &&& b.radar_addr == address_at(data@, 18)
            &&& b.num_devices == bytes::le16(data@, 24)
            &&& b.scanners@ == beacon_scanners(data@)
        },
{
    if data.len() < 26 {
        return None;
    }
    let serial_no = match c_string(slice_subrange(data, 2, 18)) {
        Some(s) => s,
        None => {
            return None;
        },
    };
    let num_devices: u16 = get_le16(data, 24);
    let mut found: Vec<Numbered> = Vec::new();
    let mut at: usize = 26;
    let mut left: u16 = num_devices;
    while left > 0
        invariant_except_break
            26 <= at <= data@.len(),
            data@.len() == data.len(),
            scanners_from(found@, data@, at as int, left as nat) == numbered_scanners(data@),
        ensures
            found@ == numbered_scanners(data@),
        decreases left,
    {
        if data.len() - at < 6 {
            break;
        }
        let service_type: u16 = get_le16(data, at);
        let subcomponent: u8 = data[at + 3];
        let n: usize = get_le16(data, at + 4) as usize;
        if data.len() - at - 6 < n * 10 {
            break;
        }
        at += 6;
        if service_type == RADAR_SERVICE_TYPE {
            match find_scanner(data, at, n) {
                Some(scanner) => {
                    insert_scanner(&mut found, (subcomponent, scanner));
                },
                None => {},
            }
        }
        at += n * 10;
        left -= 1;
    }
    let mut scanners: Vec<RadarScanner> = Vec::new();
    let mut k: usize = 0;
    while k < found.len()
        invariant
            k <= found@.len(),
            found@ == numbered_scanners(data@),
            scanners@ == beacon_scanners(data@).take(k as int),
        decreases found@.len() - k,
    {
        scanners.push(found[k].1);
        k += 1;
        assert(scanners@ =~= beacon_scanners(data@).take(k as int));
    }
    assert(beacon_scanners(data@).take(k as int) =~= beacon_scanners(data@));
    Some(Gen3PlusBeacon { serial_no, radar_addr: get_address(data, 18), num_devices, scanners })
}

/// The mark of scanner `i` of `count`, where there is more than one.
pub open spec fn suffix(i: int, count: int) -> Option<Seq<char>> {
    if count <= 1 {
        None
    } else if i == 0 {
        Some("A"@)
    } else if i == 1 {
        Some("B"@)
    } else if i == 2 {
        Some("C"@)
    } else if i == 3 {
        Some("D"@)
    } else {
        Some("?"@)
    }
}

/// The mark of scanner `i` of `count`.
pub fn scanner_name(i: usize, count: usize) -> (r: Option<&'static str>)
    ensures
        r is Some <==> suffix(i as int, count as int) is Some,
        r matches Some(s) ==> suffix(i as int, count as int) == Some(s@),
{
    if count <= 1 {
        None
    } else if i == 0 {
        Some("A")
    } else if i == 1 {
        Some("B")
    } else if i == 2 {
        Some("C")
    } else if i == 3 {
        Some("D")
    } else {
        Some("?")
    }
}

/// Whether a packet is a beacon with scanners.
pub open spec fn announces(data: Seq<u8>) -> bool {
    &&& data.len() >= 2
    &&& data != DISCOVERY_QUERY_PACKET@
    &&& data[0] == 0x01
    &&& data[1] == 0xb2
    &&& is_beacon(data)
    &&& beacon_scanners(data).len() > 0
}

/// The beacon in a packet that has one, with at least one scanner. `active`
/// tells whether the radar is known already; its beacons are not looked at.
pub fn process_locator_report(report: &[u8], active: bool) -> (r: Option<Gen3PlusBeacon<'_>>)
    ensures
        r is Some <==> !active && announces(report@),
        r matches Some(b) ==> {
            &&& Some(b.serial_no@) == text::c_text(report@.subrange(2, 18))
            &&& b.radar_addr == address_at(report@, 18)
            &&& b.num_devices == bytes::le16(report@, 24)
            &&& b.scanners@ == beacon_scanners(report@)
        },
{
    if report.len() < 2 || same_bytes(report, &DISCOVERY_QUERY_PACKET) {
        return None;
    }
    if report[0] != 0x01 || report[1] != 0xb2 || active {
        return None;
    }
    match parse_gen3plus_beacon(report) {
        Some(beacon) => {
            if beacon.scanners.len() == 0 {
                None
            } else {
                Some(beacon)
            }
        },
        None => None,
    }
}

/// Whether no number is smaller than one before it.
pub open spec fn ordered(s: Seq<Numbered>) -> bool {
    forall|i: int, j: int| 0 <= i < j < s.len() ==> s[i].0 <= s[j].0
}

/// The scanners with number `k`.
pub open spec fn with_number(s: Seq<Numbered>, k: u8) -> Seq<Numbered> {
    s.filter(|x: Numbered| x.0 == k)
}

proof fn lemma_inserted_keeps(s: Seq<Numbered>, x: Numbered, k: u8)
    requires
        ordered(s),
    ensures
        ordered(inserted(s, x)),
        inserted(s, x).len() == s.len() + 1,
        forall|i: int| 0 <= i < inserted(s, x).len() ==> (#[trigger] inserted(s, x)[i]).0 <= x.0 || {
            s.len() > 0 && inserted(s, x)[i].0 <= s.last().0
        },
        with_number(inserted(s, x), k) == with_number(s.push(x), k),
    decreases s.len(),
{
    let keep = |y: Numbered| y.0 == k;
    if s.len() > 0 && s.last().0 > x.0 {
        let t = s.drop_last();
        lemma_inserted_keeps(t, x, k);
        let r = inserted(t, x);
        assert(r.push(s.last()).drop_last() =~= r);
        assert(t.push(x).drop_last() =~= t);
        assert(s.push(x).drop_last() =~= s);
        reveal_with_fuel(Seq::filter, 3);
        assert(ordered(r.push(s.last())));
    } else {
        assert(ordered(s.push(x)));
    }
}

/// The scanners of a beacon are in the order of their numbers, and those with
/// one number in the order in which they are found: inserting one more keeps
/// the order, and among those with its number it comes last.
pub proof fn law_scanners_stay_ordered(s: Seq<Numbered>, x: Numbered, k: u8)
    requires
        ordered(s),
    ensures
        ordered(inserted(s, x)),
        inserted(s, x).len() == s.len() + 1,
        with_number(inserted(s, x), k) == with_number(s, k) + (if x.0 == k {
            seq![x]
        } else {
            Seq::empty()
        }),
{
    lemma_inserted_keeps(s, x, k);
    assert(s.push(x).drop_last() =~= s);
    reveal_with_fuel(Seq::filter, 2);
    assert(with_number(s.push(x), k) =~= with_number(s, k) + (if x.0 == k {
        seq![x]
    } else {
        Seq::empty()
    }));
}

proof fn lemma_scanners_ordered(found: Seq<Numbered>, data: Seq<u8>, at: int, left: nat)
    requires
        ordered(found),
    ensures
        ordered(scanners_from(found, data, at, left)),
    decreases left,
{
    if !(left == 0 || at + 6 > data.len() || at + 6 + 10 * bytes::le16(data, at + 4)
        > data.len()) {
        let n = bytes::le16(data, at + 4) as nat;
        let next = if bytes::le16(data, at) == RADAR_SERVICE_TYPE && scanner_of(data, at + 6, n)
            is Some {
            let x = (data[at + 3], scanner_of(data, at + 6, n)->0);
            lemma_inserted_keeps(found, x, 0);
            inserted(found, x)
        } else {
            found
        };
        lemma_scanners_ordered(next, data, at + 6 + 10 * n, (left - 1) as nat);
    }
}

/// The scanners of a beacon are in the order of their numbers.
pub proof fn law_scanners_ordered(data: Seq<u8>)
    ensures
        ordered(numbered_scanners(data)),
{
    lemma_scanners_ordered(Seq::empty(), data, 26, bytes::le16(data, 24) as nat);
}

/// A beacon of one scanner reads back: the addresses for spokes, commands and reports are
/// those that stand with their services, in whatever order these come.
pub proof fn law_beacon_reads_back(data: Seq<u8>, i: int, j: int, k: int)
    requires
        data.len() >= 62,
        bytes::holds16(data, 24, 1),
        bytes::holds16(data, 26, 0x10),
        bytes::holds16(data, 30, 3),
        0 <= i < 3 && 0 <= j < 3 && 0 <= k < 3,
        i != j && j != k && i != k,
        bytes::holds16(data, 32 + 10 * i, 0x10),
        bytes::holds16(data, 32 + 10 * j, 0x11),
        bytes::holds16(data, 32 + 10 * k, 0x12),
    ensures
        beacon_scanners(data) == seq![
            RadarScanner {
                data: address_at(data, 36 + 10 * i),
                send: address_at(data, 36 + 10 * j),
                report: address_at(data, 36 + 10 * k),
            },
        ],
{
    bytes::law_numbers_read_back(data, 24, 1);
    bytes::law_numbers_read_back(data, 26, 0x10);
    bytes::law_numbers_read_back(data, 30, 3);
    bytes::law_numbers_read_back(data, 32 + 10 * i, 0x10);
    bytes::law_numbers_read_back(data, 32 + 10 * j, 0x11);
    bytes::law_numbers_read_back(data, 32 + 10 * k, 0x12);
    reveal_with_fuel(service, 4);
    reveal_with_fuel(scanners_from, 2);
    let s = scanner_of(data, 32, 3);
    assert(s == Some(
        RadarScanner {
            data: address_at(data, 36 + 10 * i),
            send: address_at(data, 36 + 10 * j),
            report: address_at(data, 36 + 10 * k),
        },
    ));
    let x = (data[29], s->0);
    assert(inserted(Seq::empty(), x) =~= seq![x]);
    assert(numbered_scanners(data) == seq![x]);
    assert(beacon_scanners(data) =~= seq![s->0]);
}

/// An address reads back: its four bytes, and its port with the high byte first.
pub proof fn law_address_reads_back(data: Seq<u8>, at: int, port: int)
    requires
        0 <= port < 0x1_0000,
        data[at + 4] == port / 0x100,
        data[at + 5] == port % 0x100,
    ensures
        address_at(data, at) == (Address {
            a: data[at],
            b: data[at + 1],
            c: data[at + 2],
            d: data[at + 3],
            port: port as u16,
        }),
{
}

/// A packet announces radars where it is a beacon that holds a scanner; no other packet
/// does.
pub proof fn law_beacons_announce(data: Seq<u8>)
    ensures
        data.len() >= 26 && data[0] == 0x01 && data[1] == 0xb2 && text::c_text(
            data.subrange(2, 18),
        ) is Some && beacon_scanners(data).len() > 0 ==> announces(data),
        data.len() < 26 || data[0] != 0x01 || data[1] != 0xb2 || beacon_scanners(data).len() == 0
            ==> !announces(data),
{
}

/// The only scanner of a radar has no mark; several are marked by letters in their order.
pub proof fn law_scanners_are_marked(count: int)
    ensures
        count <= 1 ==> suffix(0, count) is None,
        count >= 2 ==> suffix(0, count) == Some("A"@) && suffix(1, count) == Some("B"@) && suffix(
            2,
            count,
        ) == Some("C"@) && suffix(3, count) == Some("D"@),
{
}

/// A packet of twenty-six bytes can be a beacon, if its serial number is a text.
pub proof fn law_beacons_have_a_serial_number(data: Seq<u8>)
    ensures
        is_beacon(data) <==> data.len() >= 26 && text::c_text(data.subrange(2, 18)) is Some,
{
}

} // verus!
