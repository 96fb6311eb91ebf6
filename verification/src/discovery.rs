//! Discovery: the broadcast probe packet, response parsing, and per-MAC
//! deduplication of the records collected across interfaces.
//!
//! The caller broadcasts `build_discovery_packet` on each usable interface,
//! hands every received datagram to `parse_discovery_response` together with
//! the sender's address, and folds the records of all interfaces through
//! `merge_discovered`, which keeps the first record seen for each MAC.

use vstd::prelude::*;
use crate::checksum::{checksum, checksum_spec};
use crate::hexstr::{hex_digit_char, hex_digit_str};
use crate::session::{hi16, lo16};

verus! {

/// Opcode of the discovery request.
pub const DISCOVER_COMMAND: u8 = 0x06;

/// A device record assembled from one discovery response.
#[derive(Debug, Clone)]
pub struct DiscoveredDevice {
    /// The 16-bit device-type code as a hex string, `"0x"` and four digits.
    pub device_type: String,
    /// Human-readable model label from the static device-type table.
    pub model: String,
    /// IPv4 address the response came from, dotted decimal.
    pub host: String,
    /// Colon-separated lowercase hex MAC.
    pub mac: String,
    /// Name the device reported, or the model label when it reported none.
    pub name: String,
}

/// The colon-separated lowercase hex text of a 6-byte MAC.
pub open spec fn mac_string_spec(mac: Seq<u8>) -> Seq<char> {
    Seq::new(
        17,
        |i: int|
            if i % 3 == 2 {
                ':'
            } else if i % 3 == 0 {
                hex_digit_char(mac[i / 3] as int / 16)
            } else {
                hex_digit_char(mac[i / 3] as int % 16)
            },
    )
}

/// Formats a 6-byte MAC as a colon-separated lowercase hex string.
pub fn format_mac(mac: &[u8]) -> (r: String)
    requires
        mac@.len() == 6,
    ensures
        r@ == mac_string_spec(mac@),
{
    let mut s = String::new();
    let mut i: usize = 0;
    while i < 6
        invariant
            i <= 6,
            mac@.len() == 6,
            s@ == mac_string_spec(mac@).take(if i == 0 {
                0int
            } else {
                3 * i - 1
            }),
        decreases 6 - i,
    {
        if i > 0 {
            proof {
                reveal_strlit(":");
                assert(s@ + ":"@ =~= mac_string_spec(mac@).take(3 * i as int));
            }
            s.append(":");
        }
        proof {
            assert(s@ + seq![hex_digit_char(mac@[i as int] as int / 16)] =~= mac_string_spec(mac@)
                .take(3 * i as int + 1));
        }
        s.append(hex_digit_str(mac[i] / 16));
        proof {
            assert(s@ + seq![hex_digit_char(mac@[i as int] as int % 16)] =~= mac_string_spec(mac@)
                .take(3 * i as int + 2));
        }
        s.append(hex_digit_str(mac[i] % 16));
        i = i + 1;
    }
    proof {
        assert(mac_string_spec(mac@).take(17) =~= mac_string_spec(mac@));
    }
    s
}

/// The `"0x"`-prefixed four-digit lowercase hex text of a 16-bit value.
pub open spec fn hex_u16_spec(n: int) -> Seq<char> {
    seq![
        '0',
        'x',
        hex_digit_char((n / 0x1000) % 16),
        hex_digit_char((n / 0x100) % 16),
        hex_digit_char((n / 16) % 16),
        hex_digit_char(n % 16),
    ]
}

/// Formats a device-type code the way discovery reports it: `"0x"` and four
/// lowercase hex digits.
pub fn hex_u16_string(n: u16) -> (r: String)
    ensures
        r@ == hex_u16_spec(n as int),
{
    proof {
        reveal_strlit("0x");
    }
    let mut s = "0x".to_owned();
    s.append(hex_digit_str((n / 0x1000) as u8));
    s.append(hex_digit_str(((n / 0x100) % 16) as u8));
    s.append(hex_digit_str(((n / 16) % 16) as u8));
    s.append(hex_digit_str((n % 16) as u8));
    proof {
        assert(s@ =~= hex_u16_spec(n as int));
    }
    s
}

/// The model label of a device-type code, from the static table.
pub open spec fn model_name_spec(devtype: u16) -> Seq<char> {
    if devtype == 0x2737 || devtype == 0x27c2 {
        "RM Mini 3"@
    } else if devtype == 0x2787 || devtype == 0x279d || devtype == 0x27a9 {
        "RM Pro"@
    } else if devtype == 0x5f36 || devtype == 0x520b || devtype == 0x520c || devtype == 0x520d {
        "RM4 Mini"@
    } else if devtype == 0x6026 || devtype == 0x61a2 || devtype == 0x6184 || devtype == 0x649b
        || devtype == 0x653a {
        "RM4 Pro"@
    } else if devtype == 0x6508 || devtype == 0x6070 {
        "RM4C Mini"@
    } else if devtype == 0x6539 {
        "RM4 TV Mate"@
    } else if devtype == 0x7547 || devtype == 0x7918 {
        "SP Mini"@
    } else if devtype == 0x2711 || devtype == 0x2719 || devtype == 0x7919 || devtype == 0x791a {
        "SP2"@
    } else {
        "Unknown"@
    }
}

/// The device category of a device-type code: remotes, plugs, or unknown.
pub open spec fn model_kind_spec(devtype: u16) -> Seq<char> {
    if devtype == 0x2737 || devtype == 0x27c2 || devtype == 0x2787 || devtype == 0x279d || devtype
        == 0x27a9 || devtype == 0x5f36 || devtype == 0x520b || devtype == 0x520c || devtype
        == 0x520d || devtype == 0x6026 || devtype == 0x61a2 || devtype == 0x6184 || devtype
        == 0x649b || devtype == 0x653a || devtype == 0x6508 || devtype == 0x6070 || devtype
        == 0x6539 {
        "Remote"@
    } else if devtype == 0x7547 || devtype == 0x7918 || devtype == 0x2711 || devtype == 0x2719
        || devtype == 0x7919 || devtype == 0x791a {
        "Plug"@
    } else {
        "Unknown"@
    }
}

/// Looks a device-type code up in the static model table: the model label
/// and the device category.
pub fn get_device_model(devtype: u16) -> (r: (&'static str, &'static str))
    ensures
        r.0@ == model_name_spec(devtype),
        r.1@ == model_kind_spec(devtype),
{
    match devtype {
        0x2737 => ("RM Mini 3", "Remote"),
        0x27c2 => ("RM Mini 3", "Remote"),
        0x2787 => ("RM Pro", "Remote"),
        0x279d => ("RM Pro", "Remote"),
        0x27a9 => ("RM Pro", "Remote"),
        0x5f36 => ("RM4 Mini", "Remote"),
        0x520b => ("RM4 Mini", "Remote"),
        0x520c => ("RM4 Mini", "Remote"),
        0x520d => ("RM4 Mini", "Remote"),
        0x6026 => ("RM4 Pro", "Remote"),
        0x61a2 => ("RM4 Pro", "Remote"),
        0x6184 => ("RM4 Pro", "Remote"),
        0x649b => ("RM4 Pro", "Remote"),
        0x653a => ("RM4 Pro", "Remote"),
        0x6508 => ("RM4C Mini", "Remote"),
        0x6070 => ("RM4C Mini", "Remote"),
        0x6539 => ("RM4 TV Mate", "Remote"),
        0x7547 => ("SP Mini", "Plug"),
        0x7918 => ("SP Mini", "Plug"),
        0x2711 => ("SP2", "Plug"),
        0x2719 => ("SP2", "Plug"),
        0x7919 => ("SP2", "Plug"),
        0x791a => ("SP2", "Plug"),
        _ => ("Unknown", "Unknown"),
    }
}

/// The 0x30-byte discovery packet before its checksum is written: year and
/// time-of-day fields with fixed values, the sender's IPv4 address at
/// 0x18..0x1c, and the discovery opcode at 0x26.
pub open spec fn discovery_base_spec(ip: Seq<u8>) -> Seq<u8> {
    Seq::new(
        0x30,
        |i: int|
            {
                if i == 0x0c {
                    0xe8u8
                } else if i == 0x0d {
                    0x07u8
                } else if i == 0x10 {
                    12u8
                } else if i == 0x11 || i == 0x12 || i == 0x13 {
                    1u8
                } else if 0x18 <= i < 0x1c {
                    ip[i - 0x18]
                } else if i == 0x26 {
                    DISCOVER_COMMAND
                } else {
                    0u8
                }
            },
    )
}

/// The discovery packet with its checksum written at 0x20..0x22.
pub open spec fn discovery_packet_spec(ip: Seq<u8>) -> Seq<u8> {
    let base = discovery_base_spec(ip);
    let ck = checksum_spec(base);
    base.update(0x20, lo16(ck)).update(0x21, hi16(ck))
}

/// Builds the discovery packet broadcast on one interface, whose local IPv4
/// address is `ip`. The checksum recomputed over the packet with its own
/// field zeroed matches the stored value.
pub fn build_discovery_packet(ip: &[u8]) -> (r: Vec<u8>)
    requires
        ip@.len() == 4,
    ensures
        r@ == discovery_packet_spec(ip@),
        r@.len() == 0x30,
        r@[0x20] + 0x100 * r@[0x21] == checksum_spec(r@.update(0x20, 0u8).update(0x21, 0u8)),
{
    let mut packet: Vec<u8> = vec![0u8; 0x30];
    // Year 2024 little-endian, then hour 12, weekday, day and month 1.
    packet[0x0c] = 0xe8;
    packet[0x0d] = 0x07;
    packet[0x10] = 12;
    packet[0x11] = 1;
    packet[0x12] = 1;
    packet[0x13] = 1;
    packet[0x18] = ip[0];
    packet[0x19] = ip[1];
    packet[0x1a] = ip[2];
    packet[0x1b] = ip[3];
    packet[0x26] = DISCOVER_COMMAND;
    proof {
        assert forall|j: int| 0 <= j < 0x30 implies packet@[j] == discovery_base_spec(ip@)[j] by {}
        assert(packet@ =~= discovery_base_spec(ip@));
    }
    let ghost base = packet@;
    let ck = checksum(packet.as_slice());
    packet[0x20] = (ck % 0x100) as u8;
    packet[0x21] = ((ck / 0x100) % 0x100) as u8;
    proof {
        assert(packet@.update(0x20, 0u8).update(0x21, 0u8) =~= base);
    }
    packet
}

/// The 0x30-byte direct-probe packet before its checksum: only the sender's
/// address and the discovery opcode are set. It is sent straight to one
/// device to test reachability.
pub open spec fn probe_base_spec(ip: Seq<u8>) -> Seq<u8> {
    Seq::new(
        0x30,
        |i: int|
            {
                if 0x18 <= i < 0x1c {
                    ip[i - 0x18]
                } else if i == 0x26 {
                    DISCOVER_COMMAND
                } else {
                    0u8
                }
            },
    )
}

/// The probe packet with its checksum written at 0x20..0x22.
pub open spec fn probe_packet_spec(ip: Seq<u8>) -> Seq<u8> {
    let base = probe_base_spec(ip);
    let ck = checksum_spec(base);
    base.update(0x20, lo16(ck)).update(0x21, hi16(ck))
}

/// Builds the direct reachability probe sent to a single device.
pub fn build_probe_packet(ip: &[u8]) -> (r: Vec<u8>)
    requires
        ip@.len() == 4,
    ensures
        r@ == probe_packet_spec(ip@),
        r@.len() == 0x30,
        r@[0x20] + 0x100 * r@[0x21] == checksum_spec(r@.update(0x20, 0u8).update(0x21, 0u8)),
{
    let mut packet: Vec<u8> = vec![0u8; 0x30];
    packet[0x18] = ip[0];
    packet[0x19] = ip[1];
    packet[0x1a] = ip[2];
    packet[0x1b] = ip[3];
    packet[0x26] = DISCOVER_COMMAND;
    proof {
        assert forall|j: int| 0 <= j < 0x30 implies packet@[j] == probe_base_spec(ip@)[j] by {}
        assert(packet@ =~= probe_base_spec(ip@));
    }
    let ghost base = packet@;
    let ck = checksum(packet.as_slice());
    packet[0x20] = (ck % 0x100) as u8;
    packet[0x21] = ((ck / 0x100) % 0x100) as u8;
    proof {
        assert(packet@.update(0x20, 0u8).update(0x21, 0u8) =~= base);
    }
    packet
}

/// The minimum length of a discovery response worth parsing.
pub const DISCOVERY_RESPONSE_MIN_LEN: usize = 0x40;

/// The device-type code a discovery response carries at offset 0x34.
pub open spec fn response_devtype(resp: Seq<u8>) -> int {
    resp[0x34] + 0x100 * resp[0x35]
}

/// The prefix of `s` before its first zero byte (all of `s` if none).
pub open spec fn nul_prefix(s: Seq<u8>) -> Seq<u8>
    decreases s.len(),
{
    if s.len() == 0 || s[0] == 0 {
        Seq::empty()
    } else {
        seq![s[0]] + nul_prefix(s.skip(1))
    }
}

proof fn lemma_nul_prefix_take(s: Seq<u8>, i: int)
    requires
        0 <= i <= s.len(),
        forall|j: int| 0 <= j < i ==> s[j] != 0,
        i < s.len() ==> s[i] == 0,
    ensures
        nul_prefix(s) == s.take(i),
    decreases i,
{
    if i == 0 {
        assert(s.take(0) =~= Seq::<u8>::empty());
    } else {
        lemma_nul_prefix_take(s.skip(1), i - 1);
        assert(seq![s[0]] + s.skip(1).take(i - 1) =~= s.take(i));
    }
}

/// Copies the bytes of `v` before its first zero byte.
pub fn take_until_nul(v: &[u8]) -> (r: Vec<u8>)
    ensures
        r@ == nul_prefix(v@),
{
    let n = v.len();
    let mut i: usize = 0;
    while i < n
        invariant
            i <= n,
            n == v@.len(),
            forall|j: int| 0 <= j < i ==> v@[j] != 0,
        decreases n - i,
    {
        if v[i] == 0 {
            proof {
                lemma_nul_prefix_take(v@, i as int);
            }
            return vstd::slice::slice_to_vec(vstd::slice::slice_subrange(v, 0, i));
        }
        i = i + 1;
    }
    proof {
        lemma_nul_prefix_take(v@, n as int);
        assert(v@.take(n as int) =~= v@);
    }
    vstd::slice::slice_to_vec(v)
}

/// What `String::from_utf8_lossy` makes of a byte string: a function of the
/// bytes alone.
pub uninterp spec fn utf8_lossy_of(bytes: Seq<u8>) -> Seq<char>;

/// Relies on `String::from_utf8_lossy`: valid UTF-8 passes through, invalid
/// sequences become replacement characters, and no bytes means no
/// characters.
#[verifier::external_body]
pub fn utf8_lossy(bytes: &[u8]) -> (r: String)
    ensures
        r@ == utf8_lossy_of(bytes@),
        bytes@.len() == 0 ==> r@.len() == 0,
{
    String::from_utf8_lossy(bytes).to_string()
}

/// The name bytes of a discovery response: the null-terminated string at
/// offset 0x40, empty when the response ends there.
pub open spec fn response_name_bytes(resp: Seq<u8>) -> Seq<u8> {
    nul_prefix(resp.skip(0x40))
}

/// Parses one discovery response datagram from `host`. A response under
/// 0x40 bytes yields nothing; otherwise the record carries the device-type
/// code (offset 0x34, as a hex string), the formatted MAC (offset 0x3a), the
/// model label from the static table, and the reported name — or the model
/// label when the device reported none.
pub fn parse_discovery_response(resp: &[u8], host: String) -> (r: Option<DiscoveredDevice>)
    ensures
        r is Some <==> resp@.len() >= 0x40,
        r matches Some(d) ==> {
            &&& d.host@ == host@
            &&& d.device_type@ == hex_u16_spec(response_devtype(resp@))
            &&& d.mac@ == mac_string_spec(resp@.subrange(0x3a, 0x40))
            &&& d.model@ == model_name_spec(response_devtype(resp@) as u16)
            &&& d.name@ == (if utf8_lossy_of(response_name_bytes(resp@)).len() == 0 {
                model_name_spec(response_devtype(resp@) as u16)
            } else {
                utf8_lossy_of(response_name_bytes(resp@))
            })
        },
{
    if resp.len() < DISCOVERY_RESPONSE_MIN_LEN {
        return None;
    }
    let devtype: u16 = resp[0x34] as u16 + 0x100 * resp[0x35] as u16;
    let mac_str = format_mac(vstd::slice::slice_subrange(resp, 0x3a, 0x40));
    let (model, _kind) = get_device_model(devtype);
    let name_bytes = take_until_nul(vstd::slice::slice_subrange(resp, 0x40, resp.len()));
    let name = utf8_lossy(name_bytes.as_slice());
    let name = if name.as_str().is_empty() {
        model.to_owned()
    } else {
        name
    };
    Some(
        DiscoveredDevice {
            device_type: hex_u16_string(devtype),
            model: model.to_owned(),
            host,
            mac: mac_str,
            name,
        },
    )
}

/// Whether some record of `s` carries the MAC text `m`.
pub open spec fn has_mac(s: Seq<DiscoveredDevice>, m: Seq<char>) -> bool {
    exists|i: int| 0 <= i < s.len() && s[i].mac@ == m
}

/// No two records of `s` share a MAC.
pub open spec fn unique_macs(s: Seq<DiscoveredDevice>) -> bool {
    forall|i: int, j: int| 0 <= i < j < s.len() ==> s[i].mac@ != s[j].mac@
}

/// `acc` extended by the records of `found` whose MAC it does not hold yet,
/// in order, first record per MAC winning.
pub open spec fn merge_spec(
    acc: Seq<DiscoveredDevice>,
    found: Seq<DiscoveredDevice>,
) -> Seq<DiscoveredDevice>
    decreases found.len(),
{
    if found.len() == 0 {
        acc
    } else {
        let acc2 = if has_mac(acc, found[0].mac@) {
            acc
        } else {
            acc.push(found[0])
        };
        merge_spec(acc2, found.skip(1))
    }
}

/// Whether `acc` already holds a record with this MAC.
fn contains_mac(acc: &Vec<DiscoveredDevice>, mac: &String) -> (r: bool)
    ensures
        r == has_mac(acc@, mac@),
{
    let mut i: usize = 0;
    while i < acc.len()
        invariant
            i <= acc@.len(),
            forall|j: int| 0 <= j < i ==> acc@[j].mac@ != mac@,
        decreases acc@.len() - i,
    {
        if acc[i].mac == *mac {
            return true;
        }
        i = i + 1;
    }
    false
}

/// Folds the records found on one interface into the running result,
/// skipping every record whose MAC is already present, so that a device
/// reachable from several interfaces is reported once.
pub fn merge_discovered(acc: &mut Vec<DiscoveredDevice>, found: Vec<DiscoveredDevice>)
    ensures
        final(acc)@ == merge_spec(old(acc)@, found@),
{
    let mut rest = found;
    while rest.len() > 0
        invariant
            merge_spec(acc@, rest@) == merge_spec(old(acc)@, found@),
        decreases rest@.len(),
    {
        let ghost rest_before = rest@;
        let ghost acc_before = acc@;
        let d = rest.remove(0);
        proof {
            assert(rest_before[0] == d);
            assert(rest_before.skip(1) =~= rest@);
        }
        if !contains_mac(acc, &d.mac) {
            acc.push(d);
            proof {
                assert(acc@ =~= acc_before.push(rest_before[0]));
            }
        }
        proof {
            assert(merge_spec(acc@, rest@) == merge_spec(acc_before, rest_before));
        }
    }
    proof {
        assert(rest@.len() == 0);
        assert(merge_spec(acc@, rest@) == acc@);
    }
}

/// Deduplication keeps MACs unique: folding any batch into a result whose
/// MACs are unique leaves them unique.
pub proof fn lemma_merge_keeps_macs_unique(acc: Seq<DiscoveredDevice>, found: Seq<DiscoveredDevice>)
    requires
        unique_macs(acc),
    ensures
        unique_macs(merge_spec(acc, found)),
    decreases found.len(),
{
    if found.len() > 0 {
        let m = found[0].mac@;
        if has_mac(acc, m) {
            lemma_merge_keeps_macs_unique(acc, found.skip(1));
        } else {
            let acc2 = acc.push(found[0]);
            assert(unique_macs(acc2)) by {
                assert forall|i: int, j: int| 0 <= i < j < acc2.len() implies acc2[i].mac@
                    != acc2[j].mac@ by {
                    if j == acc2.len() - 1 {
                        assert(!(acc[i].mac@ == m));
                    }
                }
            }
            lemma_merge_keeps_macs_unique(acc2, found.skip(1));
        }
    }
}

/// A MAC appears in the merged result exactly when one side holds it.
pub proof fn lemma_merge_mac_membership(
    acc: Seq<DiscoveredDevice>,
    found: Seq<DiscoveredDevice>,
    m: Seq<char>,
)
    ensures
        has_mac(merge_spec(acc, found), m) <==> (has_mac(acc, m) || has_mac(found, m)),
    decreases found.len(),
{
    if found.len() == 0 {
        assert(!has_mac(found, m));
    } else {
        let acc2 = if has_mac(acc, found[0].mac@) {
            acc
        } else {
            acc.push(found[0])
        };
        lemma_merge_mac_membership(acc2, found.skip(1), m);
        assert(has_mac(found, m) <==> (m == found[0].mac@ || has_mac(found.skip(1), m))) by {
            if has_mac(found, m) {
                let i = choose|i: int| 0 <= i < found.len() && found[i].mac@ == m;
                if i > 0 {
                    assert(found.skip(1)[i - 1].mac@ == m);
                }
            }
            if has_mac(found.skip(1), m) {
                let i = choose|i: int| 0 <= i < found.skip(1).len() && found.skip(1)[i].mac@ == m;
                assert(found[i + 1].mac@ == m);
            }
        }
        assert(has_mac(acc2, m) <==> (has_mac(acc, m) || m == found[0].mac@)) by {
            if has_mac(acc, m) {
                let i = choose|i: int| 0 <= i < acc.len() && acc[i].mac@ == m;
                assert(acc2[i].mac@ == m);
            }
            if m == found[0].mac@ && !has_mac(acc, m) {
                assert(acc2[acc2.len() - 1].mac@ == m);
            }
            if has_mac(acc2, m) {
                let i = choose|i: int| 0 <= i < acc2.len() && acc2[i].mac@ == m;
                if i < acc.len() {
                    assert(acc[i].mac@ == m);
                }
            }
        }
    }
}

} // verus!
