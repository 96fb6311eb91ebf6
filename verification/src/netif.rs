//! Network-interface selection and the local address list.
//!
//! Discovery broadcasts on every usable interface: loopback and known
//! virtual-interface name patterns are excluded, except that a bridged
//! adapter named like an external switch is kept, since it carries real LAN
//! traffic. The interface list itself comes from the `local-ip-address`
//! crate; the selection logic and the address-list assembly are verified.

use vstd::prelude::*;
use crate::strutil::{contains_chars, contains_str, starts_with_chars, starts_with_str};

verus! {

/// What `str::to_lowercase` makes of a string: a function of the characters
/// alone (the mapping is locale-independent).
pub uninterp spec fn lowercase_of(s: Seq<char>) -> Seq<char>;

/// Relies on `str::to_lowercase`: Unicode lowercasing of every character,
/// independent of any locale.
#[verifier::external_body]
fn to_lowercase_string(s: &str) -> (r: String)
    ensures
        r@ == lowercase_of(s@),
{
    s.to_lowercase()
}

/// Relies on `local_ip_address::list_afinet_netifas`: the system's network
/// interfaces as (name, address) pairs; the address text is the standard
/// dotted-decimal (IPv4) or colon-hex (IPv6) form of the interface address.
/// A lookup error yields no interfaces. What comes back depends on the
/// machine, so nothing more is promised.
#[verifier::external_body]
fn list_interfaces() -> (r: Vec<(String, String)>) {
    match local_ip_address::list_afinet_netifas() {
        Ok(list) => list.into_iter().map(|(name, ip)| (name, ip.to_string())).collect(),
        Err(_) => Vec::new(),
    }
}

/// A lowercased interface name that matches a known virtual-interface
/// pattern: container and hypervisor adapters.
pub open spec fn virtual_name_spec(lower: Seq<char>) -> bool {
    ||| starts_with_chars(lower, "veth"@)
    ||| starts_with_chars(lower, "docker"@)
    ||| starts_with_chars(lower, "br-"@)
    ||| starts_with_chars(lower, "virbr"@)
    ||| contains_chars(lower, "wsl"@)
    ||| contains_chars(lower, "hyper-v"@)
    ||| contains_chars(lower, "virtualbox"@)
    ||| contains_chars(lower, "default switch"@)
}

/// Whether discovery should use an interface: loopback is never used, and a
/// virtual-looking name is skipped unless it names an external switch — a
/// bridged adapter that is the actual physical uplink.
pub open spec fn usable_interface_spec(lower: Seq<char>, is_loopback: bool) -> bool {
    !is_loopback && (contains_chars(lower, "external switch"@) || !virtual_name_spec(lower))
}

/// Decides whether discovery should broadcast on the interface called
/// `name`, judging its lowercased name against the virtual-interface
/// patterns and the external-switch exception.
pub fn usable_interface(name: &str, is_loopback: bool) -> (r: bool)
    ensures
        r == usable_interface_spec(lowercase_of(name@), is_loopback),
{
    if is_loopback {
        return false;
    }
    let lower = to_lowercase_string(name);
    let l = lower.as_str();
    if contains_str(l, "external switch") {
        return true;
    }
    !(starts_with_str(l, "veth") || starts_with_str(l, "docker") || starts_with_str(l, "br-")
        || starts_with_str(l, "virbr") || contains_str(l, "wsl") || contains_str(l, "hyper-v")
        || contains_str(l, "virtualbox") || contains_str(l, "default switch"))
}

/// Whether some string of `v` equals `s`.
pub open spec fn contains_string(v: Seq<Seq<char>>, s: Seq<char>) -> bool {
    exists|i: int| 0 <= i < v.len() && v[i] == s
}

/// The address list folded from the interface addresses: each address joins
/// the list unless it is already there or is a loopback address.
pub open spec fn address_fold(acc: Seq<Seq<char>>, ips: Seq<Seq<char>>) -> Seq<Seq<char>>
    decreases ips.len(),
{
    if ips.len() == 0 {
        acc
    } else {
        let acc2 = if contains_string(acc, ips[0]) || starts_with_chars(ips[0], "127."@) {
            acc
        } else {
            acc.push(ips[0])
        };
        address_fold(acc2, ips.skip(1))
    }
}

/// Whether `v` already holds the string `s`.
fn contains_address(v: &Vec<String>, s: &String) -> (r: bool)
    ensures
        r == contains_string(v.deep_view(), s@),
{
    let mut i: usize = 0;
    while i < v.len()
        invariant
            i <= v@.len(),
            forall|j: int| 0 <= j < i ==> v.deep_view()[j] != s@,
        decreases v@.len() - i,
    {
        if v[i] == *s {
            proof {
                assert(v.deep_view()[i as int] == s@);
            }
            return true;
        }
        i = i + 1;
    }
    false
}

/// Assembles the flat address list the way the original reports it: the
/// localhost address first, then each interface address once, loopback
/// addresses left out.
pub fn collect_addresses(ips: Vec<String>) -> (r: Vec<String>)
    ensures
        r.deep_view() == address_fold(seq!["127.0.0.1"@], ips.deep_view()),
        r@.len() >= 1,
        r.deep_view()[0] == "127.0.0.1"@,
{
    let mut acc: Vec<String> = Vec::new();
    acc.push("127.0.0.1".to_owned());
    proof {
        assert(acc.deep_view() =~= seq!["127.0.0.1"@]);
    }
    let ghost ips0 = ips.deep_view();
    let ghost acc0 = acc.deep_view();
    let mut rest = ips;
    while rest.len() > 0
        invariant
            address_fold(acc.deep_view(), rest.deep_view()) == address_fold(acc0, ips0),
            acc@.len() >= 1,
            acc.deep_view()[0] == "127.0.0.1"@,
        decreases rest@.len(),
    {
        let ghost rest_before = rest.deep_view();
        let ghost acc_before = acc.deep_view();
        let ip = rest.remove(0);
        proof {
            assert(rest_before[0] == ip@);
            assert(rest_before.skip(1) =~= rest.deep_view());
        }
        if !contains_address(&acc, &ip) && !starts_with_str(ip.as_str(), "127.") {
            acc.push(ip);
            proof {
                assert(acc.deep_view() =~= acc_before.push(rest_before[0]));
            }
        }
        proof {
            assert(address_fold(acc.deep_view(), rest.deep_view()) == address_fold(
                acc_before,
                rest_before,
            ));
        }
    }
    proof {
        assert(rest.deep_view().len() == 0);
        assert(address_fold(acc.deep_view(), rest.deep_view()) == acc.deep_view());
    }
    acc
}

/// The folded address list never repeats an entry that the starting list
/// did not repeat.
pub proof fn lemma_address_fold_unique(acc: Seq<Seq<char>>, ips: Seq<Seq<char>>)
    requires
        forall|i: int, j: int| 0 <= i < j < acc.len() ==> acc[i] != acc[j],
    ensures
        forall|i: int, j: int|
            0 <= i < j < address_fold(acc, ips).len() ==> address_fold(acc, ips)[i]
                != address_fold(acc, ips)[j],
    decreases ips.len(),
{
    if ips.len() == 0 {
        assert(address_fold(acc, ips) == acc);
    } else {
        if contains_string(acc, ips[0]) || starts_with_chars(ips[0], "127."@) {
            lemma_address_fold_unique(acc, ips.skip(1));
            assert(address_fold(acc, ips) == address_fold(acc, ips.skip(1)));
        } else {
            let acc2 = acc.push(ips[0]);
            assert forall|i: int, j: int| 0 <= i < j < acc2.len() implies acc2[i] != acc2[j] by {
                if j == acc2.len() - 1 {
                    assert(!(acc[i] == ips[0]));
                }
            }
            lemma_address_fold_unique(acc2, ips.skip(1));
            assert(address_fold(acc, ips) == address_fold(acc2, ips.skip(1)));
        }
    }
}

/// Lists the local addresses the way callers see them: localhost first,
/// then every distinct non-loopback interface address, none repeated. Which
/// addresses appear depends on the machine; `collect_addresses` pins the
/// assembly itself down.
pub fn get_local_addresses() -> (r: Vec<String>)
    ensures
        r@.len() >= 1,
        r.deep_view()[0] == "127.0.0.1"@,
        forall|i: int, j: int| 0 <= i < j < r@.len() ==> r.deep_view()[i] != r.deep_view()[j],
{
    let ifs = list_interfaces();
    let mut ips: Vec<String> = Vec::new();
    let mut rest = ifs;
    while rest.len() > 0
        decreases rest@.len(),
    {
        let pair = rest.remove(0);
        ips.push(pair.1);
    }
    let ghost all_ips = ips.deep_view();
    let r = collect_addresses(ips);
    proof {
        lemma_address_fold_unique(seq!["127.0.0.1"@], all_ips);
    }
    r
}

} // verus!
