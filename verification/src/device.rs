//! The summary of the device: its name, its addresses and the traffic of
//! its network interfaces.

use crate::error::joined;
use crate::names::{
    name_order, name_precedes, names_are_totally_ordered, precedence_is_transitive,
    strictly_ascending, texts_of, Precedence,
};
use crate::text::{chars_of, decimal_digits, decimal_string, str_eq, text_of, trim, trimmed};
use vstd::utf8::encode_utf8;
use vstd::prelude::*;
use vstd::string::*;

verus! {

/// One network interface: its addresses and its traffic over one second.
#[derive(Debug, Clone, PartialEq, Eq)]
pub struct InterfaceInfo {
    pub name: String,
    pub ips: Vec<String>,
    pub rx_bytes_per_sec: u64,
    pub tx_bytes_per_sec: u64,
}

/// What is shown of the device.
#[derive(Debug, Clone, PartialEq, Eq)]
pub struct DeviceInfo {
    pub hostname: String,
    pub ip_address: String,
    pub ipv6_address: String,
    pub battery_level: Option<u8>,
    pub cpu_load_percent: Option<u8>,
    pub memory_load_percent: Option<u8>,
    pub wifi_upload_speed: String,
    pub wifi_download_speed: String,
    pub interfaces: Vec<InterfaceInfo>,
}

/// An [`InterfaceInfo`] with its texts as character sequences.
pub struct InterfaceInfoView {
    pub name: Seq<char>,
    pub ips: Seq<Seq<char>>,
    pub rx_bytes_per_sec: u64,
    pub tx_bytes_per_sec: u64,
}

impl View for InterfaceInfo {
    type V = InterfaceInfoView;

    open spec fn view(&self) -> InterfaceInfoView {
        InterfaceInfoView {
            name: self.name@,
            ips: texts_of(self.ips@),
            rx_bytes_per_sec: self.rx_bytes_per_sec,
            tx_bytes_per_sec: self.tx_bytes_per_sec,
        }
    }
}

/// The family of an address.
#[derive(Debug, Clone, Copy, PartialEq, Eq)]
pub enum IpFamily {
    V4,
    V6,
}

/// One address of one interface, as the system lists it.
#[derive(Debug, Clone, PartialEq, Eq)]
pub struct InterfaceAddress {
    /// The name of the interface.
    pub interface: String,
    /// The address, written out.
    pub ip: String,
    /// Whether it is an IPv4 or an IPv6 address.
    pub family: IpFamily,
    /// Whether it is a loopback address.
    pub is_loopback: bool,
}

/// An [`InterfaceAddress`] with its texts as character sequences.
pub struct InterfaceAddressView {
    pub interface: Seq<char>,
    pub ip: Seq<char>,
    pub family: IpFamily,
    pub is_loopback: bool,
}

impl View for InterfaceAddress {
    type V = InterfaceAddressView;

    open spec fn view(&self) -> InterfaceAddressView {
        InterfaceAddressView {
            interface: self.interface@,
            ip: self.ip@,
            family: self.family,
            is_loopback: self.is_loopback,
        }
    }
}

/// The bytes that an interface has received and sent since it came up.
#[derive(Debug, Clone, PartialEq, Eq)]
pub struct NetworkCounters {
    pub name: String,
    pub received: u64,
    pub transmitted: u64,
}

/// A [`NetworkCounters`] with its name as a character sequence.
pub struct NetworkCountersView {
    pub name: Seq<char>,
    pub received: u64,
    pub transmitted: u64,
}

impl View for NetworkCounters {
    type V = NetworkCountersView;

    open spec fn view(&self) -> NetworkCountersView {
        NetworkCountersView {
            name: self.name@,
            received: self.received,
            transmitted: self.transmitted,
        }
    }
}

/// The views of a list of addresses.
pub open spec fn addresses_of(list: Seq<InterfaceAddress>) -> Seq<InterfaceAddressView> {
    list.map_values(|a: InterfaceAddress| a@)
}

/// The views of a list of counters.
pub open spec fn counters_list(list: Seq<NetworkCounters>) -> Seq<NetworkCountersView> {
    list.map_values(|c: NetworkCounters| c@)
}

/// The first address of `family` that is not a loopback address.
pub open spec fn first_routable(addresses: Seq<InterfaceAddressView>, family: IpFamily) -> Option<
    Seq<char>,
>
    decreases addresses.len(),
{
    if addresses.len() == 0 {
        None
    } else if addresses.first().family == family && !addresses.first().is_loopback {
        Some(addresses.first().ip)
    } else {
        first_routable(addresses.drop_first(), family)
    }
}

/// The address shown for `family`: the first that is not a loopback
/// address, or else `fallback`.
pub open spec fn primary_of(
    addresses: Seq<InterfaceAddressView>,
    family: IpFamily,
    fallback: Seq<char>,
) -> Seq<char> {
    match first_routable(addresses, family) {
        Some(ip) => ip,
        None => fallback,
    }
}

/// Whether some address belongs to the interface `name`.
pub open spec fn is_interface_of(addresses: Seq<InterfaceAddressView>, name: Seq<char>) -> bool {
    exists|k: int| 0 <= k < addresses.len() && (#[trigger] addresses[k]).interface == name
}

/// The addresses of the interface `name`, each once, in the order in which
/// they are first listed.
pub open spec fn ips_of(addresses: Seq<InterfaceAddressView>, name: Seq<char>) -> Seq<Seq<char>>
    decreases addresses.len(),
{
    if addresses.len() == 0 {
        Seq::empty()
    } else {
        let earlier = ips_of(addresses.drop_last(), name);
        let last = addresses.last();
        if last.interface == name && !earlier.contains(last.ip) {
            earlier.push(last.ip)
        } else {
            earlier
        }
    }
}

/// The counters of the interface `name`; of several entries the last
/// counts.
pub open spec fn counters_of(list: Seq<NetworkCountersView>, name: Seq<char>) -> Option<
    (u64, u64),
>
    decreases list.len(),
{
    if list.len() == 0 {
        None
    } else if list.last().name == name {
        Some((list.last().received, list.last().transmitted))
    } else {
        counters_of(list.drop_last(), name)
    }
}

/// By how much a counter grew, or zero where it fell.
pub open spec fn growth(earlier: u64, later: u64) -> u64 {
    if later >= earlier {
        (later - earlier) as u64
    } else {
        0
    }
}

/// The bytes received and sent between two readings of an interface's
/// counters; zero where either reading is missing.
pub open spec fn rates_between(before: Option<(u64, u64)>, after: Option<(u64, u64)>) -> (
    u64,
    u64,
) {
    match (before, after) {
        (Some(b), Some(a)) => (growth(b.0, a.0), growth(b.1, a.1)),
        _ => (0, 0),
    }
}

/// The sum of `values`, held at the largest `u64` once it is reached.
pub open spec fn capped_sum(values: Seq<u64>) -> u64
    decreases values.len(),
{
    if values.len() == 0 {
        0
    } else if capped_sum(values.drop_last()) + values.last() > u64::MAX {
        u64::MAX
    } else {
        (capped_sum(values.drop_last()) + values.last()) as u64
    }
}

/// What is shown of the interface `name`.
pub open spec fn interface_named(
    name: Seq<char>,
    addresses: Seq<InterfaceAddressView>,
    before: Seq<NetworkCountersView>,
    after: Seq<NetworkCountersView>,
) -> InterfaceInfoView {
    let rates = rates_between(counters_of(before, name), counters_of(after, name));
    InterfaceInfoView {
        name,
        ips: ips_of(addresses, name),
        rx_bytes_per_sec: rates.0,
        tx_bytes_per_sec: rates.1,
    }
}

/// The names of a list of interfaces.
pub open spec fn listed_names(list: Seq<InterfaceInfo>) -> Seq<Seq<char>> {
    list.map_values(|i: InterfaceInfo| i.name@)
}

/// The receive rates of a list of interfaces.
pub open spec fn receive_rates(list: Seq<InterfaceInfo>) -> Seq<u64> {
    list.map_values(|i: InterfaceInfo| i.rx_bytes_per_sec)
}

/// The send rates of a list of interfaces.
pub open spec fn send_rates(list: Seq<InterfaceInfo>) -> Seq<u64> {
    list.map_values(|i: InterfaceInfo| i.tx_bytes_per_sec)
}

/// Whether `list` shows the interfaces of `addresses`: each interface
/// once, in the order of their names, each as [`interface_named`] says.
pub open spec fn shows_interfaces(
    list: Seq<InterfaceInfo>,
    addresses: Seq<InterfaceAddressView>,
    before: Seq<NetworkCountersView>,
    after: Seq<NetworkCountersView>,
) -> bool {
    &&& strictly_ascending(listed_names(list))
    &&& forall|n: Seq<char>| listed_names(list).contains(n) <==> is_interface_of(addresses, n)
    &&& forall|i: int|
        0 <= i < list.len() ==> (#[trigger] list[i])@ == interface_named(
            list[i].name@,
            addresses,
            before,
            after,
        )
}

proof fn lemma_interface_step(addresses: Seq<InterfaceAddressView>, k: int, n: Seq<char>)
    requires
        0 <= k < addresses.len(),
    ensures
        is_interface_of(addresses.take(k + 1), n) <==> (is_interface_of(addresses.take(k), n)
            || addresses[k].interface == n),
{
    let longer = addresses.take(k + 1);
    let shorter = addresses.take(k);
    if is_interface_of(longer, n) {
        let w = choose|w: int| 0 <= w < longer.len() && (#[trigger] longer[w]).interface == n;
        if w < k {
            assert(shorter[w].interface == n);
        }
    }
    if is_interface_of(shorter, n) {
        let w = choose|w: int| 0 <= w < shorter.len() && (#[trigger] shorter[w]).interface == n;
        assert(longer[w].interface == n);
    }
    if addresses[k].interface == n {
        assert(longer[k].interface == n);
    }
}

proof fn lemma_insert_contains(s: Seq<Seq<char>>, p: int, x: Seq<char>, n: Seq<char>)
    requires
        0 <= p <= s.len(),
    ensures
        s.insert(p, x).contains(n) <==> (s.contains(n) || n == x),
{
    let t = s.insert(p, x);
    if t.contains(n) {
        let i = choose|i: int| 0 <= i < t.len() && t[i] == n;
        if i < p {
            assert(s[i] == n);
        } else if i > p {
            assert(s[i - 1] == n);
        }
    }
    if s.contains(n) {
        let i = choose|i: int| 0 <= i < s.len() && s[i] == n;
        if i < p {
            assert(t[i] == n);
        } else {
            assert(t[i + 1] == n);
        }
    }
    if n == x {
        assert(t[p] == n);
    }
}

proof fn lemma_insert_keeps_order(s: Seq<Seq<char>>, p: int, x: Seq<char>)
    requires
        0 <= p <= s.len(),
        strictly_ascending(s),
        forall|i: int| 0 <= i < p ==> name_precedes(#[trigger] s[i], x),
        p < s.len() ==> name_precedes(x, s[p]),
    ensures
        strictly_ascending(s.insert(p, x)),
{
    let t = s.insert(p, x);
    assert forall|i: int, j: int| 0 <= i < j < t.len() implies name_precedes(t[i], t[j]) by {
        if j == p {
            assert(t[i] == s[i]);
        } else if i == p {
            assert(t[j] == s[j - 1]);
            if j - 1 > p {
                assert(name_precedes(s[p], s[j - 1]));
                precedence_is_transitive(encode_utf8(x), encode_utf8(s[p]), encode_utf8(s[j - 1]));
            }
        } else {
            let a = if i < p {
                i
            } else {
                i - 1
            };
            let b = if j < p {
                j
            } else {
                j - 1
            };
            assert(t[i] == s[a]);
            assert(t[j] == s[b]);
        }
    }
}

/// Where `name` stands in the ascending list `names`: the index of the
/// first name that does not come before it, and whether that name is
/// `name` itself.
pub fn insertion_point(names: &Vec<String>, name: &str) -> (r: (usize, bool))
    requires
        strictly_ascending(texts_of(names@)),
    ensures
        r.0 <= names.len(),
        forall|i: int| 0 <= i < r.0 ==> name_precedes(#[trigger] texts_of(names@)[i], name@),
        r.1 ==> r.0 < names.len() && names@[r.0 as int]@ == name@,
        !r.1 ==> (r.0 < names.len() ==> name_precedes(name@, names@[r.0 as int]@)),
        r.1 <==> texts_of(names@).contains(name@),
{
    let mut p: usize = 0;
    while p < names.len()
        invariant
            p <= names.len(),
            strictly_ascending(texts_of(names@)),
            forall|i: int| 0 <= i < p ==> name_precedes(#[trigger] texts_of(names@)[i], name@),
        decreases names.len() - p,
    {
        match name_order(names[p].as_str(), name) {
            Precedence::Before => {},
            Precedence::Same => {
                proof {
                    assert(texts_of(names@)[p as int] == name@);
                }
                return (p, true);
            },
            Precedence::After => {
                proof {
                    let texts = texts_of(names@);
                    if texts.contains(name@) {
                        let i = choose|i: int| 0 <= i < texts.len() && texts[i] == name@;
                        names_are_totally_ordered(name@, name@);
                        names_are_totally_ordered(name@, texts[p as int]);
                        if i > p {
                            assert(name_precedes(texts[p as int], texts[i]));
                        }
                    }
                }
                return (p, false);
            },
        }
        p += 1;
    }
    proof {
        let texts = texts_of(names@);
        if texts.contains(name@) {
            let i = choose|i: int| 0 <= i < texts.len() && texts[i] == name@;
            names_are_totally_ordered(name@, name@);
        }
    }
    (p, false)
}

/// The names of the interfaces that `addresses` speak of, each once, in
/// ascending order.
pub fn interface_names(addresses: &Vec<InterfaceAddress>) -> (names: Vec<String>)
    ensures
        strictly_ascending(texts_of(names@)),
        forall|n: Seq<char>|
            texts_of(names@).contains(n) <==> is_interface_of(addresses_of(addresses@), n),
{
    let mut names: Vec<String> = Vec::new();
    let mut k: usize = 0;
    proof {
        assert forall|n: Seq<char>|
            texts_of(names@).contains(n) <==> is_interface_of(
                addresses_of(addresses@).take(0),
                n,
            ) by {}
    }
    while k < addresses.len()
        invariant
            k <= addresses.len(),
            strictly_ascending(texts_of(names@)),
            forall|n: Seq<char>|
                texts_of(names@).contains(n) <==> is_interface_of(
                    addresses_of(addresses@).take(k as int),
                    n,
                ),
        decreases addresses.len() - k,
    {
        let name = addresses[k].interface.as_str();
        let (p, found) = insertion_point(&names, name);
        let ghost before = texts_of(names@);
        if !found {
            names.insert(p, name.to_owned());
            proof {
                assert(texts_of(names@) =~= before.insert(p as int, name@));
                lemma_insert_keeps_order(before, p as int, name@);
            }
        }
        proof {
            let all = addresses_of(addresses@);
            assert(all[k as int].interface == name@);
            assert forall|n: Seq<char>|
                texts_of(names@).contains(n) <==> is_interface_of(all.take(k + 1), n) by {
                lemma_interface_step(all, k as int, n);
                if !found {
                    lemma_insert_contains(before, p as int, name@, n);
                }
            }
        }
        k += 1;
    }
    proof {
        assert(addresses_of(addresses@).take(k as int) =~= addresses_of(addresses@));
    }
    names
}

/// Whether `list` holds the text `text`.
pub fn list_contains(list: &Vec<String>, text: &str) -> (b: bool)
    ensures
        b == texts_of(list@).contains(text@),
{
    let mut i: usize = 0;
    while i < list.len()
        invariant
            i <= list.len(),
            forall|j: int| 0 <= j < i ==> texts_of(list@)[j] != text@,
        decreases list.len() - i,
    {
        if str_eq(list[i].as_str(), text) {
            proof {
                assert(texts_of(list@)[i as int] == text@);
            }
            return true;
        }
        i += 1;
    }
    false
}

/// The addresses of the interface `name`, each once, in the order in which
/// they are first listed.
pub fn interface_ips(addresses: &Vec<InterfaceAddress>, name: &str) -> (ips: Vec<String>)
    ensures
        texts_of(ips@) == ips_of(addresses_of(addresses@), name@),
{
    let mut ips: Vec<String> = Vec::new();
    let mut k: usize = 0;
    proof {
        assert(addresses_of(addresses@).take(0) =~= Seq::empty());
        assert(texts_of(ips@) =~= Seq::empty());
    }
    while k < addresses.len()
        invariant
            k <= addresses.len(),
            texts_of(ips@) == ips_of(addresses_of(addresses@).take(k as int), name@),
        decreases addresses.len() - k,
    {
        let ghost earlier = texts_of(ips@);
        proof {
            let all = addresses_of(addresses@);
            assert(all.take(k + 1).drop_last() =~= all.take(k as int));
            assert(all.take(k + 1).last() == addresses@[k as int]@);
        }
        if str_eq(addresses[k].interface.as_str(), name) && !list_contains(
            &ips,
            addresses[k].ip.as_str(),
        ) {
            ips.push(addresses[k].ip.clone());
            proof {
                assert(texts_of(ips@) =~= earlier.push(addresses@[k as int].ip@));
            }
        }
        k += 1;
    }
    proof {
        assert(addresses_of(addresses@).take(k as int) =~= addresses_of(addresses@));
    }
    ips
}

/// The address shown for `family`.
pub fn primary_address(addresses: &Vec<InterfaceAddress>, family: IpFamily, fallback: &str) -> (ip:
    String)
    ensures
        ip@ == primary_of(addresses_of(addresses@), family, fallback@),
{
    let mut k: usize = 0;
    proof {
        assert(addresses_of(addresses@).skip(0) =~= addresses_of(addresses@));
    }
    while k < addresses.len()
        invariant
            k <= addresses.len(),
            first_routable(addresses_of(addresses@), family) == first_routable(
                addresses_of(addresses@).skip(k as int),
                family,
            ),
        decreases addresses.len() - k,
    {
        let same_family = match (addresses[k].family, family) {
            (IpFamily::V4, IpFamily::V4) => true,
            (IpFamily::V6, IpFamily::V6) => true,
            _ => false,
        };
        proof {
            let all = addresses_of(addresses@);
            assert(all.skip(k as int).first() == addresses@[k as int]@);
            assert(all.skip(k as int).drop_first() =~= all.skip(k + 1));
        }
        if same_family && !addresses[k].is_loopback {
            return addresses[k].ip.clone();
        }
        k += 1;
    }
    fallback.to_owned()
}

/// The counters of the interface `name`.
pub fn find_counters(list: &Vec<NetworkCounters>, name: &str) -> (found: Option<(u64, u64)>)
    ensures
        found == counters_of(counters_list(list@), name@),
{
    let mut k: usize = list.len();
    proof {
        assert(counters_list(list@).take(k as int) =~= counters_list(list@));
    }
    while k > 0
        invariant
            k <= list.len(),
            counters_of(counters_list(list@), name@) == counters_of(
                counters_list(list@).take(k as int),
                name@,
            ),
        decreases k,
    {
        proof {
            let all = counters_list(list@);
            assert(all.take(k as int).drop_last() =~= all.take(k - 1));
            assert(all.take(k as int).last() == list@[k - 1]@);
        }
        k -= 1;
        if str_eq(list[k].name.as_str(), name) {
            return Some((list[k].received, list[k].transmitted));
        }
    }
    None
}

/// The bytes received and sent between two readings.
pub fn rates(before: Option<(u64, u64)>, after: Option<(u64, u64)>) -> (r: (u64, u64))
    ensures
        r == rates_between(before, after),
{
    match (before, after) {
        (Some(b), Some(a)) => {
            let rx: u64 = if a.0 >= b.0 {
                a.0 - b.0
            } else {
                0
            };
            let tx: u64 = if a.1 >= b.1 {
                a.1 - b.1
            } else {
                0
            };
            (rx, tx)
        },
        _ => (0, 0),
    }
}

/// `total` and `value` together, held at the largest `u64`.
pub fn capped_add(total: u64, value: u64) -> (sum: u64)
    ensures
        sum == if total + value > u64::MAX {
            u64::MAX
        } else {
            (total + value) as u64
        },
{
    if value > u64::MAX - total {
        u64::MAX
    } else {
        total + value
    }
}

/// The kilobits per second that `bytes_per_sec` amount to, rounded down.
/// The product saturates at the largest `u64`.
pub open spec fn kbps_of(bytes_per_sec: u64) -> nat {
    if bytes_per_sec * 8 > u64::MAX {
        (u64::MAX / 1000) as nat
    } else {
        (bytes_per_sec * 8 / 1000) as nat
    }
}

/// Writes a rate in bytes per second as kilobits per second.
pub fn format_kbps(bytes_per_sec: u64) -> (text: String)
    ensures
        text@ == decimal_digits(kbps_of(bytes_per_sec)) + " kbps"@,
{
    let bits: u64 = if bytes_per_sec > u64::MAX / 8 {
        u64::MAX
    } else {
        bytes_per_sec * 8
    };
    let kbps: u64 = bits / 1000;
    joined(decimal_string(kbps).as_str(), " kbps")
}

/// The text that shows a rate.
pub open spec fn kbps_text(bytes_per_sec: u64) -> Seq<char> {
    decimal_digits(kbps_of(bytes_per_sec)) + " kbps"@
}

/// The interfaces of `addresses`, each once, in the order of their names,
/// with their addresses and the traffic between the two readings.
pub fn interfaces_of(
    addresses: &Vec<InterfaceAddress>,
    before: &Vec<NetworkCounters>,
    after: &Vec<NetworkCounters>,
) -> (list: Vec<InterfaceInfo>)
    ensures
        shows_interfaces(
            list@,
            addresses_of(addresses@),
            counters_list(before@),
            counters_list(after@),
        ),
{
    let names = interface_names(addresses);
    let mut list: Vec<InterfaceInfo> = Vec::new();
    let mut i: usize = 0;
    while i < names.len()
        invariant
            i <= names.len(),
            list.len() == i,
            forall|j: int| 0 <= j < i ==> (#[trigger] list@[j]).name@ == names@[j]@,
            forall|j: int|
                0 <= j < i ==> (#[trigger] list@[j])@ == interface_named(
                    list@[j].name@,
                    addresses_of(addresses@),
                    counters_list(before@),
                    counters_list(after@),
                ),
        decreases names.len() - i,
    {
        let name = names[i].clone();
        let ips = interface_ips(addresses, name.as_str());
        let (rx, tx) = rates(
            find_counters(before, name.as_str()),
            find_counters(after, name.as_str()),
        );
        list.push(InterfaceInfo { name, ips, rx_bytes_per_sec: rx, tx_bytes_per_sec: tx });
        i += 1;
    }
    proof {
        assert(listed_names(list@) =~= texts_of(names@));
    }
    list
}

/// The bytes per second that the interfaces of `list` receive and send
/// together, each sum held at the largest `u64`.
pub fn total_rates(list: &Vec<InterfaceInfo>) -> (totals: (u64, u64))
    ensures
        totals.0 == capped_sum(receive_rates(list@)),
        totals.1 == capped_sum(send_rates(list@)),
{
    let mut rx: u64 = 0;
    let mut tx: u64 = 0;
    let mut i: usize = 0;
    proof {
        assert(receive_rates(list@).take(0) =~= Seq::empty());
        assert(send_rates(list@).take(0) =~= Seq::empty());
    }
    while i < list.len()
        invariant
            i <= list.len(),
            rx == capped_sum(receive_rates(list@).take(i as int)),
            tx == capped_sum(send_rates(list@).take(i as int)),
        decreases list.len() - i,
    {
        proof {
            let r = receive_rates(list@);
            let t = send_rates(list@);
            assert(r.take(i + 1).drop_last() =~= r.take(i as int));
            assert(t.take(i + 1).drop_last() =~= t.take(i as int));
            assert(r.take(i + 1).last() == list@[i as int].rx_bytes_per_sec);
            assert(t.take(i + 1).last() == list@[i as int].tx_bytes_per_sec);
        }
        rx = capped_add(rx, list[i].rx_bytes_per_sec);
        tx = capped_add(tx, list[i].tx_bytes_per_sec);
        i += 1;
    }
    proof {
        assert(receive_rates(list@).take(i as int) =~= receive_rates(list@));
        assert(send_rates(list@).take(i as int) =~= send_rates(list@));
    }
    (rx, tx)
}

impl DeviceInfo {
    /// Puts the summary together from what the system reported: the
    /// addresses of the interfaces, their counters one second apart, and
    /// the levels that were measured.
    pub fn assemble(
        hostname: String,
        addresses: &Vec<InterfaceAddress>,
        before: &Vec<NetworkCounters>,
        after: &Vec<NetworkCounters>,
        battery_level: Option<u8>,
        cpu_load_percent: Option<u8>,
        memory_load_percent: Option<u8>,
    ) -> (info: DeviceInfo)
        ensures
            info.hostname@ == hostname@,
            info.ip_address@ == primary_of(addresses_of(addresses@), IpFamily::V4, "127.0.0.1"@),
            info.ipv6_address@ == primary_of(addresses_of(addresses@), IpFamily::V6, "::1"@),
            info.battery_level == battery_level,
            info.cpu_load_percent == cpu_load_percent,
            info.memory_load_percent == memory_load_percent,
            shows_interfaces(
                info.interfaces@,
                addresses_of(addresses@),
                counters_list(before@),
                counters_list(after@),
            ),
            info.wifi_download_speed@ == kbps_text(capped_sum(receive_rates(info.interfaces@))),
            info.wifi_upload_speed@ == kbps_text(capped_sum(send_rates(info.interfaces@))),
    {
        let interfaces = interfaces_of(addresses, before, after);
        let (rx, tx) = total_rates(&interfaces);
        DeviceInfo {
            hostname,
            ip_address: primary_address(addresses, IpFamily::V4, "127.0.0.1"),
            ipv6_address: primary_address(addresses, IpFamily::V6, "::1"),
            battery_level,
            cpu_load_percent,
            memory_load_percent,
            wifi_upload_speed: format_kbps(tx),
            wifi_download_speed: format_kbps(rx),
            interfaces,
        }
    }
}

/// Whether `c` is a decimal digit.
pub open spec fn is_digit(c: char) -> bool {
    0x30 <= c as u32 <= 0x39
}

/// Whether `s` holds decimal digits only.
pub open spec fn all_digits(s: Seq<char>) -> bool {
    forall|i: int| 0 <= i < s.len() ==> is_digit(#[trigger] s[i])
}

/// The number that the digits of `s` write.
pub open spec fn digits_value(s: Seq<char>) -> nat
    decreases s.len(),
{
    if s.len() == 0 {
        0
    } else {
        (digits_value(s.drop_last()) * 10 + (s.last() as u32 - 0x30)) as nat
    }
}

/// The number that `digits` write, if there is a digit, there are only
/// digits, and the number is at most `limit`.
pub open spec fn bounded_number(digits: Seq<char>, limit: nat) -> Option<nat> {
    if digits.len() > 0 && all_digits(digits) && digits_value(digits) <= limit {
        Some(digits_value(digits))
    } else {
        None
    }
}

/// The 32-bit signed integer that `text` writes: a sign or none, then
/// decimal digits, within the range of the type.
pub open spec fn parsed_i32(text: Seq<char>) -> Option<int> {
    if text.len() > 0 && text[0] == '-' {
        match bounded_number(text.drop_first(), 0x8000_0000) {
            Some(v) => Some(-(v as int)),
            None => None,
        }
    } else if text.len() > 0 && text[0] == '+' {
        match bounded_number(text.drop_first(), 0x7fff_ffff) {
            Some(v) => Some(v as int),
            None => None,
        }
    } else {
        match bounded_number(text, 0x7fff_ffff) {
            Some(v) => Some(v as int),
            None => None,
        }
    }
}

proof fn lemma_digits_value_grows(s: Seq<char>, k: int)
    requires
        0 <= k <= s.len(),
        all_digits(s),
    ensures
        digits_value(s.take(k)) <= digits_value(s),
    decreases s.len(),
{
    if k == s.len() {
        assert(s.take(k) =~= s);
    } else {
        assert(s.drop_last().take(k) =~= s.take(k));
        assert(is_digit(s[s.len() - 1]));
        lemma_digits_value_grows(s.drop_last(), k);
    }
}

fn parse_digits(chars: &Vec<char>, from: usize, limit: u64) -> (r: Option<u64>)
    requires
        from <= chars.len(),
        limit <= 0x8000_0000,
    ensures
        match r {
            Some(v) => bounded_number(chars@.skip(from as int), limit as nat) == Some(v as nat),
            None => bounded_number(chars@.skip(from as int), limit as nat) is None,
        },
{
    if from == chars.len() {
        return None;
    }
    let ghost digits = chars@.skip(from as int);
    let mut value: u64 = 0;
    let mut i: usize = from;
    proof {
        assert(digits.take(0) =~= Seq::empty());
    }
    while i < chars.len()
        invariant
            from <= i <= chars.len(),
            digits == chars@.skip(from as int),
            limit <= 0x8000_0000,
            value <= limit,
            all_digits(digits.take(i - from)),
            value == digits_value(digits.take(i - from)),
        decreases chars.len() - i,
    {
        let n: u32 = chars[i] as u32;
        if n < 0x30 || n > 0x39 {
            proof {
                assert(digits[i - from] == chars@[i as int]);
                assert(!is_digit(digits[i - from]));
            }
            return None;
        }
        let next: u64 = value * 10 + (n - 0x30) as u64;
        proof {
            let longer = digits.take(i - from + 1);
            assert(longer.drop_last() =~= digits.take(i - from));
            assert(longer.last() == chars@[i as int]);
            assert(next == digits_value(longer));
            assert forall|j: int| 0 <= j < longer.len() implies is_digit(#[trigger] longer[j]) by {
                if j < i - from {
                    assert(longer[j] == digits.take(i - from)[j]);
                }
            }
        }
        if next > limit {
            proof {
                if all_digits(digits) {
                    lemma_digits_value_grows(digits, i - from + 1);
                }
            }
            return None;
        }
        value = next;
        i += 1;
    }
    proof {
        assert(digits.take(i - from) =~= digits);
    }
    Some(value)
}

/// Reads a 32-bit signed integer from `text`.
pub fn parse_i32(text: &str) -> (r: Option<i32>)
    ensures
        match r {
            Some(v) => parsed_i32(text@) == Some(v as int),
            None => parsed_i32(text@) is None,
        },
{
    let chars = chars_of(text);
    proof {
        assert(chars@.skip(0) =~= chars@);
        assert(chars@.skip(1) =~= chars@.drop_first());
    }
    if chars.len() > 0 && chars[0] == '-' {
        match parse_digits(&chars, 1, 0x8000_0000) {
            Some(v) => {
                let signed: i64 = 0 - (v as i64);
                Some(signed as i32)
            },
            None => None,
        }
    } else if chars.len() > 0 && chars[0] == '+' {
        match parse_digits(&chars, 1, 0x7fff_ffff) {
            Some(v) => Some(v as i32),
            None => None,
        }
    } else {
        match parse_digits(&chars, 0, 0x7fff_ffff) {
            Some(v) => Some(v as i32),
            None => None,
        }
    }
}

/// What one battery's capacity file says.
#[derive(Debug, Clone, Copy, PartialEq, Eq)]
pub enum CapacityReading {
    /// A charge level in percent.
    Level(u8),
    /// A number that is no percentage.
    OutOfRange,
    /// Nothing that could be read as a number.
    Unreadable,
}

/// What a capacity file says, given its content if it could be read: the
/// number it holds, white space aside, if that is from 0 to 100.
pub open spec fn capacity_of(raw: Option<Seq<char>>) -> CapacityReading {
    match raw {
        None => CapacityReading::Unreadable,
        Some(content) => match parsed_i32(trimmed(content)) {
            None => CapacityReading::Unreadable,
            Some(v) => if 0 <= v <= 100 {
                CapacityReading::Level(v as u8)
            } else {
                CapacityReading::OutOfRange
            },
        },
    }
}

/// The battery level that a list of capacity files gives: that of the
/// first file that holds a percentage, unless a file before it is
/// unreadable, which ends the search.
pub open spec fn battery_level_of(readings: Seq<Option<Seq<char>>>) -> Option<u8>
    decreases readings.len(),
{
    if readings.len() == 0 {
        None
    } else {
        match capacity_of(readings.first()) {
            CapacityReading::Level(v) => Some(v),
            CapacityReading::Unreadable => None,
            CapacityReading::OutOfRange => battery_level_of(readings.drop_first()),
        }
    }
}

/// The contents of a list of files, where they could be read.
pub open spec fn contents_of(readings: Seq<Option<String>>) -> Seq<Option<Seq<char>>> {
    readings.map_values(|r: Option<String>| text_of(r))
}

/// Reads what one capacity file says.
pub fn read_capacity(raw: &Option<String>) -> (reading: CapacityReading)
    ensures
        reading == capacity_of(text_of(*raw)),
{
    match raw {
        None => CapacityReading::Unreadable,
        Some(content) => {
            let text = trim(content.as_str());
            match parse_i32(text.as_str()) {
                None => CapacityReading::Unreadable,
                Some(v) => if 0 <= v && v <= 100 {
                    CapacityReading::Level(v as u8)
                } else {
                    CapacityReading::OutOfRange
                },
            }
        },
    }
}

/// The battery level, from the capacity files of the power supplies in
/// the order in which the system lists them.
pub fn battery_percent(readings: &Vec<Option<String>>) -> (level: Option<u8>)
    ensures
        level == battery_level_of(contents_of(readings@)),
{
    let mut i: usize = 0;
    proof {
        assert(contents_of(readings@).skip(0) =~= contents_of(readings@));
    }
    while i < readings.len()
        invariant
            i <= readings.len(),
            battery_level_of(contents_of(readings@)) == battery_level_of(
                contents_of(readings@).skip(i as int),
            ),
        decreases readings.len() - i,
    {
        proof {
            let all = contents_of(readings@);
            assert(all.skip(i as int).first() == text_of(readings@[i as int]));
            assert(all.skip(i as int).drop_first() =~= all.skip(i + 1));
        }
        match read_capacity(&readings[i]) {
            CapacityReading::Level(v) => {
                return Some(v);
            },
            CapacityReading::Unreadable => {
                return None;
            },
            CapacityReading::OutOfRange => {},
        }
        i += 1;
    }
    None
}

} // verus!
