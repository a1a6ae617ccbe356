//! Known devices by name, then address, so the order is stable.

use crate::address_map::AddressMap;
use crate::devices::enums::{DeviceData, DeviceDataView, DeviceType};
use crate::text::{same_text, text_before};
use vstd::prelude::*;

verus! {

/// Whether one device is listed before another: by name, then by address.
pub open spec fn listed_before(
    devices: Map<Seq<char>, DeviceDataView>,
    a: Seq<char>,
    b: Seq<char>,
) -> bool {
    ||| crate::text::comes_before(devices[a].name, devices[b].name)
    ||| devices[a].name == devices[b].name && crate::text::comes_before(a, b)
}

/// Every address comes before those that follow it.
pub open spec fn ascending(
    devices: Map<Seq<char>, DeviceDataView>,
    macs: Seq<Seq<char>>,
) -> bool {
    forall|i: int, j: int|
        0 <= i < j < macs.len() ==> listed_before(devices, #[trigger] macs[i], #[trigger] macs[j])
}

/// The addresses of all devices, in order.
pub open spec fn is_listing(
    devices: Map<Seq<char>, DeviceDataView>,
    macs: Seq<Seq<char>>,
) -> bool {
    &&& ascending(devices, macs)
    &&& forall|k: Seq<char>| #[trigger] macs.contains(k) <==> devices.contains_key(k)
}

/// The addresses of all devices, in order.
pub open spec fn listing(devices: Map<Seq<char>, DeviceDataView>) -> Seq<Seq<char>> {
    choose|macs: Seq<Seq<char>>| is_listing(devices, macs)
}

proof fn lemma_order(
    devices: Map<Seq<char>, DeviceDataView>,
    a: Seq<char>,
    b: Seq<char>,
    c: Seq<char>,
)
    ensures
        !listed_before(devices, a, a),
        listed_before(devices, a, b) && listed_before(devices, b, c) ==> listed_before(
            devices,
            a,
            c,
        ),
        a != b ==> listed_before(devices, a, b) || listed_before(devices, b, a),
{
    let x = devices[a].name;
    let y = devices[b].name;
    let z = devices[c].name;
    crate::text::order_is_irreflexive(x);
    crate::text::order_is_irreflexive(a);
    if crate::text::comes_before(x, y) && crate::text::comes_before(y, z) {
        crate::text::order_is_transitive(x, y, z);
    }
    if crate::text::comes_before(a, b) && crate::text::comes_before(b, c) {
        crate::text::order_is_transitive(a, b, c);
    }
    if x != y {
        crate::text::order_is_total(x, y);
    }
    if a != b {
        crate::text::order_is_total(a, b);
    }
}

proof fn lemma_same_contents(
    devices: Map<Seq<char>, DeviceDataView>,
    a: Seq<Seq<char>>,
    b: Seq<Seq<char>>,
)
    requires
        ascending(devices, a),
        ascending(devices, b),
        forall|k: Seq<char>| #[trigger] a.contains(k) <==> b.contains(k),
    ensures
        a == b,
    decreases a.len(),
{
    if a.len() == 0 {
        if b.len() > 0 {
            assert(b.contains(b[0]));
            assert(!a.contains(b[0]));
        }
        assert(a =~= b);
    } else {
        assert(a.contains(a[0]));
        assert(b.len() > 0);
        let x = a.last();
        let y = b.last();
        assert(a.contains(x));
        assert(b.contains(y));
        assert(b.contains(x));
        assert(a.contains(y));
        let i = choose|i: int| 0 <= i < b.len() && b[i] == x;
        let j = choose|j: int| 0 <= j < a.len() && a[j] == y;
        if x != y {
            assert(listed_before(devices, b[i], b[b.len() - 1]));
            assert(listed_before(devices, a[j], a[a.len() - 1]));
            lemma_order(devices, x, y, x);
        }
        assert forall|k: Seq<char>| #[trigger]
            a.drop_last().contains(k) <==> b.drop_last().contains(k) by {
            lemma_drop_last(devices, a, k);
            lemma_drop_last(devices, b, k);
        }
        assert(ascending(devices, a.drop_last())) by {
            assert forall|i: int, j: int| 0 <= i < j < a.drop_last().len() implies listed_before(
                devices,
                #[trigger] a.drop_last()[i],
                #[trigger] a.drop_last()[j],
            ) by {
                assert(listed_before(devices, a[i], a[j]));
            }
        }
        assert(ascending(devices, b.drop_last())) by {
            assert forall|i: int, j: int| 0 <= i < j < b.drop_last().len() implies listed_before(
                devices,
                #[trigger] b.drop_last()[i],
                #[trigger] b.drop_last()[j],
            ) by {
                assert(listed_before(devices, b[i], b[j]));
            }
        }
        lemma_same_contents(devices, a.drop_last(), b.drop_last());
        assert(a =~= a.drop_last().push(x));
        assert(b =~= b.drop_last().push(y));
    }
}

proof fn lemma_drop_last(
    devices: Map<Seq<char>, DeviceDataView>,
    a: Seq<Seq<char>>,
    k: Seq<char>,
)
    requires
        ascending(devices, a),
        a.len() > 0,
    ensures
        a.drop_last().contains(k) <==> a.contains(k) && k != a.last(),
{
    if a.drop_last().contains(k) {
        let i = choose|i: int| 0 <= i < a.drop_last().len() && a.drop_last()[i] == k;
        assert(a[i] == k);
        assert(listed_before(devices, a[i], a[a.len() - 1]));
        lemma_order(devices, k, k, k);
    }
    if a.contains(k) && k != a.last() {
        let i = choose|i: int| 0 <= i < a.len() && a[i] == k;
        assert(a.drop_last()[i] == k);
    }
}

/// The order is stable: the same devices are always listed in one order.
pub proof fn one_order_only(
    devices: Map<Seq<char>, DeviceDataView>,
    a: Seq<Seq<char>>,
    b: Seq<Seq<char>>,
)
    requires
        is_listing(devices, a),
        is_listing(devices, b),
    ensures
        a == b,
        a == listing(devices),
{
    assert forall|k: Seq<char>| #[trigger] a.contains(k) <==> b.contains(k) by {}
    lemma_same_contents(devices, a, b);
    let c = listing(devices);
    assert(is_listing(devices, c));
    assert forall|k: Seq<char>| #[trigger] a.contains(k) <==> c.contains(k) by {}
    lemma_same_contents(devices, a, c);
}

fn is_listed_before(devices: &AddressMap<DeviceData>, a: &str, b: &str) -> (yes: bool)
    requires
        devices.wf(),
        devices@.contains_key(a@),
        devices@.contains_key(b@),
    ensures
        yes == listed_before(devices@, a@, b@),
{
    match (devices.get(a), devices.get(b)) {
        (Some(x), Some(y)) => text_before(x.name.as_str(), y.name.as_str()) || (same_text(
            x.name.as_str(),
            y.name.as_str(),
        ) && text_before(a, b)),
        _ => false,
    }
}

/// Where an address goes in a list in order that does not have it yet.
fn place_of(devices: &AddressMap<DeviceData>, macs: &Vec<String>, mac: &str) -> (at: usize)
    requires
        devices.wf(),
        devices@.contains_key(mac@),
        !crate::text::texts(macs@).contains(mac@),
        ascending(devices@, crate::text::texts(macs@)),
        forall|k: Seq<char>| #[trigger]
            crate::text::texts(macs@).contains(k) ==> devices@.contains_key(k),
    ensures
        at <= macs@.len(),
        forall|j: int|
            0 <= j < at ==> listed_before(
                devices@,
                #[trigger] crate::text::texts(macs@)[j],
                mac@,
            ),
        at < macs@.len() ==> listed_before(
            devices@,
            mac@,
            crate::text::texts(macs@)[at as int],
        ),
{
    let ghost known = crate::text::texts(macs@);
    let mut at: usize = 0;
    while at < macs.len()
        invariant
            devices.wf(),
            devices@.contains_key(mac@),
            at <= macs@.len(),
            known == crate::text::texts(macs@),
            !known.contains(mac@),
            forall|k: Seq<char>| #[trigger] known.contains(k) ==> devices@.contains_key(k),
            forall|j: int| 0 <= j < at ==> listed_before(devices@, #[trigger] known[j], mac@),
        decreases macs@.len() - at,
    {
        proof {
            assert(known[at as int] == macs@[at as int]@);
            assert(known.contains(known[at as int]));
            lemma_order(devices@, known[at as int], mac@, mac@);
        }
        if is_listed_before(devices, mac, macs[at].as_str()) {
            return at;
        }
        at = at + 1;
    }
    at
}

/// The addresses of all devices, in order.
pub fn sorted_macs(devices: &AddressMap<DeviceData>) -> (macs: Vec<String>)
    requires
        devices.wf(),
    ensures
        is_listing(devices@, crate::text::texts(macs@)),
        crate::text::texts(macs@) == listing(devices@),
{
    let mut macs: Vec<String> = Vec::new();
    let mut i: usize = 0;
    proof {
        devices.lemma_addresses();
    }
    while i < devices.len()
        invariant
            devices.wf(),
            i <= devices.addresses().len(),
            devices.addresses().no_duplicates(),
            forall|k: Seq<char>|
                #[trigger] devices@.contains_key(k) <==> devices.addresses().contains(k),
            ascending(devices@, crate::text::texts(macs@)),
            forall|k: Seq<char>| #[trigger]
                crate::text::texts(macs@).contains(k) <==> devices.addresses().take(
                    i as int,
                ).contains(k),
        decreases devices.addresses().len() - i,
    {
        let ghost known = crate::text::texts(macs@);
        let ghost addresses = devices.addresses();
        let mac: String = devices.address_at(i).clone();
        proof {
            assert(addresses.contains(mac@)) by {
                assert(addresses[i as int] == mac@);
            }
            assert forall|k: Seq<char>| #[trigger] known.contains(k) implies devices@.contains_key(
                k,
            ) by {
                assert(addresses.take(i as int).contains(k));
                let j = choose|j: int|
                    0 <= j < addresses.take(i as int).len() && addresses.take(i as int)[j] == k;
                assert(addresses[j] == k);
                assert(addresses.contains(k));
            }
            assert(!known.contains(mac@)) by {
                if known.contains(mac@) {
                    assert(addresses.take(i as int).contains(mac@));
                    let j = choose|j: int|
                        0 <= j < addresses.take(i as int).len() && addresses.take(i as int)[j]
                            == mac@;
                    assert(addresses[j] == addresses[i as int]);
                }
            }
        }
        let at: usize = place_of(devices, &macs, mac.as_str());
        let ghost name = mac@;
        let ghost before = macs@;
        macs.insert(at, mac);
        i = i + 1;
        proof {
            let now = crate::text::texts(macs@);
            assert(now =~= known.insert(at as int, name));
            assert forall|x: int, y: int| 0 <= x < y < now.len() implies listed_before(
                devices@,
                #[trigger] now[x],
                #[trigger] now[y],
            ) by {
                if x < at && y == at {
                    assert(listed_before(devices@, known[x], name));
                } else if y < at {
                    assert(listed_before(devices@, known[x], known[y]));
                } else if x == at {
                    if y - 1 > at {
                        assert(listed_before(devices@, known[at as int], known[y - 1]));
                        lemma_order(devices@, name, known[at as int], known[y - 1]);
                    }
                } else if x < at {
                    assert(listed_before(devices@, known[x], known[y - 1]));
                } else {
                    assert(listed_before(devices@, known[x - 1], known[y - 1]));
                }
            }
            assert forall|k: Seq<char>| #[trigger] now.contains(k) <==> addresses.take(
                i as int,
            ).contains(k) by {
                let taken = addresses.take(i as int);
                let earlier = addresses.take(i - 1);
                assert(taken =~= earlier.push(name));
                if now.contains(k) {
                    let j = choose|j: int| 0 <= j < now.len() && now[j] == k;
                    if j == at {
                        assert(taken[i - 1] == k);
                    } else {
                        let o = if j < at {
                            j
                        } else {
                            j - 1
                        };
                        assert(known[o] == k);
                        assert(known.contains(k));
                        assert(earlier.contains(k));
                        let n = choose|n: int| 0 <= n < earlier.len() && earlier[n] == k;
                        assert(taken[n] == k);
                    }
                }
                if taken.contains(k) {
                    let n = choose|n: int| 0 <= n < taken.len() && taken[n] == k;
                    if n == i - 1 {
                        assert(now[at as int] == k);
                    } else {
                        assert(earlier[n] == k);
                        assert(known.contains(k));
                        let o = choose|o: int| 0 <= o < known.len() && known[o] == k;
                        if o < at {
                            assert(now[o] == k);
                        } else {
                            assert(now[o + 1] == k);
                        }
                    }
                }
            }
        }
    }
    proof {
        let found = crate::text::texts(macs@);
        assert(devices.addresses().take(i as int) =~= devices.addresses());
        assert(is_listing(devices@, found));
        one_order_only(devices@, found, found);
    }
    macs
}

/// The first AirPods of a list of devices.
pub open spec fn first_airpods(
    devices: Map<Seq<char>, DeviceDataView>,
    macs: Seq<Seq<char>>,
) -> Option<Seq<char>>
    decreases macs.len(),
{
    if macs.len() == 0 {
        None
    } else if devices[macs[0]].type_ == DeviceType::AirPods {
        Some(macs[0])
    } else {
        first_airpods(devices, macs.skip(1))
    }
}

/// The first known AirPods, by name and then address.
pub fn first_listed_airpods(devices: &AddressMap<DeviceData>) -> (mac: Option<String>)
    requires
        devices.wf(),
    ensures
        match mac {
            Some(m) => first_airpods(devices@, listing(devices@)) == Some(m@),
            None => first_airpods(devices@, listing(devices@)) is None,
        },
{
    let macs = sorted_macs(devices);
    let ghost all = listing(devices@);
    let mut i: usize = 0;
    proof {
        assert(all.skip(0) =~= all);
    }
    while i < macs.len()
        invariant
            devices.wf(),
            i <= macs@.len(),
            all == crate::text::texts(macs@),
            all == listing(devices@),
            is_listing(devices@, all),
            first_airpods(devices@, all) == first_airpods(devices@, all.skip(i as int)),
        decreases macs@.len() - i,
    {
        proof {
            assert(all[i as int] == macs@[i as int]@);
            assert(all.contains(all[i as int]));
            assert(all.skip(i as int)[0] == all[i as int]);
            assert(all.skip(i as int).skip(1) =~= all.skip(i + 1));
        }
        match devices.get(macs[i].as_str()) {
            Some(device) => if device.type_ == DeviceType::AirPods {
                return Some(macs[i].clone());
            },
            None => {},
        }
        i = i + 1;
    }
    None
}

/// The first AirPods in the list are AirPods, and none are listed before them.
pub proof fn first_airpods_lead_the_list(
    devices: Map<Seq<char>, DeviceDataView>,
    macs: Seq<Seq<char>>,
    other: Seq<char>,
)
    requires
        is_listing(devices, macs),
        devices.contains_key(other),
        devices[other].type_ == DeviceType::AirPods,
    ensures
        first_airpods(devices, macs) matches Some(first) && devices.contains_key(first)
            && devices[first].type_ == DeviceType::AirPods && (first == other || listed_before(
            devices,
            first,
            other,
        )),
{
    assert(macs.contains(other));
    let at = choose|at: int| 0 <= at < macs.len() && macs[at] == other;
    lemma_first(devices, macs, at);
    let first = first_airpods(devices, macs)->0;
    let i = choose|i: int| 0 <= i <= at && macs[i] == first;
    assert(macs.contains(first));
    if i < at {
        assert(listed_before(devices, macs[i], macs[at]));
    }
}

proof fn lemma_first(devices: Map<Seq<char>, DeviceDataView>, macs: Seq<Seq<char>>, at: int)
    requires
        0 <= at < macs.len(),
        devices[macs[at]].type_ == DeviceType::AirPods,
    ensures
        first_airpods(devices, macs) matches Some(first) && devices[first].type_
            == DeviceType::AirPods && exists|i: int| 0 <= i <= at && #[trigger] macs[i] == first,
    decreases at,
{
    if devices[macs[0]].type_ == DeviceType::AirPods {
        assert(macs[0] == macs[0]);
    } else {
        let rest = macs.skip(1);
        assert(rest[at - 1] == macs[at]);
        lemma_first(devices, rest, at - 1);
        let first = first_airpods(devices, rest)->0;
        let i = choose|i: int| 0 <= i <= at - 1 && #[trigger] rest[i] == first;
        assert(macs[i + 1] == first);
    }
}

/// A list in order with one more address at its place.
spec fn placed(
    devices: Map<Seq<char>, DeviceDataView>,
    macs: Seq<Seq<char>>,
    mac: Seq<char>,
) -> Seq<Seq<char>>
    decreases macs.len(),
{
    if macs.len() == 0 || listed_before(devices, macs.last(), mac) {
        macs.push(mac)
    } else {
        placed(devices, macs.drop_last(), mac).push(macs.last())
    }
}

proof fn lemma_placed(
    devices: Map<Seq<char>, DeviceDataView>,
    macs: Seq<Seq<char>>,
    mac: Seq<char>,
)
    requires
        ascending(devices, macs),
        !macs.contains(mac),
    ensures
        ascending(devices, placed(devices, macs, mac)),
        forall|k: Seq<char>| #[trigger]
            placed(devices, macs, mac).contains(k) <==> macs.contains(k) || k == mac,
    decreases macs.len(),
{
    let all = placed(devices, macs, mac);
    if macs.len() == 0 || listed_before(devices, macs.last(), mac) {
        assert forall|i: int, j: int| 0 <= i < j < all.len() implies listed_before(
            devices,
            #[trigger] all[i],
            #[trigger] all[j],
        ) by {
            if j < macs.len() {
                assert(listed_before(devices, macs[i], macs[j]));
            } else if i < macs.len() - 1 {
                assert(listed_before(devices, macs[i], macs[macs.len() - 1]));
                lemma_order(devices, macs[i], macs.last(), mac);
            }
        }
        assert forall|k: Seq<char>| #[trigger]
            all.contains(k) <==> macs.contains(k) || k == mac by {
            if all.contains(k) {
                let i = choose|i: int| 0 <= i < all.len() && all[i] == k;
                if i < macs.len() {
                    assert(macs[i] == k);
                }
            }
            if macs.contains(k) {
                let i = choose|i: int| 0 <= i < macs.len() && macs[i] == k;
                assert(all[i] == k);
            }
            assert(all[macs.len() as int] == mac);
        }
    } else {
        let rest = macs.drop_last();
        let last = macs.last();
        assert(macs.contains(last));
        assert forall|i: int, j: int| 0 <= i < j < rest.len() implies listed_before(
            devices,
            #[trigger] rest[i],
            #[trigger] rest[j],
        ) by {
            assert(listed_before(devices, macs[i], macs[j]));
        }
        assert(!rest.contains(mac)) by {
            if rest.contains(mac) {
                let i = choose|i: int| 0 <= i < rest.len() && rest[i] == mac;
                assert(macs[i] == mac);
            }
        }
        lemma_placed(devices, rest, mac);
        let inner = placed(devices, rest, mac);
        assert(all =~= inner.push(last));
        lemma_order(devices, last, mac, mac);
        assert forall|i: int, j: int| 0 <= i < j < all.len() implies listed_before(
            devices,
            #[trigger] all[i],
            #[trigger] all[j],
        ) by {
            if j < inner.len() {
                assert(listed_before(devices, inner[i], inner[j]));
            } else {
                assert(inner.contains(inner[i]));
                if inner[i] != mac {
                    assert(rest.contains(inner[i]));
                    let n = choose|n: int| 0 <= n < rest.len() && rest[n] == inner[i];
                    assert(listed_before(devices, macs[n], macs[macs.len() - 1]));
                }
            }
        }
        assert forall|k: Seq<char>| #[trigger]
            all.contains(k) <==> macs.contains(k) || k == mac by {
            lemma_drop_last(devices, macs, k);
            if all.contains(k) {
                let i = choose|i: int| 0 <= i < all.len() && all[i] == k;
                if i < inner.len() {
                    assert(inner[i] == k);
                    assert(inner.contains(k));
                }
            }
            if inner.contains(k) {
                let i = choose|i: int| 0 <= i < inner.len() && inner[i] == k;
                assert(all[i] == k);
            }
            assert(all[inner.len() as int] == last);
        }
    }
}

proof fn lemma_some_listing(
    devices: Map<Seq<char>, DeviceDataView>,
    among: Set<Seq<char>>,
) -> (macs: Seq<Seq<char>>)
    requires
        among.finite(),
    ensures
        ascending(devices, macs),
        forall|k: Seq<char>| #[trigger] macs.contains(k) <==> among.contains(k),
    decreases among.len(),
{
    if among.is_empty() {
        assert forall|k: Seq<char>| #[trigger]
            Seq::<Seq<char>>::empty().contains(k) <==> among.contains(k) by {
            assert(!among.contains(k)) by {
                assert(among =~= Set::<Seq<char>>::empty());
            }
        }
        Seq::empty()
    } else {
        let mac = among.choose();
        let rest = lemma_some_listing(devices, among.remove(mac));
        assert(!rest.contains(mac));
        lemma_placed(devices, rest, mac);
        placed(devices, rest, mac)
    }
}

/// Every set of devices has an order.
pub proof fn devices_have_an_order(devices: Map<Seq<char>, DeviceDataView>)
    requires
        devices.dom().finite(),
    ensures
        is_listing(devices, listing(devices)),
{
    let macs = lemma_some_listing(devices, devices.dom());
    assert(is_listing(devices, macs));
}

/// Devices are listed by name, and by address where they share one.
pub proof fn devices_are_listed_by_name(
    devices: Map<Seq<char>, DeviceDataView>,
    a: Seq<char>,
    b: Seq<char>,
)
    ensures
        devices[a].name != devices[b].name ==> (listed_before(devices, a, b)
            <==> crate::text::comes_before(devices[a].name, devices[b].name)),
        devices[a].name == devices[b].name ==> (listed_before(devices, a, b)
            <==> crate::text::comes_before(a, b)),
{
    crate::text::order_is_irreflexive(devices[a].name);
}

} // verus!
