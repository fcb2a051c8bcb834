//! Network interfaces: the sysfs path of a monitored interface and the JSON
//! list of interfaces offered for selection.

use vstd::prelude::*;
use vstd::relations::{sorted_by, total_ordering};

use crate::error::{is_config_error, Error};
use crate::text::{is_alnum, push_str, string_of};
use crate::validate::{is_valid_interface_name, validate_interface_name};

verus! {

/// A listed interface: its name and its operational state.
pub type Entry = (Seq<char>, Seq<char>);

/// `a` comes before or equals `b` in character order, comparing character by
/// character, a proper prefix first.
pub open spec fn text_le(a: Seq<char>, b: Seq<char>) -> bool
    decreases a.len(),
{
    if a.len() == 0 {
        true
    } else if b.len() == 0 {
        false
    } else if a[0] != b[0] {
        a[0] < b[0]
    } else {
        text_le(a.drop_first(), b.drop_first())
    }
}

/// The order of listed interfaces: by name, then by state.
pub open spec fn entry_le(a: Entry, b: Entry) -> bool {
    if a.0 == b.0 {
        text_le(a.1, b.1)
    } else {
        text_le(a.0, b.0)
    }
}

/// The order of listed interfaces as a relation.
pub open spec fn entry_order() -> spec_fn(Entry, Entry) -> bool {
    |a: Entry, b: Entry| entry_le(a, b)
}

/// An operational state as it is listed: the state when it is made of ASCII
/// letters and digits only, else `unknown`.
pub open spec fn listed_state(state: Seq<char>) -> Seq<char> {
    if forall|i: int| 0 <= i < state.len() ==> is_alnum(#[trigger] state[i]) {
        state
    } else {
        "unknown"@
    }
}

/// The interfaces that are listed, in the order found: those with a valid
/// name, with their listed state.
pub open spec fn listed_entries(found: Seq<Entry>) -> Seq<Entry>
    decreases found.len(),
{
    if found.len() == 0 {
        Seq::<Entry>::empty()
    } else {
        let init = listed_entries(found.drop_last());
        let (name, state) = found.last();
        if is_valid_interface_name(name) {
            init.push((name, listed_state(state)))
        } else {
            init
        }
    }
}

/// One listed interface as a JSON object.
pub open spec fn entry_json(e: Entry) -> Seq<char> {
    "{\"name\":\""@ + e.0 + "\",\"state\":\""@ + e.1 + "\"}"@
}

/// The JSON objects of the entries, separated by commas.
pub open spec fn entries_json(s: Seq<Entry>) -> Seq<char>
    decreases s.len(),
{
    if s.len() == 0 {
        Seq::<char>::empty()
    } else if s.len() == 1 {
        entry_json(s[0])
    } else {
        entries_json(s.drop_last()) + ","@ + entry_json(s.last())
    }
}

/// The interface report: the listed interfaces sorted by name and state.
pub open spec fn interfaces_json_text(found: Seq<Entry>) -> Seq<char> {
    "{\"interfaces\":["@ + entries_json(listed_entries(found).sort_by(entry_order()))
        + "]}"@
}

/// The entries of found interfaces, their text as characters.
pub open spec fn entries_view(v: Seq<(String, String)>) -> Seq<Entry> {
    v.map_values(|e: (String, String)| (e.0@, e.1@))
}

proof fn lemma_text_le_reflexive(a: Seq<char>)
    ensures
        text_le(a, a),
    decreases a.len(),
{
    if a.len() > 0 {
        lemma_text_le_reflexive(a.drop_first());
    }
}

proof fn lemma_text_le_antisymmetric(a: Seq<char>, b: Seq<char>)
    requires
        text_le(a, b),
        text_le(b, a),
    ensures
        a == b,
    decreases a.len(),
{
    if a.len() == 0 {
        assert(b.len() == 0);
        assert(a =~= b);
    } else {
        lemma_text_le_antisymmetric(a.drop_first(), b.drop_first());
        assert(a =~= seq![a[0]] + a.drop_first());
        assert(b =~= seq![b[0]] + b.drop_first());
    }
}

proof fn lemma_text_le_transitive(a: Seq<char>, b: Seq<char>, c: Seq<char>)
    requires
        text_le(a, b),
        text_le(b, c),
    ensures
        text_le(a, c),
    decreases a.len(),
{
    if a.len() > 0 && b.len() > 0 && c.len() > 0 && a[0] == b[0] && b[0] == c[0] {
        lemma_text_le_transitive(a.drop_first(), b.drop_first(), c.drop_first());
    }
}

proof fn lemma_text_le_total(a: Seq<char>, b: Seq<char>)
    ensures
        text_le(a, b) || text_le(b, a),
    decreases a.len(),
{
    if a.len() > 0 && b.len() > 0 && a[0] == b[0] {
        lemma_text_le_total(a.drop_first(), b.drop_first());
    }
}

/// The order of listed interfaces is a total order.
pub proof fn lemma_entry_order_total()
    ensures
        total_ordering(entry_order()),
{
    let leq = entry_order();
    assert forall|x: Entry| #[trigger] leq(x, x) by {
        lemma_text_le_reflexive(x.1);
    }
    assert forall|x: Entry, y: Entry| #[trigger] leq(x, y) && #[trigger] leq(y, x) implies x
        == y by {
        if x.0 == y.0 {
            lemma_text_le_antisymmetric(x.1, y.1);
        } else {
            lemma_text_le_antisymmetric(x.0, y.0);
        }
    }
    assert forall|x: Entry, y: Entry, z: Entry| #[trigger]
        leq(x, y) && #[trigger] leq(y, z) implies leq(x, z) by {
        if x.0 == y.0 && y.0 == z.0 {
            lemma_text_le_transitive(x.1, y.1, z.1);
        } else if x.0 == y.0 {
        } else if y.0 == z.0 {
        } else {
            lemma_text_le_transitive(x.0, y.0, z.0);
            if x.0 == z.0 {
                lemma_text_le_antisymmetric(x.0, y.0);
            }
        }
    }
    assert forall|x: Entry, y: Entry| #[trigger] leq(x, y) || #[trigger] leq(y, x) by {
        if x.0 == y.0 {
            lemma_text_le_total(x.1, y.1);
        } else {
            lemma_text_le_total(x.0, y.0);
        }
    }
}

proof fn lemma_text_le_step(a: Seq<char>, b: Seq<char>, i: int)
    requires
        0 <= i < a.len(),
        i < b.len(),
        a[i] == b[i],
    ensures
        text_le(a.skip(i), b.skip(i)) == text_le(a.skip(i + 1), b.skip(i + 1)),
{
    assert(a.skip(i).drop_first() =~= a.skip(i + 1));
    assert(b.skip(i).drop_first() =~= b.skip(i + 1));
}

/// Whether `a` comes before or equals `b` in character order.
fn text_less_eq(a: &str, b: &str) -> (r: bool)
    ensures
        r == text_le(a@, b@),
{
    let n = a.unicode_len();
    let m = b.unicode_len();
    let mut i: usize = 0;
    assert(a@.skip(0) =~= a@);
    assert(b@.skip(0) =~= b@);
    while i < n && i < m
        invariant
            n == a@.len(),
            m == b@.len(),
            i <= n,
            i <= m,
            text_le(a@, b@) == text_le(a@.skip(i as int), b@.skip(i as int)),
        decreases n - i,
    {
        let x = a.get_char(i);
        let y = b.get_char(i);
        if x != y {
            return x < y;
        }
        proof {
            lemma_text_le_step(a@, b@, i as int);
        }
        i = i + 1;
    }
    i == n
}

/// Whether the entry `a` comes before or equals `b`.
fn entry_less_eq(a: &(String, String), b: &(String, String)) -> (r: bool)
    ensures
        r == entry_le((a.0@, a.1@), (b.0@, b.1@)),
{
    if a.0 == b.0 {
        text_less_eq(a.1.as_str(), b.1.as_str())
    } else {
        text_less_eq(a.0.as_str(), b.0.as_str())
    }
}

/// The state as it is listed: kept when made of ASCII letters and digits,
/// else `unknown`.
fn sanitized_state(state: &str) -> (r: String)
    ensures
        r@ == listed_state(state@),
{
    let n = state.unicode_len();
    let mut i: usize = 0;
    while i < n
        invariant
            n == state@.len(),
            i <= n,
            forall|j: int| 0 <= j < i ==> is_alnum(#[trigger] state@[j]),
        decreases n - i,
    {
        let c = state.get_char(i);
        if !(('0' <= c && c <= '9') || ('a' <= c && c <= 'z') || ('A' <= c && c <= 'Z')) {
            assert(!is_alnum(state@[i as int]));
            return string_of("unknown");
        }
        i = i + 1;
    }
    string_of(state)
}

/// The interfaces to list, sorted by name and then state; `found` holds the
/// name of each interface found and its operational state (`unknown` when it
/// could not be read).
pub fn listed_interfaces(found: &Vec<(String, String)>) -> (r: Vec<(String, String)>)
    ensures
        entries_view(r@) == listed_entries(entries_view(found@)).sort_by(entry_order()),
{
    let mut sorted: Vec<(String, String)> = Vec::new();
    let mut i: usize = 0;
    proof {
        lemma_entry_order_total();
        assert(entries_view(found@).subrange(0, 0) =~= Seq::<Entry>::empty());
        assert(entries_view(sorted@) =~= Seq::<Entry>::empty());
    }
    while i < found.len()
        invariant
            i <= found@.len(),
            total_ordering(entry_order()),
            sorted_by(entries_view(sorted@), entry_order()),
            entries_view(sorted@).to_multiset() == listed_entries(
                entries_view(found@).subrange(0, i as int),
            ).to_multiset(),
        decreases found.len() - i,
    {
        let ghost before = entries_view(found@).subrange(0, i as int);
        proof {
            assert(entries_view(found@).subrange(0, i + 1).drop_last() =~= before);
        }
        let entry = &found[i];
        let valid = validate_interface_name(entry.0.as_str()).is_ok();
        if valid {
            let item = (entry.0.clone(), sanitized_state(entry.1.as_str()));
            let ghost x: Entry = (item.0@, item.1@);
            let ghost old_sorted = entries_view(sorted@);
            // The place of the new entry: after every entry that is not after it.
            let mut k: usize = 0;
            while k < sorted.len() && entry_less_eq(&sorted[k], &item)
                invariant
                    k <= sorted@.len(),
                    old_sorted == entries_view(sorted@),
                    x == (item.0@, item.1@),
                    forall|j: int| 0 <= j < k ==> entry_order()(#[trigger] old_sorted[j], x),
                decreases sorted.len() - k,
            {
                assert(old_sorted[k as int] == (sorted@[k as int].0@, sorted@[k as int].1@));
                k = k + 1;
            }
            proof {
                if k < sorted@.len() {
                    assert(old_sorted[k as int] == (sorted@[k as int].0@, sorted@[k as int].1@));
                    assert(!entry_order()(old_sorted[k as int], x));
                    assert(entry_order()(x, old_sorted[k as int]));
                }
            }
            sorted.insert(k, item);
            proof {
                let ns = entries_view(sorted@);
                assert(ns =~= old_sorted.insert(k as int, x));
                old_sorted.insert_ensures(k as int, x);
                assert forall|a: int, b: int| 0 <= a < b < ns.len() implies #[trigger] entry_order()(
                    ns[a],
                    ns[b],
                ) by {
                    if b < k {
                        assert(ns[a] == old_sorted[a] && ns[b] == old_sorted[b]);
                    } else if b == k {
                        assert(ns[a] == old_sorted[a]);
                    } else if a == k {
                        assert(ns[b] == old_sorted[b - 1]);
                        assert(entry_order()(x, old_sorted[k as int]));
                        if b - 1 > k {
                            assert(entry_order()(old_sorted[k as int], old_sorted[b - 1]));
                        }
                    } else if a < k {
                        assert(ns[a] == old_sorted[a]);
                        assert(ns[b] == old_sorted[b - 1]);
                    } else {
                        assert(ns[a] == old_sorted[a - 1]);
                        assert(ns[b] == old_sorted[b - 1]);
                    }
                }
                vstd::seq_lib::to_multiset_insert(old_sorted, k as int, x);
                vstd::seq_lib::to_multiset_build(listed_entries(before), x);
                assert(entries_view(found@).subrange(0, i + 1).last() == (entry.0@, entry.1@));
            }
        } else {
            proof {
                assert(entries_view(found@).subrange(0, i + 1).last() == (entry.0@, entry.1@));
            }
        }
        i = i + 1;
    }
    proof {
        assert(entries_view(found@).subrange(0, found@.len() as int) =~= entries_view(found@));
        let target = listed_entries(entries_view(found@));
        target.lemma_sort_by_ensures(entry_order());
        vstd::seq_lib::lemma_sorted_unique(entries_view(sorted@), target.sort_by(entry_order()), entry_order());
    }
    sorted
}

/// The interface report as JSON; `found` holds the name of each interface
/// found and its operational state (`unknown` when it could not be read).
/// Interfaces with unsafe names are left out, states that are not
/// alphanumeric are listed as `unknown`, and the list is sorted.
pub fn interfaces_json_from(found: &Vec<(String, String)>) -> (r: String)
    ensures
        r@ == interfaces_json_text(entries_view(found@)),
{
    let listed = listed_interfaces(found);
    let ghost s = entries_view(listed@);
    let mut out = string_of("{\"interfaces\":[");
    let ghost head = out@;
    let mut i: usize = 0;
    while i < listed.len()
        invariant
            i <= listed@.len(),
            s == entries_view(listed@),
            out@ == head + entries_json(s.subrange(0, i as int)),
        decreases listed.len() - i,
    {
        let ghost prefix = s.subrange(0, i as int);
        let ghost next = s.subrange(0, i + 1);
        proof {
            assert(next.drop_last() =~= prefix);
        }
        if i > 0 {
            push_str(&mut out, ",");
        }
        push_str(&mut out, "{\"name\":\"");
        push_str(&mut out, listed[i].0.as_str());
        push_str(&mut out, "\",\"state\":\"");
        push_str(&mut out, listed[i].1.as_str());
        push_str(&mut out, "\"}");
        proof {
            if i == 0 {
                assert(prefix =~= Seq::<Entry>::empty());
            }
            assert(out@ =~= head + entries_json(next));
        }
        i = i + 1;
    }
    push_str(&mut out, "]}");
    proof {
        assert(s.subrange(0, s.len() as int) =~= s);
    }
    out
}

/// The sysfs directory of a monitored network interface; the name must be
/// safe.
pub fn network_interface_path(interface: &str) -> (r: Result<String, Error>)
    ensures
        is_valid_interface_name(interface@) ==> (r matches Ok(p) && p@ == "/sys/class/net/"@
            + interface@),
        !is_valid_interface_name(interface@) ==> (r matches Err(e) && is_config_error(
            e,
            crate::validate::interface_name_message(),
        )),
{
    validate_interface_name(interface)?;
    let mut p = string_of("/sys/class/net/");
    push_str(&mut p, interface);
    Ok(p)
}

/// The `Config` error of a monitored interface that does not exist.
pub fn missing_interface_error(interface: &str) -> (e: Error)
    ensures
        is_config_error(e, "network interface "@ + interface@ + " does not exist"@),
{
    let mut m = string_of("network interface ");
    push_str(&mut m, interface);
    push_str(&mut m, " does not exist");
    Error::Config(m)
}

} // verus!

verus! {

/// Whether `s` reads as an IPv6 address (`Ipv6Addr`'s `FromStr`).
pub uninterp spec fn is_ipv6_address_text(s: Seq<char>) -> bool;

/// Whether the text parses as an IPv6 address, by `str::parse` into
/// `core::net::Ipv6Addr`. The contract only claims that the answer is
/// `is_ipv6_address_text` of the text, a function of the text alone; what
/// that grammar accepts is not stated.
#[verifier::external_body]
fn parses_as_ipv6_address(value: &str) -> (r: bool)
    ensures
        r == is_ipv6_address_text(value@),
{
    value.parse::<core::net::Ipv6Addr>().is_ok()
}

/// The arguments of one ping of `target`: numeric output, one echo request,
/// a one-second timeout, `-6` for an IPv6 address, then the target.
pub open spec fn ping_argument_texts(target: Seq<char>, is_ipv6: bool) -> Seq<Seq<char>> {
    seq!["-n"@, "-c"@, "1"@, "-W"@, "1"@] + (if is_ipv6 {
        seq!["-6"@]
    } else {
        Seq::<Seq<char>>::empty()
    }) + seq![target]
}

/// The arguments of one ping of `target`, given whether it reads as an IPv6
/// address.
pub fn ping_arguments_parsed(target: &str, is_ipv6: bool) -> (r: Vec<String>)
    ensures
        r@.map_values(|s: String| s@) == ping_argument_texts(target@, is_ipv6),
{
    let mut r: Vec<String> = Vec::new();
    r.push(string_of("-n"));
    r.push(string_of("-c"));
    r.push(string_of("1"));
    r.push(string_of("-W"));
    r.push(string_of("1"));
    if is_ipv6 {
        r.push(string_of("-6"));
    }
    r.push(string_of(target));
    assert(r@.map_values(|s: String| s@) =~= ping_argument_texts(target@, is_ipv6));
    r
}

/// The arguments of one ping of `target`.
pub fn ping_arguments(target: &str) -> (r: Vec<String>)
    ensures
        r@.map_values(|s: String| s@) == ping_argument_texts(
            target@,
            is_ipv6_address_text(target@),
        ),
{
    let is_ipv6 = parses_as_ipv6_address(target);
    ping_arguments_parsed(target, is_ipv6)
}

} // verus!
