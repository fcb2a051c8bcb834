//! Validation of network interface names and ICMP probe targets.

use vstd::prelude::*;

use crate::error::{fails_config, Error};
use crate::text::{is_alnum, string_of};

verus! {

/// A character allowed in a network interface name.
pub open spec fn is_interface_char(c: char) -> bool {
    is_alnum(c) || c == '_' || c == '.' || c == ':' || c == '-'
}

/// `s` is a safe network interface name: 1 to 15 ASCII letters, digits,
/// dots, underscores, colons or hyphens.
pub open spec fn is_valid_interface_name(s: Seq<char>) -> bool {
    &&& 1 <= s.len() <= 15
    &&& forall|i: int| 0 <= i < s.len() ==> is_interface_char(#[trigger] s[i])
}

/// The message of an invalid interface name.
pub open spec fn interface_name_message() -> Seq<char> {
    "interface must be 1-15 ASCII letters, digits, dots, underscores, colons, or hyphens"@
}

/// The message of an invalid ICMP target.
pub open spec fn probe_target_message() -> Seq<char> {
    "ICMP target must be an IPv4 address, IPv6 address, or DNS hostname"@
}

/// The `.`-separated labels of `s`, as `str::split('.')` yields them; the
/// empty text has one empty label.
pub open spec fn labels(s: Seq<char>) -> Seq<Seq<char>>
    decreases s.len(),
{
    if s.len() == 0 {
        seq![Seq::<char>::empty()]
    } else {
        let init = labels(s.drop_last());
        if s.last() == '.' {
            init.push(Seq::<char>::empty())
        } else {
            init.update(init.len() - 1, init.last().push(s.last()))
        }
    }
}

/// A character allowed in a DNS label.
pub open spec fn is_label_char(c: char) -> bool {
    is_alnum(c) || c == '-'
}

/// A DNS label: 1 to 63 ASCII letters, digits or hyphens, not starting or
/// ending with a hyphen.
pub open spec fn is_valid_label(l: Seq<char>) -> bool {
    &&& 1 <= l.len() <= 63
    &&& l[0] != '-'
    &&& l.last() != '-'
    &&& forall|i: int| 0 <= i < l.len() ==> is_label_char(#[trigger] l[i])
}

/// `s` without one trailing `.`.
pub open spec fn without_final_dot(s: Seq<char>) -> Seq<char> {
    if s.len() > 0 && s.last() == '.' {
        s.drop_last()
    } else {
        s
    }
}

/// `s` is a DNS host name that may serve as an ICMP target: at most 253
/// characters, optionally ending in `.`, made of valid labels.
pub open spec fn is_valid_hostname(s: Seq<char>) -> bool {
    let h = without_final_dot(s);
    &&& h.len() > 0
    &&& s.len() <= 253
    &&& forall|i: int| 0 <= i < labels(h).len() ==> is_valid_label(#[trigger] labels(h)[i])
}

/// Whether `s` reads as an IPv4 or IPv6 address (`IpAddr`'s `FromStr`).
pub uninterp spec fn is_ip_address_text(s: Seq<char>) -> bool;

/// Whether the text parses as an IPv4 or IPv6 address, by `str::parse` into
/// `core::net::IpAddr`. The contract only claims that the answer is
/// `is_ip_address_text` of the text, a function of the text alone; what that
/// grammar accepts is not stated.
#[verifier::external_body]
fn parses_as_ip_address(value: &str) -> (r: bool)
    ensures
        r == is_ip_address_text(value@),
{
    value.parse::<core::net::IpAddr>().is_ok()
}

/// Checks that a network interface name is safe to use in a sysfs path.
pub fn validate_interface_name(value: &str) -> (r: Result<(), Error>)
    ensures
        is_valid_interface_name(value@) ==> r is Ok,
        !is_valid_interface_name(value@) ==> fails_config(r, interface_name_message()),
{
    let n = value.unicode_len();
    let mut ok = 1 <= n && n <= 15;
    if ok {
        let mut i: usize = 0;
        while i < n
            invariant
                n == value@.len(),
                n <= 15,
                i <= n,
                ok == forall|j: int| 0 <= j < i ==> is_interface_char(#[trigger] value@[j]),
            decreases n - i,
        {
            let c = value.get_char(i);
            let allowed = ('0' <= c && c <= '9') || ('a' <= c && c <= 'z') || ('A' <= c && c <= 'Z')
                || c == '_' || c == '.' || c == ':' || c == '-';
            proof {
                assert(allowed == is_interface_char(value@[i as int]));
                if !allowed {
                    assert(!is_interface_char(value@[i as int]));
                }
            }
            ok = ok && allowed;
            i = i + 1;
        }
    }
    if !ok {
        return Err(
            Error::Config(
                string_of(
                    "interface must be 1-15 ASCII letters, digits, dots, underscores, colons, or hyphens",
                ),
            ),
        );
    }
    Ok(())
}

proof fn lemma_labels_push(s: Seq<char>, c: char)
    ensures
        labels(s.push(c)) == (if c == '.' {
            labels(s).push(Seq::<char>::empty())
        } else {
            labels(s).update(labels(s).len() - 1, labels(s).last().push(c))
        }),
{
    assert(s.push(c).drop_last() =~= s);
}

/// Checks an ICMP target given whether it reads as an IP address: an IP
/// address is accepted as it is, anything else must be a DNS host name.
pub fn validate_probe_target(value: &str, is_ip_address: bool) -> (r: Result<(), Error>)
    ensures
        (is_ip_address || is_valid_hostname(value@)) ==> r is Ok,
        !(is_ip_address || is_valid_hostname(value@)) ==> fails_config(r, probe_target_message()),
{
    if is_ip_address {
        return Ok(());
    }
    let n = value.unicode_len();
    let mut end = n;
    if n > 0 && value.get_char(n - 1) == '.' {
        end = n - 1;
    }
    let ghost h = without_final_dot(value@);
    assert(h =~= value@.subrange(0, end as int));
    if end == 0 || n > 253 {
        return Err(target_error());
    }
    // Labels before the current one are all valid iff `done_ok`.
    let mut done_ok = true;
    // The current label: its length, first and last characters, and whether
    // all of its characters are allowed.
    let mut cur_len: usize = 0;
    let mut cur_first: char = '.';
    let mut cur_last: char = '.';
    let mut cur_chars_ok = true;
    let mut i: usize = 0;
    proof {
        assert(value@.subrange(0, 0) =~= Seq::<char>::empty());
    }
    while i < end
        invariant
            n == value@.len(),
            end <= n <= 253,
            h =~= value@.subrange(0, end as int),
            i <= end,
            cur_len <= i,
            labels(value@.subrange(0, i as int)).len() >= 1,
            ({
                let ls = labels(value@.subrange(0, i as int));
                &&& done_ok == forall|j: int|
                    0 <= j < ls.len() - 1 ==> is_valid_label(#[trigger] ls[j])
                &&& cur_len == ls.last().len()
                &&& cur_len > 0 ==> cur_first == ls.last()[0] && cur_last == ls.last().last()
                &&& cur_chars_ok == forall|k: int|
                    0 <= k < ls.last().len() ==> is_label_char(#[trigger] ls.last()[k])
            }),
        decreases end - i,
    {
        let c = value.get_char(i);
        let ghost before = value@.subrange(0, i as int);
        let ghost ls = labels(before);
        proof {
            assert(value@.subrange(0, i + 1) =~= before.push(c));
            lemma_labels_push(before, c);
        }
        if c == '.' {
            let label_ok = cur_chars_ok && 1 <= cur_len && cur_len <= 63 && cur_first != '-'
                && cur_last != '-';
            proof {
                assert(label_ok == is_valid_label(ls.last()));
                let ls2 = labels(value@.subrange(0, i + 1));
                assert(ls2 == ls.push(Seq::<char>::empty()));
                assert forall|j: int| 0 <= j < ls2.len() - 1 implies #[trigger] ls2[j] == ls[j] by {}
                if done_ok && label_ok {
                    assert forall|j: int| 0 <= j < ls2.len() - 1 implies is_valid_label(
                        #[trigger] ls2[j],
                    ) by {
                        if j < ls.len() - 1 {
                            assert(ls2[j] == ls[j]);
                        } else {
                            assert(ls2[j] == ls.last());
                        }
                    }
                } else if !done_ok {
                    let j = choose|j: int| 0 <= j < ls.len() - 1 && !is_valid_label(#[trigger] ls[j]);
                    assert(ls2[j] == ls[j]);
                } else {
                    assert(ls2[ls.len() - 1] == ls.last());
                }
                assert(ls2.last() =~= Seq::<char>::empty());
            }
            done_ok = done_ok && label_ok;
            cur_len = 0;
            cur_chars_ok = true;
        } else {
            let allowed = ('0' <= c && c <= '9') || ('a' <= c && c <= 'z') || ('A' <= c && c <= 'Z')
                || c == '-';
            proof {
                let ls2 = labels(value@.subrange(0, i + 1));
                let cur2 = ls.last().push(c);
                assert(ls2 == ls.update(ls.len() - 1, cur2));
                assert(ls2.len() == ls.len());
                assert(ls2.last() == cur2);
                assert forall|j: int| 0 <= j < ls2.len() - 1 implies #[trigger] ls2[j] == ls[j] by {}
                assert(allowed == is_label_char(c));
                if cur_chars_ok && allowed {
                    assert forall|k: int| 0 <= k < cur2.len() implies is_label_char(
                        #[trigger] cur2[k],
                    ) by {
                        if k < ls.last().len() {
                            assert(cur2[k] == ls.last()[k]);
                        }
                    }
                } else if !cur_chars_ok {
                    let k = choose|k: int|
                        0 <= k < ls.last().len() && !is_label_char(#[trigger] ls.last()[k]);
                    assert(cur2[k] == ls.last()[k]);
                } else {
                    assert(cur2[cur2.len() - 1] == c);
                }
                if done_ok {
                    assert forall|j: int| 0 <= j < ls2.len() - 1 implies is_valid_label(
                        #[trigger] ls2[j],
                    ) by {
                        assert(ls2[j] == ls[j]);
                    }
                } else {
                    let j = choose|j: int| 0 <= j < ls.len() - 1 && !is_valid_label(#[trigger] ls[j]);
                    assert(ls2[j] == ls[j]);
                }
            }
            if cur_len == 0 {
                cur_first = c;
            }
            cur_last = c;
            cur_len = cur_len + 1;
            cur_chars_ok = cur_chars_ok && allowed;
        }
        i = i + 1;
    }
    let last_ok = cur_chars_ok && 1 <= cur_len && cur_len <= 63 && cur_first != '-' && cur_last
        != '-';
    proof {
        let ls = labels(h);
        assert(value@.subrange(0, i as int) =~= h);
        assert(last_ok == is_valid_label(ls.last()));
        if done_ok && last_ok {
            assert forall|j: int| 0 <= j < ls.len() implies is_valid_label(#[trigger] ls[j]) by {
                if j < ls.len() - 1 {
                } else {
                    assert(ls[j] == ls.last());
                }
            }
        } else if !done_ok {
            let j = choose|j: int| 0 <= j < ls.len() - 1 && !is_valid_label(#[trigger] ls[j]);
            assert(!is_valid_label(ls[j]));
        } else {
            assert(!is_valid_label(ls[ls.len() - 1]));
        }
    }
    if done_ok && last_ok {
        Ok(())
    } else {
        Err(target_error())
    }
}

/// The error of an invalid ICMP target.
fn target_error() -> (e: Error)
    ensures
        e matches Error::Config(m) && m@ == probe_target_message(),
{
    Error::Config(string_of("ICMP target must be an IPv4 address, IPv6 address, or DNS hostname"))
}

/// Checks that an ICMP target is an IPv4 address, an IPv6 address or a DNS
/// host name.
pub fn validate_icmp_target(value: &str) -> (r: Result<(), Error>)
    ensures
        (is_ip_address_text(value@) || is_valid_hostname(value@)) ==> r is Ok,
        !(is_ip_address_text(value@) || is_valid_hostname(value@)) ==> fails_config(
            r,
            probe_target_message(),
        ),
{
    let is_ip = parses_as_ip_address(value);
    validate_probe_target(value, is_ip)
}

} // verus!
