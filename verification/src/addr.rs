//! A verified grammar for network socket addresses.
//!
//! A networked discovery endpoint must be a socket address: either an IPv4
//! address followed by `:` and a decimal port, or an IPv6 address in square
//! brackets followed by `:` and a decimal port. IPv4 octets are one to three
//! decimal digits without a leading zero, at most 255. IPv6 addresses are
//! colon-separated groups of one to four hexadecimal digits, eight groups,
//! or fewer with a single `::` standing for the elided zero groups. Ports
//! are one to five decimal digits, at most 65535.

use vstd::prelude::*;
use vstd::string::StrSliceExecFns;

verus! {

/// Decimal digit.
pub open spec fn is_dec_digit(c: char) -> bool {
    48 <= c as u32 <= 57
}

/// Numeric value of a decimal digit.
pub open spec fn dec_digit_val(c: char) -> int {
    (c as u32) as int - 48
}

/// Every character is a decimal digit.
pub open spec fn all_dec_digits(s: Seq<char>) -> bool {
    forall|i: int| 0 <= i < s.len() ==> is_dec_digit(#[trigger] s[i])
}

/// Numeric value of a decimal digit string.
pub open spec fn dec_val(s: Seq<char>) -> int
    decreases s.len(),
{
    if s.len() == 0 {
        0
    } else {
        dec_val(s.drop_last()) * 10 + dec_digit_val(s.last())
    }
}

/// Hexadecimal digit, either case.
pub open spec fn is_hex_digit(c: char) -> bool {
    ||| 48 <= c as u32 <= 57
    ||| 97 <= c as u32 <= 102
    ||| 65 <= c as u32 <= 70
}

/// An IPv4 octet: one to three decimal digits, no leading zero, at most 255.
pub open spec fn is_dec_octet(s: Seq<char>) -> bool {
    &&& 1 <= s.len() <= 3
    &&& all_dec_digits(s)
    &&& (s.len() > 1 ==> s[0] != '0')
    &&& dec_val(s) <= 255
}

/// A port: one to five decimal digits, at most 65535.
pub open spec fn is_port(s: Seq<char>) -> bool {
    &&& 1 <= s.len() <= 5
    &&& all_dec_digits(s)
    &&& dec_val(s) <= 65535
}

/// An IPv6 group: one to four hexadecimal digits.
pub open spec fn is_h16(s: Seq<char>) -> bool {
    &&& 1 <= s.len() <= 4
    &&& forall|i: int| 0 <= i < s.len() ==> is_hex_digit(#[trigger] s[i])
}

/// Position of the first occurrence of `sep` at or after `from`, or the
/// length of `s` when there is none.
pub open spec fn find(s: Seq<char>, sep: char, from: int) -> int
    decreases s.len() - from,
{
    if from >= s.len() {
        s.len() as int
    } else if s[from] == sep {
        from
    } else {
        find(s, sep, from + 1)
    }
}

/// Position of the first `::` at or after `from`, or the length of `s` when
/// there is none.
pub open spec fn find_pair(s: Seq<char>, from: int) -> int
    decreases s.len() - from,
{
    if from + 1 >= s.len() {
        s.len() as int
    } else if s[from] == ':' && s[from + 1] == ':' {
        from
    } else {
        find_pair(s, from + 1)
    }
}

/// Number of `:`-separated pieces of `s[from..]`.
pub open spec fn num_groups(s: Seq<char>, from: int) -> int
    decreases s.len() - from,
    via num_groups_decreases
{
    let e = find(s, ':', from);
    if e >= s.len() {
        1
    } else {
        1 + num_groups(s, e + 1)
    }
}

#[via_fn]
proof fn num_groups_decreases(s: Seq<char>, from: int) {
    lemma_find_at_or_after(s, ':', from);
}

/// Every `:`-separated piece of `s[from..]` is a valid IPv6 group.
pub open spec fn groups_valid(s: Seq<char>, from: int) -> bool
    decreases s.len() - from,
    via groups_valid_decreases
{
    let e = find(s, ':', from);
    if e >= s.len() {
        is_h16(s.subrange(from, s.len() as int))
    } else {
        is_h16(s.subrange(from, e)) && groups_valid(s, e + 1)
    }
}

#[via_fn]
proof fn groups_valid_decreases(s: Seq<char>, from: int) {
    lemma_find_at_or_after(s, ':', from);
}

/// When the separator is found, it is at or after the start of the search.
proof fn lemma_find_at_or_after(s: Seq<char>, sep: char, from: int)
    ensures
        find(s, sep, from) < s.len() ==> find(s, sep, from) >= from,
    decreases
            if from <= s.len() {
                s.len() - from
            } else {
                0
            },
{
    if from < s.len() && s[from] != sep {
        lemma_find_at_or_after(s, sep, from + 1);
    }
}

/// An IPv6 address: eight hexadecimal groups, or at most seven with one `::`.
pub open spec fn is_ipv6(s: Seq<char>) -> bool {
    let d = find_pair(s, 0);
    if d >= s.len() {
        groups_valid(s, 0) && num_groups(s, 0) == 8
    } else {
        let left = s.subrange(0, d);
        let right = s.subrange(d + 2, s.len() as int);
        &&& (left.len() == 0 || groups_valid(left, 0))
        &&& (right.len() == 0 || groups_valid(right, 0))
        &&& (if left.len() == 0 {
            0
        } else {
            num_groups(left, 0)
        }) + (if right.len() == 0 {
            0
        } else {
            num_groups(right, 0)
        }) <= 7
    }
}

/// An IPv4 address: four octets separated by dots.
pub open spec fn is_ipv4(s: Seq<char>) -> bool {
    let i = find(s, '.', 0);
    let j = find(s, '.', i + 1);
    let k = find(s, '.', j + 1);
    &&& i < s.len()
    &&& j < s.len()
    &&& k < s.len()
    &&& is_dec_octet(s.subrange(0, i))
    &&& is_dec_octet(s.subrange(i + 1, j))
    &&& is_dec_octet(s.subrange(j + 1, k))
    &&& is_dec_octet(s.subrange(k + 1, s.len() as int))
}

/// An IPv4 socket address: an IPv4 address, `:`, and a port.
pub open spec fn is_ipv4_socket_addr(s: Seq<char>) -> bool {
    let c = find(s, ':', 0);
    &&& c < s.len()
    &&& is_ipv4(s.subrange(0, c))
    &&& is_port(s.subrange(c + 1, s.len() as int))
}

/// An IPv6 socket address: an IPv6 address in brackets, `:`, and a port.
pub open spec fn is_ipv6_socket_addr(s: Seq<char>) -> bool {
    let rb = find(s, ']', 0);
    &&& s.len() > 0
    &&& s[0] == '['
    &&& rb + 1 < s.len()
    &&& s[rb + 1] == ':'
    &&& is_ipv6(s.subrange(1, rb))
    &&& is_port(s.subrange(rb + 2, s.len() as int))
}

/// A socket address: the bracketed IPv6 form when the string opens with a
/// bracket, the IPv4 form otherwise.
pub open spec fn is_socket_addr(s: Seq<char>) -> bool {
    if s.len() > 0 && s[0] == '[' {
        is_ipv6_socket_addr(s)
    } else {
        is_ipv4_socket_addr(s)
    }
}

pub proof fn lemma_find_bounds(s: Seq<char>, sep: char, from: int)
    requires
        0 <= from <= s.len(),
    ensures
        from <= find(s, sep, from) <= s.len(),
        find(s, sep, from) < s.len() ==> s[find(s, sep, from)] == sep,
    decreases s.len() - from,
{
    if from < s.len() && s[from] != sep {
        lemma_find_bounds(s, sep, from + 1);
    }
}

/// The position of the first `sep` at or after `from` is the one position
/// that holds `sep` with none before it.
pub proof fn lemma_find_first(s: Seq<char>, sep: char, from: int, pos: int)
    requires
        0 <= from <= pos < s.len(),
        s[pos] == sep,
        forall|p: int| from <= p < pos ==> s[p] != sep,
    ensures
        find(s, sep, from) == pos,
    decreases pos - from,
{
    if from < pos {
        lemma_find_first(s, sep, from + 1, pos);
    }
}

/// An IPv4 address consists of decimal digits and dots alone.
pub proof fn lemma_ipv4_chars(s: Seq<char>)
    requires
        is_ipv4(s),
    ensures
        forall|p: int| 0 <= p < s.len() ==> is_dec_digit(#[trigger] s[p]) || s[p] == '.',
{
    let i = find(s, '.', 0);
    let j = find(s, '.', i + 1);
    let k = find(s, '.', j + 1);
    lemma_find_bounds(s, '.', 0);
    lemma_find_bounds(s, '.', i + 1);
    lemma_find_bounds(s, '.', j + 1);
    assert forall|p: int| 0 <= p < s.len() implies is_dec_digit(#[trigger] s[p]) || s[p]
        == '.' by {
        if p == i || p == j || p == k {
        } else if p < i {
            assert(s.subrange(0, i)[p] == s[p]);
        } else if p < j {
            assert(s.subrange(i + 1, j)[p - (i + 1)] == s[p]);
        } else if p < k {
            assert(s.subrange(j + 1, k)[p - (j + 1)] == s[p]);
        } else {
            assert(s.subrange(k + 1, s.len() as int)[p - (k + 1)] == s[p]);
        }
    }
}

proof fn lemma_find_pair_bounds(s: Seq<char>, from: int)
    requires
        0 <= from <= s.len(),
    ensures
        from <= find_pair(s, from) <= s.len(),
        find_pair(s, from) < s.len() ==> find_pair(s, from) + 1 < s.len() && s[find_pair(s, from)]
            == ':' && s[find_pair(s, from) + 1] == ':',
    decreases s.len() - from,
{
    if from + 1 < s.len() && !(s[from] == ':' && s[from + 1] == ':') {
        lemma_find_pair_bounds(s, from + 1);
    }
}

/// First occurrence of `sep` at or after `from`, or the string's length.
fn find_char(s: &str, sep: char, from: usize) -> (r: usize)
    requires
        from <= s@.len(),
    ensures
        r == find(s@, sep, from as int),
        from <= r <= s@.len(),
        r < s@.len() ==> s@[r as int] == sep,
{
    proof {
        lemma_find_bounds(s@, sep, from as int);
    }
    let n = s.unicode_len();
    let mut i = from;
    while i < n
        invariant
            from <= i <= n,
            n == s@.len(),
            find(s@, sep, from as int) == find(s@, sep, i as int),
        decreases n - i,
    {
        if s.get_char(i) == sep {
            return i;
        }
        proof {
            assert(find(s@, sep, i as int) == find(s@, sep, i as int + 1));
        }
        i += 1;
    }
    i
}

/// First occurrence of `::` or the string's length.
fn find_double_colon(s: &str) -> (r: usize)
    ensures
        r == find_pair(s@, 0),
        r <= s@.len(),
        r < s@.len() ==> r + 1 < s@.len() && s@[r as int] == ':' && s@[r as int + 1] == ':',
{
    proof {
        lemma_find_pair_bounds(s@, 0);
    }
    let n = s.unicode_len();
    if n < 2 {
        return n;
    }
    let mut i: usize = 0;
    while i < n - 1
        invariant
            i <= n,
            2 <= n == s@.len(),
            find_pair(s@, 0) == find_pair(s@, i as int),
        decreases n - i,
    {
        if s.get_char(i) == ':' && s.get_char(i + 1) == ':' {
            return i;
        }
        proof {
            assert(find_pair(s@, i as int) == find_pair(s@, i as int + 1));
        }
        i += 1;
    }
    n
}

/// Whether `p` is a valid IPv4 octet.
fn is_dec_octet_str(p: &str) -> (r: bool)
    ensures
        r == is_dec_octet(p@),
{
    let n = p.unicode_len();
    if n == 0 || n > 3 {
        return false;
    }
    let mut i: usize = 0;
    let mut val: u32 = 0;
    while i < n
        invariant
            i <= n,
            n == p@.len(),
            1 <= n <= 3,
            all_dec_digits(p@.subrange(0, i as int)),
            val == dec_val(p@.subrange(0, i as int)),
            i == 0 ==> val == 0,
            i == 1 ==> val <= 9,
            i == 2 ==> val <= 99,
            i >= 3 ==> val <= 999,
        decreases n - i,
    {
        let c = p.get_char(i);
        let code = c as u32;
        if code < 48 || code > 57 {
            assert(!is_dec_digit(p@[i as int]));
            return false;
        }
        proof {
            assert(p@.subrange(0, i + 1).drop_last() =~= p@.subrange(0, i as int));
            assert(p@.subrange(0, i + 1).last() == p@[i as int]);
        }
        val = val * 10 + (code - 48);
        i += 1;
    }
    proof {
        assert(p@.subrange(0, n as int) =~= p@);
    }
    if n > 1 && p.get_char(0) == '0' {
        return false;
    }
    val <= 255
}

/// Whether `p` is a valid port.
fn is_port_str(p: &str) -> (r: bool)
    ensures
        r == is_port(p@),
{
    let n = p.unicode_len();
    if n == 0 || n > 5 {
        return false;
    }
    let mut i: usize = 0;
    let mut val: u32 = 0;
    while i < n
        invariant
            i <= n,
            n == p@.len(),
            1 <= n <= 5,
            all_dec_digits(p@.subrange(0, i as int)),
            val == dec_val(p@.subrange(0, i as int)),
            i == 0 ==> val == 0,
            i == 1 ==> val <= 9,
            i == 2 ==> val <= 99,
            i == 3 ==> val <= 999,
            i == 4 ==> val <= 9999,
            i >= 5 ==> val <= 99999,
        decreases n - i,
    {
        let c = p.get_char(i);
        let code = c as u32;
        if code < 48 || code > 57 {
            assert(!is_dec_digit(p@[i as int]));
            return false;
        }
        proof {
            assert(p@.subrange(0, i + 1).drop_last() =~= p@.subrange(0, i as int));
            assert(p@.subrange(0, i + 1).last() == p@[i as int]);
        }
        val = val * 10 + (code - 48);
        i += 1;
    }
    proof {
        assert(p@.subrange(0, n as int) =~= p@);
    }
    val <= 65535
}

/// Whether `p` is a valid IPv6 group.
fn is_h16_str(p: &str) -> (r: bool)
    ensures
        r == is_h16(p@),
{
    let n = p.unicode_len();
    if n == 0 || n > 4 {
        return false;
    }
    let mut i: usize = 0;
    while i < n
        invariant
            i <= n,
            n == p@.len(),
            forall|j: int| 0 <= j < i ==> is_hex_digit(#[trigger] p@[j]),
        decreases n - i,
    {
        let code = p.get_char(i) as u32;
        if !((48 <= code && code <= 57) || (97 <= code && code <= 102) || (65 <= code && code
            <= 70)) {
            assert(!is_hex_digit(p@[i as int]));
            return false;
        }
        i += 1;
    }
    true
}

/// Checks that `s` is a `:`-separated list of valid IPv6 groups and counts
/// the groups.
fn check_group_list(s: &str) -> (r: Option<usize>)
    ensures
        (r matches Some(_)) == groups_valid(s@, 0),
        r matches Some(count) ==> count == num_groups(s@, 0) && 1 <= count <= s@.len(),
{
    let n = s.unicode_len();
    let mut pos: usize = 0;
    let mut count: usize = 0;
    loop
        invariant
            pos <= n,
            count <= pos,
            n == s@.len(),
            groups_valid(s@, 0) == groups_valid(s@, pos as int),
            groups_valid(s@, 0) ==> num_groups(s@, 0) == count + num_groups(s@, pos as int),
        decreases n - pos,
    {
        let e = find_char(s, ':', pos);
        let piece = s.substring_char(pos, e);
        if !is_h16_str(piece) {
            return None;
        }
        if e == n {
            return Some(count + 1);
        }
        pos = e + 1;
        count = count + 1;
    }
}

/// Whether `t` is a valid IPv6 address (the text between the brackets).
fn is_ipv6_str(t: &str) -> (r: bool)
    ensures
        r == is_ipv6(t@),
{
    let n = t.unicode_len();
    let d = find_double_colon(t);
    if d == n {
        match check_group_list(t) {
            Some(count) => count == 8,
            None => false,
        }
    } else {
        let left = t.substring_char(0, d);
        let right = t.substring_char(d + 2, n);
        let mut total: usize = 0;
        if d > 0 {
            match check_group_list(left) {
                Some(count) => {
                    total = count;
                },
                None => {
                    return false;
                },
            }
        }
        if right.unicode_len() > 0 {
            match check_group_list(right) {
                Some(count) => {
                    total = total + count;
                },
                None => {
                    return false;
                },
            }
        }
        total <= 7
    }
}

/// Whether `s` is a valid IPv4 address.
fn is_ipv4_str(s: &str) -> (r: bool)
    ensures
        r == is_ipv4(s@),
{
    let n = s.unicode_len();
    let i = find_char(s, '.', 0);
    if i == n {
        return false;
    }
    let j = find_char(s, '.', i + 1);
    if j == n {
        return false;
    }
    let k = find_char(s, '.', j + 1);
    if k == n {
        return false;
    }
    let a = s.substring_char(0, i);
    let b = s.substring_char(i + 1, j);
    let c = s.substring_char(j + 1, k);
    let d = s.substring_char(k + 1, n);
    is_dec_octet_str(a) && is_dec_octet_str(b) && is_dec_octet_str(c) && is_dec_octet_str(d)
}

/// Whether `s` is a valid socket address: `ip:port` for IPv4, or
/// `[ip]:port` for IPv6.
pub fn validate_socket_addr(s: &str) -> (r: bool)
    ensures
        r == is_socket_addr(s@),
{
    let n = s.unicode_len();
    if n > 0 && s.get_char(0) == '[' {
        let rb = find_char(s, ']', 0);
        if rb == n {
            return false;
        }
        if rb + 1 == n {
            return false;
        }
        if s.get_char(rb + 1) != ':' {
            return false;
        }
        assert(rb >= 1) by {
            assert(s@[rb as int] == ']' && s@[0] == '[');
        }
        let inner = s.substring_char(1, rb);
        let port = s.substring_char(rb + 2, n);
        is_ipv6_str(inner) && is_port_str(port)
    } else {
        let c = find_char(s, ':', 0);
        if c == n {
            return false;
        }
        let ip = s.substring_char(0, c);
        let port = s.substring_char(c + 1, n);
        is_ipv4_str(ip) && is_port_str(port)
    }
}

} // verus!
