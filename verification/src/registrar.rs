//! The domain registrar's pure parts: reading the allocated port out of
//! the allocator's textual response, and the argument lists of the three
//! registrar calls.
//!
//! The allocator's response announces the chosen port as `Port <N>`
//! somewhere in its output; the first such announcement decides.

use vstd::prelude::*;

use crate::num::digits_value;
use crate::num::is_digit;
use crate::num::spec_decimal;
use crate::num::u64_to_string;

verus! {

/// The largest port number.
pub const MAX_PORT: u16 = 65535;

/// Whether a port announcement starts at `i`: the marker `Port ` (five
/// characters) followed by at least one decimal digit.
pub open spec fn spec_match_at(s: Seq<char>, i: int) -> bool {
    &&& 0 <= i
    &&& i + 6 <= s.len()
    &&& s.subrange(i, i + 5) == "Port "@
    &&& is_digit(s[i + 5])
}

/// The first position at or after `i` where a port announcement starts.
pub open spec fn spec_find_match(s: Seq<char>, i: int) -> Option<int>
    recommends
        0 <= i,
    decreases s.len() + 6 - i,
{
    if i < 0 || i + 6 > s.len() {
        None
    } else if spec_match_at(s, i) {
        Some(i)
    } else {
        spec_find_match(s, i + 1)
    }
}

/// The index just past the run of decimal digits that starts at `i`.
pub open spec fn spec_digit_run_end(s: Seq<char>, i: int) -> int
    recommends
        0 <= i <= s.len(),
    decreases s.len() - i,
{
    if i < 0 || i >= s.len() {
        s.len() as int
    } else if !is_digit(s[i]) {
        i
    } else {
        spec_digit_run_end(s, i + 1)
    }
}

/// Where a run of digits ends at `k`, the digit run ends at `k`.
pub proof fn lemma_digit_run_end_at(s: Seq<char>, i: int, k: int)
    requires
        0 <= i <= k <= s.len(),
        forall|j: int| i <= j < k ==> is_digit(s[j]),
        k < s.len() ==> !is_digit(s[k]),
    ensures
        spec_digit_run_end(s, i) == k,
    decreases k - i,
{
    if i < k {
        lemma_digit_run_end_at(s, i + 1, k);
    }
}

/// The port announced by the allocator's response: the value of the
/// digit run of the first announcement, if there is one and its value is
/// a port number (a run beyond [`MAX_PORT`] announces no port).
pub open spec fn spec_port_of(s: Seq<char>) -> Option<u16> {
    match spec_find_match(s, 0) {
        None => None,
        Some(i) => {
            let run = s.subrange(i + 5, spec_digit_run_end(s, i + 5));
            if digits_value(run) <= MAX_PORT {
                Some(digits_value(run) as u16)
            } else {
                None
            }
        },
    }
}

fn char_at_is_digit(s: &str, j: usize) -> (b: bool)
    requires
        j < s@.len(),
    ensures
        b == is_digit(s@[j as int]),
{
    let c = s.get_char(j);
    '0' <= c && c <= '9'
}

fn is_match_at(s: &str, len: usize, i: usize) -> (b: bool)
    requires
        len == s@.len(),
        i + 6 <= len,
    ensures
        b == spec_match_at(s@, i as int),
{
    let b = s.get_char(i) == 'P' && s.get_char(i + 1) == 'o' && s.get_char(i + 2) == 'r'
        && s.get_char(i + 3) == 't' && s.get_char(i + 4) == ' ' && {
        let c = s.get_char(i + 5);
        '0' <= c && c <= '9'
    };
    proof {
        reveal_strlit("Port ");
        let sub = s@.subrange(i as int, i as int + 5);
        assert("Port "@.len() == 5);
        assert(sub[0] == s@[i as int] && sub[1] == s@[i as int + 1] && sub[2] == s@[i as int + 2]
            && sub[3] == s@[i as int + 3] && sub[4] == s@[i as int + 4]);
        assert("Port "@[0] == 'P' && "Port "@[1] == 'o' && "Port "@[2] == 'r' && "Port "@[3] == 't'
            && "Port "@[4] == ' ');
        if b {
            assert(sub =~= "Port "@);
        }
    }
    b
}

/// Reads the allocated port out of the allocator's response, exactly as
/// [`spec_port_of`] states: the first `Port <digits>` announcement wins,
/// and a value beyond [`MAX_PORT`] counts as no announcement.
pub fn parse_port(out: &str) -> (r: Option<u16>)
    ensures
        r == spec_port_of(out@),
{
    let len = out.unicode_len();
    if len < 6 {
        return None;
    }
    let mut i: usize = 0;
    while i <= len - 6
        invariant
            0 <= i <= len,
            6 <= len,
            len == out@.len(),
            spec_find_match(out@, 0) == spec_find_match(out@, i as int),
        decreases len - i,
    {
        if is_match_at(out, len, i) {
            let start = i + 5;
            let mut j: usize = start + 1;
            while j < len && char_at_is_digit(out, j)
                invariant
                    start + 1 <= j <= len,
                    len == out@.len(),
                    start + 6 == i + 11,
                    forall|k: int| start <= k < j ==> is_digit(out@[k]),
                decreases len - j,
            {
                j = j + 1;
            }
            proof {
                lemma_digit_run_end_at(out@, start as int, j as int);
            }
            let ghost run = out@.subrange(start as int, j as int);
            let mut acc: u32 = 0;
            let mut big = false;
            let mut k: usize = start;
            while k < j
                invariant
                    start <= k <= j <= len,
                    len == out@.len(),
                    forall|m: int| start <= m < j ==> is_digit(out@[m]),
                    run == out@.subrange(start as int, j as int),
                    !big ==> acc == digits_value(out@.subrange(start as int, k as int)) && acc
                        <= 65535,
                    big ==> digits_value(out@.subrange(start as int, k as int)) > 65535,
                decreases j - k,
            {
                let c = out.get_char(k);
                let d: u32 = (c as u32) - 48;
                proof {
                    let prefix = out@.subrange(start as int, k as int);
                    let longer = out@.subrange(start as int, k as int + 1);
                    assert(longer.drop_last() =~= prefix);
                    assert(longer.last() == out@[k as int]);
                }
                if big {
                    // the value only grows with more digits
                } else {
                    let next: u32 = acc * 10 + d;
                    if next > 65535 {
                        big = true;
                    } else {
                        acc = next;
                    }
                }
                k = k + 1;
            }
            proof {
                assert(out@.subrange(start as int, j as int) == run);
            }
            if big {
                return None;
            }
            return Some(acc as u16);
        }
        i = i + 1;
    }
    None
}

/// The port named by an explicit prompt answer: the answer's value when
/// it is one non-empty run of decimal digits naming a port number.
pub open spec fn spec_port_answer(s: Seq<char>) -> Option<u16> {
    if s.len() > 0 && (forall|i: int| 0 <= i < s.len() ==> is_digit(s[i])) && digits_value(s)
        <= MAX_PORT {
        Some(digits_value(s) as u16)
    } else {
        None
    }
}

/// Reads an explicit port answer, exactly as [`spec_port_answer`] states.
pub fn port_answer(s: &str) -> (r: Option<u16>)
    ensures
        r == spec_port_answer(s@),
{
    let len = s.unicode_len();
    if len == 0 {
        return None;
    }
    let mut acc: u32 = 0;
    let mut big = false;
    let mut k: usize = 0;
    while k < len
        invariant
            0 <= k <= len,
            len == s@.len(),
            forall|m: int| 0 <= m < k ==> is_digit(s@[m]),
            !big ==> acc == digits_value(s@.subrange(0, k as int)) && acc <= 65535,
            big ==> digits_value(s@.subrange(0, k as int)) > 65535,
        decreases len - k,
    {
        let c = s.get_char(k);
        if !('0' <= c && c <= '9') {
            return None;
        }
        let d: u32 = (c as u32) - 48;
        proof {
            let prefix = s@.subrange(0, k as int);
            let longer = s@.subrange(0, k as int + 1);
            assert(longer.drop_last() =~= prefix);
            assert(longer.last() == s@[k as int]);
        }
        if big {
            // the value only grows with more digits
        } else {
            let next: u32 = acc * 10 + d;
            if next > 65535 {
                big = true;
            } else {
                acc = next;
            }
        }
        k = k + 1;
    }
    proof {
        assert(s@.subrange(0, len as int) =~= s@);
    }
    if big {
        None
    } else {
        Some(acc as u16)
    }
}

/// The proxy target for a registered domain: the local address at the
/// service's port.
pub fn proxy_url(port: u16) -> (r: String)
    ensures
        r@ == "http://localhost:"@ + spec_decimal(port as nat),
{
    let mut out = String::from_str("http://localhost:");
    let digits = u64_to_string(port as u64);
    out.append(digits.as_str());
    proof {
        assert(out@ =~= "http://localhost:"@ + spec_decimal(port as nat));
    }
    out
}

/// The arguments of the registrar call that allocates a port.
pub fn allocate_port_args() -> (r: Vec<String>)
    ensures
        r.deep_view() == seq!["get-port"@],
{
    let mut v: Vec<String> = Vec::new();
    v.push(String::from_str("get-port"));
    proof {
        assert(v.deep_view() =~= seq!["get-port"@]);
    }
    v
}

/// The arguments of the registrar call that routes `domain` to the
/// local address at `port`.
pub fn add_domain_args(domain: &str, port: u16) -> (r: Vec<String>)
    ensures
        r.deep_view() == seq![
            "add"@,
            domain@,
            "--proxy"@,
            "http://localhost:"@ + spec_decimal(port as nat),
        ],
{
    let mut v: Vec<String> = Vec::new();
    v.push(String::from_str("add"));
    v.push(String::from_str(domain));
    v.push(String::from_str("--proxy"));
    v.push(proxy_url(port));
    proof {
        assert(v.deep_view() =~= seq![
            "add"@,
            domain@,
            "--proxy"@,
            "http://localhost:"@ + spec_decimal(port as nat),
        ]);
    }
    v
}

/// The arguments of the registrar call that removes `domain`.
pub fn remove_domain_args(domain: &str) -> (r: Vec<String>)
    ensures
        r.deep_view() == seq!["remove"@, domain@],
{
    let mut v: Vec<String> = Vec::new();
    v.push(String::from_str("remove"));
    v.push(String::from_str(domain));
    proof {
        assert(v.deep_view() =~= seq!["remove"@, domain@]);
    }
    v
}

} // verus!
