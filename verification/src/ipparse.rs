use vstd::prelude::*;

use crate::ipaddr::IpAddr;

verus! {

/// The value of the decimal digit at an index, absent for any other
/// character or out of range.
pub open spec fn dec_digit_at(s: Seq<char>, i: int) -> Option<u8> {
    if 0 <= i < s.len() && 48 <= s[i] as u32 <= 57 {
        Some((s[i] as u32 - 48) as u8)
    } else {
        None
    }
}

/// The value of the hexadecimal digit at an index, lower or upper case,
/// absent for any other character or out of range.
pub open spec fn hex_digit_at(s: Seq<char>, i: int) -> Option<u8> {
    if 0 <= i < s.len() {
        let u = s[i] as u32;
        if 48 <= u <= 57 {
            Some((u - 48) as u8)
        } else if 97 <= u <= 102 {
            Some((u - 87) as u8)
        } else if 65 <= u <= 70 {
            Some((u - 55) as u8)
        } else {
            None
        }
    } else {
        None
    }
}

/// A decimal octet at an index: one to three digits, no leading zero unless
/// the octet is the single digit zero, value at most 255. Yields the value
/// and the index after the digits.
pub open spec fn octet_at(s: Seq<char>, i: int) -> Option<(u8, int)> {
    match dec_digit_at(s, i) {
        None => None,
        Some(d0) => match dec_digit_at(s, i + 1) {
            None => Some((d0, i + 1)),
            Some(d1) => if d0 == 0 {
                None
            } else {
                match dec_digit_at(s, i + 2) {
                    None => Some(((d0 as int * 10 + d1 as int) as u8, i + 2)),
                    Some(d2) => {
                        let v = d0 as int * 100 + d1 as int * 10 + d2 as int;
                        if v <= 255 {
                            Some((v as u8, i + 3))
                        } else {
                            None
                        }
                    },
                }
            },
        },
    }
}

/// A dotted quad starting at an index and reaching the end of the text.
pub open spec fn ipv4_from(s: Seq<char>, i: int) -> Option<(u8, u8, u8, u8)> {
    match octet_at(s, i) {
        Some((a, j)) => if j < s.len() && s[j] == '.' {
            match octet_at(s, j + 1) {
                Some((b, k)) => if k < s.len() && s[k] == '.' {
                    match octet_at(s, k + 1) {
                        Some((c, l)) => if l < s.len() && s[l] == '.' {
                            match octet_at(s, l + 1) {
                                Some((d, m)) => if m == s.len() {
                                    Some((a, b, c, d))
                                } else {
                                    None
                                },
                                None => None,
                            }
                        } else {
                            None
                        },
                        None => None,
                    }
                } else {
                    None
                },
                None => None,
            }
        } else {
            None
        },
        None => None,
    }
}

/// A hexadecimal group at an index: one to four digits. Yields the value and
/// the index after the digits.
pub open spec fn hex_group_at(s: Seq<char>, i: int) -> Option<(u16, int)> {
    match hex_digit_at(s, i) {
        None => None,
        Some(h0) => match hex_digit_at(s, i + 1) {
            None => Some((h0 as u16, i + 1)),
            Some(h1) => match hex_digit_at(s, i + 2) {
                None => Some(((h0 as int * 16 + h1 as int) as u16, i + 2)),
                Some(h2) => match hex_digit_at(s, i + 3) {
                    None => Some(((h0 as int * 256 + h1 as int * 16 + h2 as int) as u16, i + 3)),
                    Some(h3) => Some(
                        ((h0 as int * 4096 + h1 as int * 256 + h2 as int * 16 + h3 as int) as u16, i + 4),
                    ),
                },
            },
        },
    }
}

/// The first index at or after `i` where two colons stand together.
pub open spec fn find_dc(s: Seq<char>, i: int) -> Option<int>
    decreases s.len() - i when 0 <= i <= s.len()
{
    if i + 2 > s.len() {
        None
    } else if s[i] == ':' && s[i + 1] == ':' {
        Some(i)
    } else {
        find_dc(s, i + 1)
    }
}

/// The groups from an index to the end of the text: hexadecimal groups joined
/// with single colons; where `v4_ok` holds, the list may close with a dotted
/// quad standing for the last two groups.
pub open spec fn groups_from(s: Seq<char>, i: int, v4_ok: bool) -> Option<Seq<u16>>
    decreases s.len() - i when 0 <= i <= s.len()
{
    if v4_ok && ipv4_from(s, i) is Some {
        let q = ipv4_from(s, i)->0;
        Some(
            seq![
                (q.0 as int * 256 + q.1 as int) as u16,
                (q.2 as int * 256 + q.3 as int) as u16,
            ],
        )
    } else {
        match hex_group_at(s, i) {
            None => None,
            Some((g, j)) => if j == s.len() {
                Some(seq![g])
            } else if 0 <= j < s.len() && s[j] == ':' {
                match groups_from(s, j + 1, v4_ok) {
                    Some(rest) => Some(seq![g] + rest),
                    None => None,
                }
            } else {
                None
            },
        }
    }
}

/// An eight-group address text: groups joined with single colons, with at
/// most one pair of colons standing for a run of zero groups, and possibly a
/// closing dotted quad for the last two groups.
pub open spec fn parse_ipv6_spec(s: Seq<char>) -> Option<Seq<u16>> {
    match find_dc(s, 0) {
        None => match groups_from(s, 0, true) {
            Some(gs) => if gs.len() == 8 {
                Some(gs)
            } else {
                None
            },
            None => None,
        },
        Some(p) => {
            let left = s.take(p);
            let right = s.skip(p + 2);
            let l = if left.len() == 0 {
                Some(Seq::<u16>::empty())
            } else {
                groups_from(left, 0, false)
            };
            let r = if right.len() == 0 {
                Some(Seq::<u16>::empty())
            } else {
                groups_from(right, 0, true)
            };
            match (l, r) {
                (Some(lg), Some(rg)) => if lg.len() + rg.len() <= 7 {
                    Some(lg + Seq::new((8 - lg.len() - rg.len()) as nat, |k: int| 0u16) + rg)
                } else {
                    None
                },
                _ => None,
            }
        },
    }
}

/// How a text reads as an address: a dotted quad, or an eight-group address.
pub open spec fn parse_ip_spec(s: Seq<char>) -> Option<IpAddr> {
    match ipv4_from(s, 0) {
        Some((a, b, c, d)) => Some(IpAddr::V4(a, b, c, d)),
        None => match parse_ipv6_spec(s) {
            Some(g) => Some(IpAddr::V6(g[0], g[1], g[2], g[3], g[4], g[5], g[6], g[7])),
            None => None,
        },
    }
}

/// The characters of a text, one by one.
fn chars_of(s: &str) -> (r: Vec<char>)
    ensures
        r@ == s@,
{
    let len = s.unicode_len();
    let mut out: Vec<char> = Vec::new();
    let mut i: usize = 0;
    while i < len
        invariant
            len == s@.len(),
            i <= len,
            out@ == s@.take(i as int),
        decreases len - i,
    {
        out.push(s.get_char(i));
        proof {
            assert(s@.take(i as int + 1) =~= s@.take(i as int).push(s@[i as int]));
        }
        i += 1;
    }
    proof {
        assert(s@.take(len as int) =~= s@);
    }
    out
}

fn dec_digit_at_x(v: &Vec<char>, i: usize) -> (r: Option<u8>)
    ensures
        r == dec_digit_at(v@, i as int),
{
    if i < v.len() {
        let u = v[i] as u32;
        if 48 <= u && u <= 57 {
            Some((u - 48) as u8)
        } else {
            None
        }
    } else {
        None
    }
}

fn hex_digit_at_x(v: &Vec<char>, i: usize) -> (r: Option<u8>)
    ensures
        r == hex_digit_at(v@, i as int),
{
    if i < v.len() {
        let u = v[i] as u32;
        if 48 <= u && u <= 57 {
            Some((u - 48) as u8)
        } else if 97 <= u && u <= 102 {
            Some((u - 87) as u8)
        } else if 65 <= u && u <= 70 {
            Some((u - 55) as u8)
        } else {
            None
        }
    } else {
        None
    }
}

fn octet_at_x(v: &Vec<char>, i: usize) -> (r: Option<(u8, usize)>)
    requires
        i <= v@.len(),
    ensures
        match r {
            Some(p) => octet_at(v@, i as int) == Some((p.0, p.1 as int)) && i < p.1 <= v@.len(),
            None => octet_at(v@, i as int) is None,
        },
{
    let n = v.len();
    let d0 = match dec_digit_at_x(v, i) {
        Some(d) => d,
        None => { return None },
    };
    proof {
        assert(i < n);
    }
    let d1 = match dec_digit_at_x(v, i + 1) {
        Some(d) => d,
        None => { return Some((d0, i + 1)) },
    };
    if d0 == 0 {
        return None;
    }
    proof {
        assert(i + 1 < n);
    }
    let d2 = match dec_digit_at_x(v, i + 2) {
        Some(d) => d,
        None => { return Some((d0 * 10 + d1, i + 2)) },
    };
    proof {
        assert(i + 2 < n);
    }
    let val: u16 = d0 as u16 * 100 + d1 as u16 * 10 + d2 as u16;
    if val <= 255 {
        Some((val as u8, i + 3))
    } else {
        None
    }
}

fn ipv4_from_x(v: &Vec<char>, i: usize) -> (r: Option<(u8, u8, u8, u8)>)
    requires
        i <= v@.len(),
    ensures
        r == ipv4_from(v@, i as int),
{
    let (a, j) = match octet_at_x(v, i) {
        Some(p) => p,
        None => { return None },
    };
    if !(j < v.len() && v[j] == '.') {
        return None;
    }
    let (b, k) = match octet_at_x(v, j + 1) {
        Some(p) => p,
        None => { return None },
    };
    if !(k < v.len() && v[k] == '.') {
        return None;
    }
    let (c, l) = match octet_at_x(v, k + 1) {
        Some(p) => p,
        None => { return None },
    };
    if !(l < v.len() && v[l] == '.') {
        return None;
    }
    let (d, m) = match octet_at_x(v, l + 1) {
        Some(p) => p,
        None => { return None },
    };
    if m == v.len() {
        Some((a, b, c, d))
    } else {
        None
    }
}

fn hex_group_at_x(v: &Vec<char>, i: usize) -> (r: Option<(u16, usize)>)
    requires
        i <= v@.len(),
    ensures
        match r {
            Some(p) => hex_group_at(v@, i as int) == Some((p.0, p.1 as int)) && i < p.1 <= v@.len(),
            None => hex_group_at(v@, i as int) is None,
        },
{
    let n = v.len();
    let h0 = match hex_digit_at_x(v, i) {
        Some(h) => h,
        None => { return None },
    };
    proof {
        assert(i < n);
    }
    let h1 = match hex_digit_at_x(v, i + 1) {
        Some(h) => h,
        None => { return Some((h0 as u16, i + 1)) },
    };
    proof {
        assert(i + 1 < n);
    }
    let h2 = match hex_digit_at_x(v, i + 2) {
        Some(h) => h,
        None => { return Some((h0 as u16 * 16 + h1 as u16, i + 2)) },
    };
    proof {
        assert(i + 2 < n);
    }
    let h3 = match hex_digit_at_x(v, i + 3) {
        Some(h) => h,
        None => { return Some((h0 as u16 * 256 + h1 as u16 * 16 + h2 as u16, i + 3)) },
    };
    proof {
        assert(i + 3 < n);
    }
    Some((h0 as u16 * 4096 + h1 as u16 * 256 + h2 as u16 * 16 + h3 as u16, i + 4))
}

fn find_dc_x(v: &Vec<char>, i: usize) -> (r: Option<usize>)
    requires
        i <= v@.len(),
    ensures
        match r {
            Some(p) => find_dc(v@, i as int) == Some(p as int) && p + 2 <= v@.len(),
            None => find_dc(v@, i as int) is None,
        },
    decreases v@.len() - i,
{
    if i >= v.len() || i + 1 >= v.len() {
        None
    } else if v[i] == ':' && v[i + 1] == ':' {
        Some(i)
    } else {
        find_dc_x(v, i + 1)
    }
}

fn groups_from_x(v: &Vec<char>, i: usize, v4_ok: bool) -> (r: Option<Vec<u16>>)
    requires
        i <= v@.len(),
    ensures
        match r {
            Some(gs) => groups_from(v@, i as int, v4_ok) == Some(gs@),
            None => groups_from(v@, i as int, v4_ok) is None,
        },
    decreases v@.len() - i,
{
    if v4_ok {
        if let Some((a, b, c, d)) = ipv4_from_x(v, i) {
            let mut out: Vec<u16> = Vec::new();
            out.push(a as u16 * 256 + b as u16);
            out.push(c as u16 * 256 + d as u16);
            proof {
                assert(out@ =~= groups_from(v@, i as int, v4_ok)->0);
            }
            return Some(out);
        }
    }
    let (g, j) = match hex_group_at_x(v, i) {
        Some(p) => p,
        None => { return None },
    };
    if j == v.len() {
        let mut out: Vec<u16> = Vec::new();
        out.push(g);
        proof {
            assert(out@ =~= seq![g]);
        }
        Some(out)
    } else if v[j] == ':' {
        let mut rest = match groups_from_x(v, j + 1, v4_ok) {
            Some(gs) => gs,
            None => { return None },
        };
        let ghost rest_view = rest@;
        let mut out: Vec<u16> = Vec::new();
        out.push(g);
        out.append(&mut rest);
        proof {
            assert(out@ =~= seq![g] + rest_view);
        }
        Some(out)
    } else {
        None
    }
}

#[verifier::rlimit(60)]
fn parse_ipv6_x(v: &Vec<char>) -> (r: Option<Vec<u16>>)
    ensures
        match r {
            Some(gs) => parse_ipv6_spec(v@) == Some(gs@),
            None => parse_ipv6_spec(v@) is None,
        },
{
    match find_dc_x(v, 0) {
        None => {
            let gs = match groups_from_x(v, 0, true) {
                Some(gs) => gs,
                None => { return None },
            };
            if gs.len() == 8 {
                Some(gs)
            } else {
                None
            }
        },
        Some(p) => {
            let n = v.len();
            proof {
                assert(p + 2 <= n);
            }
            let left = sub_chars(v, 0, p);
            let right = sub_chars(v, p + 2, n);
            proof {
                assert(left@ =~= v@.take(p as int));
                assert(right@ =~= v@.skip(p as int + 2));
            }
            let lg = if left.len() == 0 {
                Vec::new()
            } else {
                match groups_from_x(&left, 0, false) {
                    Some(gs) => gs,
                    None => { return None },
                }
            };
            let rg = if right.len() == 0 {
                Vec::new()
            } else {
                match groups_from_x(&right, 0, true) {
                    Some(gs) => gs,
                    None => { return None },
                }
            };
            if lg.len() <= 7 && rg.len() <= 7 - lg.len() {
                let fill = 8 - lg.len() - rg.len();
                let ghost lg_view = lg@;
                let ghost rg_view = rg@;
                let mut out = lg;
                let mut z: usize = 0;
                while z < fill
                    invariant
                        z <= fill,
                        fill == 8 - lg_view.len() - rg_view.len(),
                        out@ == lg_view + Seq::new(z as nat, |k: int| 0u16),
                    decreases fill - z,
                {
                    out.push(0u16);
                    proof {
                        assert(lg_view + Seq::new(z as nat + 1, |k: int| 0u16) =~= (lg_view
                            + Seq::new(z as nat, |k: int| 0u16)).push(0u16));
                    }
                    z += 1;
                }
                let mut rgm = rg;
                out.append(&mut rgm);
                proof {
                    assert(out@ =~= lg_view + Seq::new(
                        (8 - lg_view.len() - rg_view.len()) as nat,
                        |k: int| 0u16,
                    ) + rg_view);
                }
                Some(out)
            } else {
                None
            }
        },
    }
}

/// The characters of an index range, as their own vector.
fn sub_chars(v: &Vec<char>, from: usize, to: usize) -> (r: Vec<char>)
    requires
        from <= to <= v@.len(),
    ensures
        r@ == v@.subrange(from as int, to as int),
{
    let mut out: Vec<char> = Vec::new();
    let mut i = from;
    proof {
        assert(out@ =~= v@.subrange(from as int, from as int));
    }
    while i < to
        invariant
            from <= i <= to <= v@.len(),
            out@ == v@.subrange(from as int, i as int),
        decreases to - i,
    {
        out.push(v[i]);
        proof {
            assert(v@.subrange(from as int, i as int + 1) =~= v@.subrange(
                from as int,
                i as int,
            ).push(v@[i as int]));
        }
        i += 1;
    }
    out
}

/// Reads a text as an IP address: a dotted quad, or an eight-group address
/// with at most one "::" and an optional closing dotted quad.
pub fn parse_ip(s: &str) -> (r: Option<IpAddr>)
    ensures
        r == parse_ip_spec(s@),
{
    let v = chars_of(s);
    if let Some((a, b, c, d)) = ipv4_from_x(&v, 0) {
        return Some(IpAddr::V4(a, b, c, d));
    }
    match parse_ipv6_x(&v) {
        Some(gs) => Some(
            IpAddr::V6(gs[0], gs[1], gs[2], gs[3], gs[4], gs[5], gs[6], gs[7]),
        ),
        None => None,
    }
}

} // verus!
