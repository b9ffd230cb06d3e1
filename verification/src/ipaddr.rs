use vstd::prelude::*;

verus! {

/// An IP address: four octets, or eight 16-bit groups.
#[derive(Clone, Copy, Debug, PartialEq, Eq, Structural)]
pub enum IpAddr {
    V4(u8, u8, u8, u8),
    V6(u16, u16, u16, u16, u16, u16, u16, u16),
}

/// The character for one decimal or hexadecimal digit, lower case.
pub open spec fn digit_char(d: nat) -> char {
    if d == 0 {
        '0'
    } else if d == 1 {
        '1'
    } else if d == 2 {
        '2'
    } else if d == 3 {
        '3'
    } else if d == 4 {
        '4'
    } else if d == 5 {
        '5'
    } else if d == 6 {
        '6'
    } else if d == 7 {
        '7'
    } else if d == 8 {
        '8'
    } else if d == 9 {
        '9'
    } else if d == 10 {
        'a'
    } else if d == 11 {
        'b'
    } else if d == 12 {
        'c'
    } else if d == 13 {
        'd'
    } else if d == 14 {
        'e'
    } else {
        'f'
    }
}

/// The decimal text of a number, without leading zeros.
pub open spec fn dec_of(n: nat) -> Seq<char>
    decreases n,
{
    if n < 10 {
        seq![digit_char(n)]
    } else {
        dec_of(n / 10).push(digit_char(n % 10))
    }
}

/// The lower-case hexadecimal text of a number, without leading zeros.
pub open spec fn hex_of(n: nat) -> Seq<char>
    decreases n,
{
    if n < 16 {
        seq![digit_char(n)]
    } else {
        hex_of(n / 16).push(digit_char(n % 16))
    }
}

/// The dotted-quad text of four octets.
pub open spec fn ipv4_text(a: u8, b: u8, c: u8, d: u8) -> Seq<char> {
    dec_of(a as nat) + seq!['.'] + dec_of(b as nat) + seq!['.'] + dec_of(c as nat) + seq!['.']
        + dec_of(d as nat)
}

/// How many consecutive zero groups start at an index.
pub open spec fn zero_run_len(segs: Seq<u16>, i: int) -> nat
    decreases segs.len() - i when 0 <= i <= segs.len()
{
    if i >= segs.len() || segs[i] != 0 {
        0
    } else {
        1 + zero_run_len(segs, i + 1)
    }
}

/// The start of the leftmost longest run of zero groups at or after an index.
pub open spec fn best_zero_run(segs: Seq<u16>, i: int) -> int
    decreases segs.len() - i when 0 <= i <= segs.len()
{
    if i >= segs.len() {
        i
    } else {
        let rest = best_zero_run(segs, i + 1);
        if zero_run_len(segs, i) >= zero_run_len(segs, rest) {
            i
        } else {
            rest
        }
    }
}

/// Hexadecimal groups joined with single colons.
pub open spec fn hex_groups_text(segs: Seq<u16>) -> Seq<char>
    decreases segs.len(),
{
    if segs.len() == 0 {
        Seq::empty()
    } else if segs.len() == 1 {
        hex_of(segs[0] as nat)
    } else {
        hex_groups_text(segs.drop_last()) + seq![':'] + hex_of(segs.last() as nat)
    }
}

/// The canonical text of eight address groups: an address mapping a
/// four-octet one keeps that form after "::ffff:"; otherwise the leftmost
/// longest run of at least two zero groups collapses to "::".
pub open spec fn ipv6_text(segs: Seq<u16>) -> Seq<char> {
    if segs[0] == 0 && segs[1] == 0 && segs[2] == 0 && segs[3] == 0 && segs[4] == 0 && segs[5]
        == 0xffff {
        seq![':', ':', 'f', 'f', 'f', 'f', ':'] + ipv4_text(
            (segs[6] >> 8) as u8,
            (segs[6] & 0xff) as u8,
            (segs[7] >> 8) as u8,
            (segs[7] & 0xff) as u8,
        )
    } else {
        let s = best_zero_run(segs, 0);
        let l = zero_run_len(segs, s);
        if l >= 2 {
            hex_groups_text(segs.take(s)) + seq![':', ':'] + hex_groups_text(segs.skip(s + l as int))
        } else {
            hex_groups_text(segs)
        }
    }
}

/// The canonical text of an address: dotted-quad for four octets, colon-hex
/// groups for eight groups.
pub open spec fn ip_text(addr: IpAddr) -> Seq<char> {
    match addr {
        IpAddr::V4(a, b, c, d) => ipv4_text(a, b, c, d),
        IpAddr::V6(s0, s1, s2, s3, s4, s5, s6, s7) => ipv6_text(
            seq![s0, s1, s2, s3, s4, s5, s6, s7],
        ),
    }
}

/// Appends one digit's character.
pub(crate) fn push_digit(out: &mut String, d: u8)
    requires
        d < 16,
    ensures
        final(out)@ == old(out)@ + seq![digit_char(d as nat)],
{
    let piece: &str = match d {
        0 => "0",
        1 => "1",
        2 => "2",
        3 => "3",
        4 => "4",
        5 => "5",
        6 => "6",
        7 => "7",
        8 => "8",
        9 => "9",
        10 => "a",
        11 => "b",
        12 => "c",
        13 => "d",
        14 => "e",
        _ => "f",
    };
    proof {
        reveal_strlit("0");
        reveal_strlit("1");
        reveal_strlit("2");
        reveal_strlit("3");
        reveal_strlit("4");
        reveal_strlit("5");
        reveal_strlit("6");
        reveal_strlit("7");
        reveal_strlit("8");
        reveal_strlit("9");
        reveal_strlit("a");
        reveal_strlit("b");
        reveal_strlit("c");
        reveal_strlit("d");
        reveal_strlit("e");
        reveal_strlit("f");
        assert(piece@ =~= seq![digit_char(d as nat)]);
    }
    out.append(piece);
}

/// Appends a number's decimal text.
fn push_dec(out: &mut String, n: u8)
    ensures
        final(out)@ == old(out)@ + dec_of(n as nat),
    decreases n,
{
    if n >= 10 {
        push_dec(out, n / 10);
    }
    push_digit(out, n % 10);
    proof {
        if n >= 10 {
            assert(old(out)@ + dec_of((n / 10) as nat) + seq![digit_char((n % 10) as nat)]
                =~= old(out)@ + dec_of(n as nat));
        } else {
            assert(old(out)@ + seq![digit_char(n as nat)] =~= old(out)@ + dec_of(n as nat));
        }
    }
}

/// Appends a number's lower-case hexadecimal text.
fn push_hex(out: &mut String, n: u16)
    ensures
        final(out)@ == old(out)@ + hex_of(n as nat),
    decreases n,
{
    if n >= 16 {
        push_hex(out, n / 16);
    }
    push_digit(out, (n % 16) as u8);
    proof {
        if n >= 16 {
            assert(old(out)@ + hex_of((n / 16) as nat) + seq![digit_char((n % 16) as nat)]
                =~= old(out)@ + hex_of(n as nat));
        } else {
            assert(old(out)@ + seq![digit_char(n as nat)] =~= old(out)@ + hex_of(n as nat));
        }
    }
}

/// Appends the dotted-quad text of four octets.
fn push_ipv4(out: &mut String, a: u8, b: u8, c: u8, d: u8)
    ensures
        final(out)@ == old(out)@ + ipv4_text(a, b, c, d),
    {
    push_dec(out, a);
    out.append(".");
    push_dec(out, b);
    out.append(".");
    push_dec(out, c);
    out.append(".");
    push_dec(out, d);
    proof {
        reveal_strlit(".");
        assert(out@ =~= old(out)@ + ipv4_text(a, b, c, d));
    }
}

/// How many consecutive zero groups start at an index.
fn zero_run_len_x(segs: &Vec<u16>, i: usize) -> (r: usize)
    requires
        i <= segs@.len(),
    ensures
        r == zero_run_len(segs@, i as int),
        i + r <= segs@.len(),
    decreases segs@.len() - i,
{
    if i >= segs.len() || segs[i] != 0 {
        0
    } else {
        1 + zero_run_len_x(segs, i + 1)
    }
}

/// The start of the leftmost longest run of zero groups at or after an index.
fn best_zero_run_x(segs: &Vec<u16>, i: usize) -> (r: usize)
    requires
        i <= segs@.len(),
    ensures
        r == best_zero_run(segs@, i as int),
        i <= r <= segs@.len(),
    decreases segs@.len() - i,
{
    if i >= segs.len() {
        i
    } else {
        let rest = best_zero_run_x(segs, i + 1);
        if zero_run_len_x(segs, i) >= zero_run_len_x(segs, rest) {
            i
        } else {
            rest
        }
    }
}

/// Appends the groups of an index range, joined with single colons.
fn push_groups(out: &mut String, segs: &Vec<u16>, from: usize, to: usize)
    requires
        from <= to <= segs@.len(),
    ensures
        final(out)@ == old(out)@ + hex_groups_text(segs@.subrange(from as int, to as int)),
    {
    let mut j = from;
    proof {
        assert(segs@.subrange(from as int, from as int).len() == 0);
    }
    while j < to
        invariant
            from <= j <= to <= segs@.len(),
            out@ == old(out)@ + hex_groups_text(segs@.subrange(from as int, j as int)),
        decreases to - j,
    {
        if j > from {
            out.append(":");
            proof {
                reveal_strlit(":");
            }
        }
        push_hex(out, segs[j]);
        proof {
            let sub = segs@.subrange(from as int, j as int + 1);
            assert(sub.drop_last() =~= segs@.subrange(from as int, j as int));
            assert(sub.last() == segs@[j as int]);
            if j > from {
                assert(out@ =~= old(out)@ + hex_groups_text(sub));
            } else {
                assert(out@ =~= old(out)@ + hex_groups_text(sub));
            }
        }
        j += 1;
    }
}

impl IpAddr {
    /// The canonical text of the address: dotted-quad for four octets,
    /// colon-hex groups with the leftmost longest zero run collapsed for
    /// eight groups.
    pub fn to_text(&self) -> (r: String)
        ensures
            r@ == ip_text(*self),
    {
        match *self {
            IpAddr::V4(a, b, c, d) => {
                let mut out = String::new();
                push_ipv4(&mut out, a, b, c, d);
                out
            },
            IpAddr::V6(s0, s1, s2, s3, s4, s5, s6, s7) => {
                let mut segs: Vec<u16> = Vec::new();
                segs.push(s0);
                segs.push(s1);
                segs.push(s2);
                segs.push(s3);
                segs.push(s4);
                segs.push(s5);
                segs.push(s6);
                segs.push(s7);
                proof {
                    assert(segs@ =~= seq![s0, s1, s2, s3, s4, s5, s6, s7]);
                }
                let mut out = String::new();
                if s0 == 0 && s1 == 0 && s2 == 0 && s3 == 0 && s4 == 0 && s5 == 0xffff {
                    out.append("::ffff:");
                    push_ipv4(&mut out, (s6 >> 8) as u8, (s6 & 0xff) as u8, (s7 >> 8) as u8, (
                    s7 & 0xff) as u8);
                    proof {
                        reveal_strlit("::ffff:");
                        assert("::ffff:"@ =~= seq![':', ':', 'f', 'f', 'f', 'f', ':']);
                        assert(out@ =~= ip_text(*self));
                    }
                } else {
                    let s = best_zero_run_x(&segs, 0);
                    let l = zero_run_len_x(&segs, s);
                    if l >= 2 {
                        push_groups(&mut out, &segs, 0, s);
                        out.append("::");
                        let rest_from = s + l;
                        push_groups(&mut out, &segs, rest_from, 8);
                        proof {
                            reveal_strlit("::");
                            assert("::"@ =~= seq![':', ':']);
                            assert(segs@.subrange(0, s as int) =~= segs@.take(s as int));
                            assert(segs@.subrange(rest_from as int, 8) =~= segs@.skip(
                                s as int + l as int));
                            assert(out@ =~= ip_text(*self));
                        }
                    } else {
                        push_groups(&mut out, &segs, 0, 8);
                        proof {
                            assert(segs@.subrange(0, 8) =~= segs@);
                            assert(out@ =~= ip_text(*self));
                        }
                    }
                }
                out
            },
        }
    }
}

} // verus!
