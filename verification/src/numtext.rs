use vstd::prelude::*;

verus! {

/// A decimal digit.
pub open spec fn dec_digit(c: char) -> bool {
    48 <= c as u32 <= 57
}

/// The value of a decimal digit; zero for any other character.
pub open spec fn digit_val(c: char) -> nat {
    if dec_digit(c) {
        (c as u32 - 48) as nat
    } else {
        0
    }
}

/// Every character of the text is a decimal digit.
pub open spec fn all_digits(s: Seq<char>) -> bool {
    forall|i: int| 0 <= i < s.len() ==> dec_digit(s[i])
}

/// The number a digit sequence denotes, read left to right.
pub open spec fn digits_value(s: Seq<char>) -> nat
    decreases s.len(),
{
    if s.len() == 0 {
        0
    } else {
        digits_value(s.drop_last()) * 10 + digit_val(s.last())
    }
}

/// How a text reads as a `u64`, the way the standard decimal reader does: an
/// optional leading plus sign, then one or more decimal digits, denoting a
/// value that fits; anything else does not read.
pub open spec fn parse_u64_spec(s: Seq<char>) -> Option<u64> {
    let body = if s.len() > 0 && s[0] == '+' {
        s.skip(1)
    } else {
        s
    };
    if body.len() == 0 || !all_digits(body) || digits_value(body) > u64::MAX {
        None
    } else {
        Some(digits_value(body) as u64)
    }
}

proof fn lemma_digits_value_prefix(s: Seq<char>, k: int)
    requires
        0 <= k <= s.len(),
    ensures
        digits_value(s.take(k)) <= digits_value(s),
    decreases s.len() - k,
{
    if k < s.len() {
        assert(s.take(k + 1).drop_last() =~= s.take(k));
        assert(s.take(k + 1).last() == s[k]);
        assert(digits_value(s.take(k)) <= digits_value(s.take(k + 1)));
        lemma_digits_value_prefix(s, k + 1);
    } else {
        assert(s.take(k) =~= s);
    }
}

/// Reads a text as a `u64` the way the standard decimal reader does, yielding
/// zero instead of an error wherever the text does not read as a number.
pub fn parse_u64_or_zero(s: &str) -> (r: u64)
    ensures
        r == (match parse_u64_spec(s@) {
            Some(n) => n,
            None => 0u64,
        }),
{
    let len = s.unicode_len();
    if len == 0 {
        return 0;
    }
    let start: usize = if s.get_char(0) == '+' {
        1
    } else {
        0
    };
    let ghost body = if s@[0] == '+' {
        s@.skip(1)
    } else {
        s@
    };
    proof {
        assert(s@.skip(0) =~= s@);
    }
    if start == len {
        return 0;
    }
    let mut acc: u64 = 0;
    let mut i: usize = start;
    proof {
        assert(body.take(0) =~= Seq::<char>::empty());
    }
    while i < len
        invariant
            len == s@.len(),
            start <= i <= len,
            start == 1 <==> s@[0] == '+',
            start <= 1,
            body == s@.skip(start as int),
            all_digits(body.take(i - start)),
            acc == digits_value(body.take(i - start)),
        decreases len - i,
    {
        let c = s.get_char(i);
        let u = c as u32;
        proof {
            assert(body[i - start] == s@[i as int]);
        }
        if u < 48 || u > 57 {
            assert(!dec_digit(body[i - start]));
            return 0;
        }
        let ghost k = i - start;
        let d = (u - 48) as u64;
        let next = match acc.checked_mul(10) {
            Some(x) => x.checked_add(d),
            None => None,
        };
        proof {
            assert(body.take(k + 1).drop_last() =~= body.take(k as int));
            assert(body.take(k + 1).last() == body[k as int]);
            assert(digits_value(body.take(k + 1)) == acc * 10 + digit_val(body[k as int]));
        }
        acc = match next {
            Some(y) => y,
            None => {
                proof {
                    assert(digits_value(body.take(k + 1)) > u64::MAX);
                    lemma_digits_value_prefix(body, k + 1);
                    assert(body == (if s@.len() > 0 && s@[0] == '+' {
                        s@.skip(1)
                    } else {
                        s@
                    }));
                }
                return 0;
            },
        };
        i += 1;
    }
    proof {
        assert(body.take((len - start) as int) =~= body);
    }
    acc
}

} // verus!
