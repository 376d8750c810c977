use vstd::prelude::*;

verus! {

/// The lower-case hex digit of a value below 16.
pub open spec fn digit(v: u8) -> u8 {
    if v < 10 {
        (v + 48) as u8
    } else {
        (v + 87) as u8
    }
}

/// The value of a lower-case hex digit, if `c` is one.
pub open spec fn digit_value(c: u8) -> Option<u8> {
    if 48 <= c <= 57 {
        Some((c - 48) as u8)
    } else if 97 <= c <= 102 {
        Some((c - 87) as u8)
    } else {
        None
    }
}

/// Lower-case hex of a byte string: two digits per byte, high nibble first.
pub open spec fn hex_of(b: Seq<u8>) -> Seq<u8>
    decreases b.len(),
{
    if b.len() == 0 {
        seq![]
    } else {
        hex_of(b.drop_last()) + seq![digit(b.last() / 16), digit(b.last() % 16)]
    }
}

proof fn lemma_hex_of_len(b: Seq<u8>)
    ensures
        hex_of(b).len() == 2 * b.len(),
    decreases b.len(),
{
    if b.len() > 0 {
        lemma_hex_of_len(b.drop_last());
    }
}

proof fn lemma_hex_of_index(b: Seq<u8>, i: int)
    requires
        0 <= i < b.len(),
    ensures
        hex_of(b)[2 * i] == digit(b[i] / 16),
        hex_of(b)[2 * i + 1] == digit(b[i] % 16),
    decreases b.len(),
{
    lemma_hex_of_len(b.drop_last());
    if i < b.len() - 1 {
        lemma_hex_of_index(b.drop_last(), i);
    }
}

fn hex_digit(v: u8) -> (r: u8)
    requires
        v < 16,
    ensures
        r == digit(v),
{
    if v < 10 {
        v + 48
    } else {
        v + 87
    }
}

fn hex_digit_value(c: u8) -> (r: Option<u8>)
    ensures
        r == digit_value(c),
{
    if 48 <= c && c <= 57 {
        Some(c - 48)
    } else if 97 <= c && c <= 102 {
        Some(c - 87)
    } else {
        None
    }
}

/// Lower-case hex of `b`, as ASCII bytes.
pub fn to_hex(b: &[u8]) -> (r: Vec<u8>)
    requires
        b@.len() * 2 <= usize::MAX,
    ensures
        r@ == hex_of(b@),
{
    let mut out: Vec<u8> = Vec::new();
    let mut i: usize = 0;
    while i < b.len()
        invariant
            i <= b@.len(),
            out@ == hex_of(b@.subrange(0, i as int)),
        decreases b@.len() - i,
    {
        out.push(hex_digit(b[i] / 16));
        out.push(hex_digit(b[i] % 16));
        proof {
            let s = b@.subrange(0, i + 1);
            assert(s.drop_last() =~= b@.subrange(0, i as int));
        }
        i = i + 1;
    }
    proof {
        assert(b@.subrange(0, i as int) =~= b@);
    }
    out
}

/// The bytes that the lower-case hex text `s` encodes: `None` when `s` has
/// an odd length or holds a character other than `0`-`9` and `a`-`f`.
pub fn from_hex(s: &[u8]) -> (r: Option<Vec<u8>>)
    ensures
        r is Some <==> exists|b: Seq<u8>| hex_of(b) == s@,
        r is Some ==> hex_of(r->0@) == s@,
{
    if s.len() % 2 != 0 {
        proof {
            assert forall|b: Seq<u8>| hex_of(b) != s@ by {
                lemma_hex_of_len(b);
            }
        }
        return None;
    }
    let mut out: Vec<u8> = Vec::new();
    let mut i: usize = 0;
    while i < s.len() / 2
        invariant
            s@.len() % 2 == 0,
            i <= s@.len() / 2,
            hex_of(out@) == s@.subrange(0, 2 * i),
            out@.len() == i,
        decreases s@.len() / 2 - i,
    {
        let hi = hex_digit_value(s[2 * i]);
        let lo = hex_digit_value(s[2 * i + 1]);
        match (hi, lo) {
            (Some(h), Some(l)) => {
                let v: u8 = h * 16 + l;
                proof {
                    assert(v / 16 == h && v % 16 == l) by (nonlinear_arith)
                        requires
                            h < 16,
                            l < 16,
                            v == h * 16 + l,
                    ;
                    assert(digit(h) == s@[2 * i]);
                    assert(digit(l) == s@[2 * i + 1]);
                }
                let ghost prev = out@;
                out.push(v);
                proof {
                    assert(out@.drop_last() =~= prev);
                    assert(s@.subrange(0, 2 * i + 2) =~= s@.subrange(0, 2 * i) + seq![
                        s@[2 * i],
                        s@[2 * i + 1],
                    ]);
                }
                i = i + 1;
            },
            _ => {
                proof {
                    assert forall|b: Seq<u8>| hex_of(b) != s@ by {
                        if hex_of(b) == s@ {
                            lemma_hex_of_len(b);
                            lemma_hex_of_index(b, i as int);
                            assert(digit_value(digit(b[i as int] / 16)) is Some);
                            assert(digit_value(digit(b[i as int] % 16)) is Some);
                        }
                    }
                }
                return None;
            },
        }
    }
    proof {
        assert(s@.subrange(0, 2 * i) =~= s@);
    }
    Some(out)
}

/// Hex text decodes to the bytes it was made from.
pub proof fn lemma_hex_round_trip(a: Seq<u8>, b: Seq<u8>)
    requires
        hex_of(a) == hex_of(b),
    ensures
        a == b,
{
    lemma_hex_of_len(a);
    lemma_hex_of_len(b);
    assert forall|i: int| 0 <= i < a.len() implies a[i] == b[i] by {
        lemma_hex_of_index(a, i);
        lemma_hex_of_index(b, i);
        let (x, y) = (a[i], b[i]);
        assert(digit(x / 16) == digit(y / 16));
        assert(digit(x % 16) == digit(y % 16));
        assert(x / 16 == y / 16);
        assert(x % 16 == y % 16);
        assert(x == y) by (nonlinear_arith)
            requires
                x / 16 == y / 16,
                x % 16 == y % 16,
        ;
    }
    assert(a =~= b);
}

} // verus!
