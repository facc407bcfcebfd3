//! The canonical text encoding: decimal renderings of unsigned integers and
//! lowercase hexadecimal renderings of byte strings. The encodings of
//! transactions and blocks are built from these, so determinism of the
//! canonical form reduces to the spec functions here.

use vstd::prelude::*;
use vstd::string::StringExecFns;

verus! {

/// The character standing for one digit value below sixteen.
pub open spec fn digit_char(d: nat) -> char {
    if d == 0 {
        '0'
    } else if d == 1 {
        '1'
    } else if d == 2 {
        '2'
    } else if d == 3 {
        '3'
    } else if d == 4 {
        '4'
    } else if d == 5 {
        '5'
    } else if d == 6 {
        '6'
    } else if d == 7 {
        '7'
    } else if d == 8 {
        '8'
    } else if d == 9 {
        '9'
    } else if d == 10 {
        'a'
    } else if d == 11 {
        'b'
    } else if d == 12 {
        'c'
    } else if d == 13 {
        'd'
    } else if d == 14 {
        'e'
    } else {
        'f'
    }
}

/// The decimal rendering of a natural number, most significant digit first,
/// without leading zeros (a single `'0'` for zero).
pub open spec fn dec_of(n: nat) -> Seq<char>
    decreases n,
{
    if n < 10 {
        seq![digit_char(n)]
    } else {
        dec_of(n / 10) + seq![digit_char(n % 10)]
    }
}

/// The two lowercase hexadecimal characters of one byte, high nibble first.
pub open spec fn hex_of_byte(b: u8) -> Seq<char> {
    seq![digit_char((b / 16) as nat), digit_char((b % 16) as nat)]
}

/// The lowercase hexadecimal rendering of a byte string, two characters per
/// byte, in byte order.
pub open spec fn hex_of(bytes: Seq<u8>) -> Seq<char>
    decreases bytes.len(),
{
    if bytes.len() == 0 {
        Seq::empty()
    } else {
        hex_of(bytes.drop_last()) + hex_of_byte(bytes.last())
    }
}

/// A decimal rendering is never empty.
pub proof fn lemma_dec_of_len_pos(n: nat)
    ensures
        dec_of(n).len() >= 1,
    decreases n,
{
    if n >= 10 {
        lemma_dec_of_len_pos(n / 10);
    }
}

/// The decimal rendering is injective: distinct numbers render distinctly.
pub proof fn lemma_dec_of_injective(n1: nat, n2: nat)
    requires
        n1 != n2,
    ensures
        dec_of(n1) != dec_of(n2),
    decreases n1 + n2,
{
    lemma_dec_of_len_pos(n1);
    lemma_dec_of_len_pos(n2);
    if n1 < 10 && n2 < 10 {
        assert(dec_of(n1)[0] == digit_char(n1));
        assert(dec_of(n2)[0] == digit_char(n2));
    } else if n1 < 10 {
        lemma_dec_of_len_pos(n2 / 10);
        assert(dec_of(n2).len() >= 2);
    } else if n2 < 10 {
        lemma_dec_of_len_pos(n1 / 10);
        assert(dec_of(n1).len() >= 2);
    } else if n1 % 10 != n2 % 10 {
        assert(dec_of(n1).last() == digit_char(n1 % 10));
        assert(dec_of(n2).last() == digit_char(n2 % 10));
    } else {
        assert(n1 / 10 != n2 / 10);
        lemma_dec_of_injective(n1 / 10, n2 / 10);
        if dec_of(n1) == dec_of(n2) {
            assert(dec_of(n1).drop_last() =~= dec_of(n1 / 10));
            assert(dec_of(n2).drop_last() =~= dec_of(n2 / 10));
            assert(false);
        }
    }
}

/// A hexadecimal rendering holds two characters per byte.
pub proof fn lemma_hex_of_len(bytes: Seq<u8>)
    ensures
        hex_of(bytes).len() == 2 * bytes.len(),
    decreases bytes.len(),
{
    if bytes.len() > 0 {
        lemma_hex_of_len(bytes.drop_last());
    }
}

/// The hexadecimal rendering is injective on byte strings of equal length:
/// distinct strings render distinctly.
pub proof fn lemma_hex_of_injective(a: Seq<u8>, b: Seq<u8>)
    requires
        a.len() == b.len(),
        a != b,
    ensures
        hex_of(a) != hex_of(b),
    decreases a.len(),
{
    lemma_hex_of_len(a);
    lemma_hex_of_len(b);
    if a.len() == 0 {
        assert(a =~= b);
    } else if a.last() == b.last() {
        if a.drop_last() == b.drop_last() {
            assert forall|i: int| 0 <= i < a.len() implies a[i] == b[i] by {
                if i < a.len() - 1 {
                    assert(a.drop_last()[i] == a[i]);
                    assert(b.drop_last()[i] == b[i]);
                }
            }
            assert(a =~= b);
        }
        lemma_hex_of_injective(a.drop_last(), b.drop_last());
        if hex_of(a) == hex_of(b) {
            lemma_hex_of_len(a.drop_last());
            assert(hex_of(a).subrange(0, hex_of(a).len() - 2) =~= hex_of(a.drop_last()));
            assert(hex_of(b).subrange(0, hex_of(b).len() - 2) =~= hex_of(b.drop_last()));
            assert(false);
        }
    } else {
        let x = a.last();
        let y = b.last();
        assert(x / 16 != y / 16 || x % 16 != y % 16);
        if hex_of(a) == hex_of(b) {
            lemma_hex_of_len(a.drop_last());
            lemma_hex_of_len(b.drop_last());
            assert(hex_of(a)[hex_of(a).len() - 2] == digit_char((x / 16) as nat));
            assert(hex_of(a)[hex_of(a).len() - 1] == digit_char((x % 16) as nat));
            assert(hex_of(b)[hex_of(b).len() - 2] == digit_char((y / 16) as nat));
            assert(hex_of(b)[hex_of(b).len() - 1] == digit_char((y % 16) as nat));
            assert(false);
        }
    }
}

/// A segment of a concatenation is the subrange at its offset.
pub(crate) proof fn lemma_concat_segment(a: Seq<char>, x: Seq<char>, b: Seq<char>)
    ensures
        (a + x + b).subrange(a.len() as int, a.len() + x.len() as int) =~= x,
{
}

/// Equal sequences around a shared prefix and suffix have equal middles.
pub(crate) proof fn lemma_concat_cancel(p: Seq<char>, x: Seq<char>, y: Seq<char>, s: Seq<char>)
    requires
        p + x + s == p + y + s,
    ensures
        x == y,
{
    assert((p + x + s).len() == p.len() + x.len() + s.len());
    assert((p + y + s).len() == p.len() + y.len() + s.len());
    assert(x.len() == y.len());
    assert forall|i: int| 0 <= i < x.len() implies x[i] == y[i] by {
        assert((p + x + s)[p.len() + i] == x[i]);
        assert((p + y + s)[p.len() + i] == y[i]);
    }
    assert(x =~= y);
}

/// The one-character string for a digit value below sixteen.
fn digit_str(d: u8) -> (s: &'static str)
    requires
        d < 16,
    ensures
        s@ == seq![digit_char(d as nat)],
{
    if d == 0 {
        proof {
            reveal_strlit("0");
            assert("0"@ =~= seq![digit_char(d as nat)]);
        }
        "0"
    } else if d == 1 {
        proof {
            reveal_strlit("1");
            assert("1"@ =~= seq![digit_char(d as nat)]);
        }
        "1"
    } else if d == 2 {
        proof {
            reveal_strlit("2");
            assert("2"@ =~= seq![digit_char(d as nat)]);
        }
        "2"
    } else if d == 3 {
        proof {
            reveal_strlit("3");
            assert("3"@ =~= seq![digit_char(d as nat)]);
        }
        "3"
    } else if d == 4 {
        proof {
            reveal_strlit("4");
            assert("4"@ =~= seq![digit_char(d as nat)]);
        }
        "4"
    } else if d == 5 {
        proof {
            reveal_strlit("5");
            assert("5"@ =~= seq![digit_char(d as nat)]);
        }
        "5"
    } else if d == 6 {
        proof {
            reveal_strlit("6");
            assert("6"@ =~= seq![digit_char(d as nat)]);
        }
        "6"
    } else if d == 7 {
        proof {
            reveal_strlit("7");
            assert("7"@ =~= seq![digit_char(d as nat)]);
        }
        "7"
    } else if d == 8 {
        proof {
            reveal_strlit("8");
            assert("8"@ =~= seq![digit_char(d as nat)]);
        }
        "8"
    } else if d == 9 {
        proof {
            reveal_strlit("9");
            assert("9"@ =~= seq![digit_char(d as nat)]);
        }
        "9"
    } else if d == 10 {
        proof {
            reveal_strlit("a");
            assert("a"@ =~= seq![digit_char(d as nat)]);
        }
        "a"
    } else if d == 11 {
        proof {
            reveal_strlit("b");
            assert("b"@ =~= seq![digit_char(d as nat)]);
        }
        "b"
    } else if d == 12 {
        proof {
            reveal_strlit("c");
            assert("c"@ =~= seq![digit_char(d as nat)]);
        }
        "c"
    } else if d == 13 {
        proof {
            reveal_strlit("d");
            assert("d"@ =~= seq![digit_char(d as nat)]);
        }
        "d"
    } else if d == 14 {
        proof {
            reveal_strlit("e");
            assert("e"@ =~= seq![digit_char(d as nat)]);
        }
        "e"
    } else {
        proof {
            reveal_strlit("f");
            assert("f"@ =~= seq![digit_char(d as nat)]);
        }
        "f"
    }
}

/// Appends the decimal rendering of `n` to `out`.
pub(crate) fn push_decimal(out: &mut String, n: u128)
    ensures
        final(out)@ == old(out)@ + dec_of(n as nat),
    decreases n,
{
    if n < 10 {
        out.append(digit_str(n as u8));
        proof {
            assert(out@ =~= old(out)@ + dec_of(n as nat));
        }
    } else {
        push_decimal(out, n / 10);
        out.append(digit_str((n % 10) as u8));
        proof {
            assert(out@ =~= old(out)@ + dec_of(n as nat));
        }
    }
}

/// Appends the lowercase hexadecimal rendering of a 32-byte string to `out`.
pub(crate) fn push_hex32(out: &mut String, bytes: &[u8; 32])
    ensures
        final(out)@ == old(out)@ + hex_of(bytes@),
{
    let mut i: usize = 0;
    while i < 32
        invariant
            i <= 32,
            out@ == old(out)@ + hex_of(bytes@.take(i as int)),
        decreases 32 - i,
    {
        let b = bytes[i];
        out.append(digit_str(b / 16));
        out.append(digit_str(b % 16));
        proof {
            assert(bytes@.take(i as int + 1).drop_last() =~= bytes@.take(i as int));
            assert(bytes@.take(i as int + 1).last() == bytes@[i as int]);
            assert(out@ =~= old(out)@ + hex_of(bytes@.take(i as int + 1)));
        }
        i = i + 1;
    }
    proof {
        assert(bytes@.take(32) =~= bytes@);
    }
}

} // verus!
