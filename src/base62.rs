//! Base62 encoding of unsigned integers over the alphabet `0-9A-Za-z`.

use vstd::prelude::*;
use vstd::string::*;

verus! {

/// The Base62 digits, in order of value.
pub open spec fn alphabet() -> Seq<char> {
    seq![
        '0', '1', '2', '3', '4', '5', '6', '7', '8', '9',
        'A', 'B', 'C', 'D', 'E', 'F', 'G', 'H', 'I', 'J', 'K', 'L', 'M',
        'N', 'O', 'P', 'Q', 'R', 'S', 'T', 'U', 'V', 'W', 'X', 'Y', 'Z',
        'a', 'b', 'c', 'd', 'e', 'f', 'g', 'h', 'i', 'j', 'k', 'l', 'm',
        'n', 'o', 'p', 'q', 'r', 's', 't', 'u', 'v', 'w', 'x', 'y', 'z',
    ]
}

/// The Base62 numeral of `n`, most significant digit first, without leading
/// zeros; zero is the single digit `0`.
pub open spec fn base62_of(n: nat) -> Seq<char>
    decreases n,
{
    if n < 62 {
        seq![alphabet()[n as int]]
    } else {
        base62_of(n / 62).push(alphabet()[(n % 62) as int])
    }
}

/// A non-empty string made of Base62 digits only.
pub open spec fn is_base62(s: Seq<char>) -> bool {
    &&& s.len() > 0
    &&& forall|i: int| 0 <= i < s.len() ==> #[trigger] alphabet().contains(s[i])
}

/// Every numeral is a non-empty Base62 string.
pub proof fn lemma_base62_of_is_base62(n: nat)
    ensures
        is_base62(base62_of(n)),
    decreases n,
{
    if n < 62 {
        assert(alphabet().contains(base62_of(n)[0]));
    } else {
        lemma_base62_of_is_base62(n / 62);
        let s = base62_of(n);
        assert forall|i: int| 0 <= i < s.len() implies #[trigger] alphabet().contains(s[i]) by {
            if i < s.len() - 1 {
                assert(alphabet().contains(base62_of(n / 62)[i]));
            } else {
                assert(s[i] == alphabet()[(n % 62) as int]);
            }
        }
    }
}

/// Concatenating Base62 strings gives a Base62 string.
pub proof fn lemma_concat_is_base62(a: Seq<char>, b: Seq<char>)
    requires
        is_base62(a),
        is_base62(b),
    ensures
        is_base62(a + b),
{
    let s = a + b;
    assert forall|i: int| 0 <= i < s.len() implies #[trigger] alphabet().contains(s[i]) by {
        if i < a.len() {
            assert(alphabet().contains(a[i]));
        } else {
            assert(alphabet().contains(b[i - a.len()]));
        }
    }
}

/// Encodes `num` in Base62, most significant digit first; zero encodes as
/// `"0"`.
pub fn base62_encode(num: u64) -> (encoded: String)
    ensures
        encoded@ == base62_of(num as nat),
{
    let charset = "0123456789ABCDEFGHIJKLMNOPQRSTUVWXYZabcdefghijklmnopqrstuvwxyz";
    proof {
        reveal_strlit("0123456789ABCDEFGHIJKLMNOPQRSTUVWXYZabcdefghijklmnopqrstuvwxyz");
    }
    assert(charset@ =~= alphabet());
    let mut n: u64 = num;
    let mut encoded = String::new();
    loop
        invariant_except_break
            charset@ == alphabet(),
            base62_of(num as nat) == base62_of(n as nat) + encoded@,
        ensures
            encoded@ == base62_of(num as nat),
        decreases n,
    {
        let d: u64 = n % 62;
        let piece: &str = charset.substring_char(d as usize, (d + 1) as usize);
        let mut digits = String::from_str(piece);
        digits.append(encoded.as_str());
        assert(piece@ =~= seq![alphabet()[d as int]]);
        if n < 62 {
            assert(digits@ =~= base62_of(n as nat) + encoded@);
            encoded = digits;
            break;
        }
        assert(base62_of(n as nat) + encoded@ =~= base62_of((n / 62) as nat) + digits@);
        encoded = digits;
        n = n / 62;
    }
    encoded
}

} // verus!
