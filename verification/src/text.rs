//! Small text helpers: canonical decimal rendering of integers and the
//! removal of trailing slashes from a base URL.
use vstd::prelude::*;

verus! {

/// The ASCII digit character for `d` (`0 <= d < 10`).
pub open spec fn digit(d: nat) -> char {
    "0123456789"@[d as int]
}

/// Canonical decimal text of `n`: no sign, no leading zeros, `"0"` for zero.
pub open spec fn decimal(n: nat) -> Seq<char>
    decreases n,
{
    if n < 10 {
        seq![digit(n)]
    } else {
        decimal(n / 10).push(digit(n % 10))
    }
}

/// `s` with every trailing `'/'` removed.
pub open spec fn trim_trailing_slashes(s: Seq<char>) -> Seq<char>
    decreases s.len(),
{
    if s.len() > 0 && s.last() == '/' {
        trim_trailing_slashes(s.drop_last())
    } else {
        s
    }
}

/// Renders `n` in decimal, as `u32::to_string` does.
pub fn decimal_string(n: u32) -> (s: String)
    ensures
        s@ == decimal(n as nat),
{
    let digits = "0123456789";
    proof {
        reveal_strlit("0123456789");
    }
    let mut rest: u32 = n;
    let mut out = String::new();
    loop
        invariant
            digits@ == "0123456789"@,
            digits@.len() == 10,
            decimal(n as nat) == decimal(rest as nat) + out@,
        decreases rest,
    {
        let d: u32 = rest % 10;
        let ds = digits.substring_char(d as usize, (d + 1) as usize);
        assert(ds@ =~= seq![digit(d as nat)]);
        let ghost old_out = out@;
        out = String::from_str(ds).concat(out.as_str());
        if rest < 10 {
            assert(decimal(rest as nat) =~= seq![digit(rest as nat)]);
            assert(out@ =~= decimal(rest as nat) + old_out);
            return out;
        }
        let ghost r = rest as nat;
        assert(decimal(r) == decimal(r / 10).push(digit(r % 10)));
        assert(decimal(r / 10) + out@ =~= decimal(r) + old_out);
        rest = rest / 10;
    }
}

/// Trimming is idempotent and leaves no trailing slash behind.
pub proof fn lemma_trim_trailing_slashes(s: Seq<char>)
    ensures
        trim_trailing_slashes(trim_trailing_slashes(s)) == trim_trailing_slashes(s),
        trim_trailing_slashes(s).len() == 0 || trim_trailing_slashes(s).last() != '/',
        trim_trailing_slashes(s).len() <= s.len(),
        trim_trailing_slashes(s) == s.subrange(0, trim_trailing_slashes(s).len() as int),
        forall|i: int| trim_trailing_slashes(s).len() <= i < s.len() ==> #[trigger] s[i] == '/',
    decreases s.len(),
{
    if s.len() > 0 && s.last() == '/' {
        lemma_trim_trailing_slashes(s.drop_last());
        let t = trim_trailing_slashes(s.drop_last());
        assert(s.drop_last().subrange(0, t.len() as int) =~= s.subrange(0, t.len() as int));
        assert forall|i: int| t.len() <= i < s.len() implies #[trigger] s[i] == '/' by {
            if i < s.len() - 1 {
                assert(s[i] == s.drop_last()[i]);
            }
        }
    } else {
        assert(s.subrange(0, s.len() as int) =~= s);
    }
}

/// Adding slashes at the end of `s` does not change what trimming gives.
pub proof fn lemma_trim_ignores_added_slash(s: Seq<char>)
    ensures
        trim_trailing_slashes(s.push('/')) == trim_trailing_slashes(s),
{
    assert(s.push('/').drop_last() =~= s);
}

/// Whether `c` is an ASCII decimal digit.
pub open spec fn is_ascii_digit(c: char) -> bool {
    '0' as int <= c as int <= '9' as int
}

/// The number that a string of decimal digits denotes.
pub open spec fn digits_value(s: Seq<char>) -> int
    decreases s.len(),
{
    if s.len() == 0 {
        0
    } else {
        digits_value(s.drop_last()) * 10 + (s.last() as int - '0' as int)
    }
}

proof fn lemma_digit(d: nat)
    requires
        d < 10,
    ensures
        digit(d) as int == '0' as int + d,
{
    reveal_strlit("0123456789");
}

/// The decimal text of `n` is a non-empty string of digits, without a
/// leading zero unless `n` is zero, and it denotes `n`.
pub proof fn lemma_decimal_denotes(n: nat)
    ensures
        decimal(n).len() > 0,
        forall|i: int| 0 <= i < decimal(n).len() ==> is_ascii_digit(#[trigger] decimal(n)[i]),
        digits_value(decimal(n)) == n,
        n > 0 ==> decimal(n)[0] != '0',
    decreases n,
{
    if n < 10 {
        lemma_digit(n);
        assert(decimal(n) =~= seq![digit(n)]);
        assert(decimal(n).drop_last() =~= Seq::<char>::empty());
        assert(digits_value(Seq::<char>::empty()) == 0);
        assert(digits_value(decimal(n)) == digits_value(decimal(n).drop_last()) * 10 + (
        decimal(n).last() as int - '0' as int));
    } else {
        lemma_decimal_denotes(n / 10);
        lemma_digit(n % 10);
        let s = decimal(n);
        assert(s.drop_last() =~= decimal(n / 10));
        assert(s[0] == decimal(n / 10)[0]);
        assert(s.last() == digit(n % 10));
        assert(digits_value(s) == digits_value(s.drop_last()) * 10 + (s.last() as int - '0' as int));
        assert((n / 10) * 10 + n % 10 == n);
    }
}

} // verus!
