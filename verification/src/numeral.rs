use vstd::prelude::*;

verus! {

/// The decimal numeral of `n` as ASCII bytes: most significant digit first,
/// no sign, no leading zeros (the numeral of 0 is `"0"`).
pub open spec fn spec_decimal(n: nat) -> Seq<u8>
    decreases n,
{
    if n < 10 {
        seq![(48 + n) as u8]
    } else {
        spec_decimal(n / 10).push((48 + n % 10) as u8)
    }
}

/// Law: the numeral is never empty, holds ASCII digits and nothing else —
/// no sign, no whitespace, no terminator — and never starts with a zero
/// unless it is the numeral of 0.
pub proof fn lemma_decimal_is_bare_digits(n: nat)
    ensures
        spec_decimal(n).len() >= 1,
        forall|i: int|
            0 <= i < spec_decimal(n).len() ==> 48 <= #[trigger] spec_decimal(n)[i] <= 57,
        n >= 1 ==> spec_decimal(n)[0] != 48,
    decreases n,
{
    if n >= 10 {
        lemma_decimal_is_bare_digits(n / 10);
    }
}

/// Renders `n` in decimal ASCII, exactly as the control files expect it:
/// digits only, no whitespace, no trailing data.
pub fn decimal_bytes(n: u64) -> (v: Vec<u8>)
    ensures
        v@ == spec_decimal(n as nat),
    decreases n,
{
    if n < 10 {
        let mut v: Vec<u8> = Vec::new();
        v.push(48 + n as u8);
        proof {
            assert(v@ =~= spec_decimal(n as nat));
        }
        v
    } else {
        let mut v = decimal_bytes(n / 10);
        v.push(48 + (n % 10) as u8);
        v
    }
}

} // verus!
