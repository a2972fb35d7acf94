//! Names of checkpoint files, built as ASCII bytes.
use vstd::prelude::*;

verus! {

/// The ASCII decimal digits of `n`, most significant first, without leading zeros.
pub open spec fn decimal(n: nat) -> Seq<u8>
    decreases n,
{
    if n < 10 {
        seq![(48 + n) as u8]
    } else {
        decimal(n / 10).push((48 + n % 10) as u8)
    }
}

/// `s` preceded by as many ASCII zeros as it takes to make it `width` bytes long.
pub open spec fn zero_pad(s: Seq<u8>, width: nat) -> Seq<u8> {
    if s.len() >= width {
        s
    } else {
        Seq::new((width - s.len()) as nat, |i: int| 48u8) + s
    }
}

/// The ASCII bytes of `checkpoint_`.
pub open spec fn checkpoint_prefix() -> Seq<u8> {
    seq![99u8, 104, 101, 99, 107, 112, 111, 105, 110, 116, 95]
}

/// The ASCII bytes of `.tmp`.
pub open spec fn tmp_suffix() -> Seq<u8> {
    seq![46u8, 116, 109, 112]
}

/// The name of checkpoint number `n`: `checkpoint_` and `n` in at least four digits,
/// padded with zeros, as `format!("checkpoint_{:04}", n)` writes it.
pub open spec fn spec_checkpoint_label(n: nat) -> Seq<u8> {
    checkpoint_prefix() + zero_pad(decimal(n), 4)
}

/// The file name of checkpoint number `n`: its label followed by `.tmp`.
pub open spec fn spec_checkpoint_file_name(n: nat) -> Seq<u8> {
    spec_checkpoint_label(n) + tmp_suffix()
}

/// Appends the decimal digits of `n` to `out`.
pub fn push_decimal(n: usize, out: &mut Vec<u8>)
    ensures
        final(out)@ == old(out)@ + decimal(n as nat),
    decreases n,
{
    if n < 10 {
        out.push((48 + n) as u8);
        assert(old(out)@ + decimal(n as nat) =~= old(out)@.push((48 + n) as u8));
    } else {
        push_decimal(n / 10, out);
        out.push((48 + n % 10) as u8);
        assert(old(out)@ + decimal(n as nat) =~= old(out)@ + decimal((n / 10) as nat) + seq![
            (48 + n % 10) as u8,
        ]);
    }
}

/// Appends the ASCII bytes of `tail` to `out`.
fn push_bytes(out: &mut Vec<u8>, tail: &Vec<u8>)
    ensures
        final(out)@ == old(out)@ + tail@,
{
    let mut i: usize = 0;
    while i < tail.len()
        invariant
            i <= tail@.len(),
            out@ == old(out)@ + tail@.subrange(0, i as int),
        decreases tail@.len() - i,
    {
        out.push(tail[i]);
        assert(tail@.subrange(0, i + 1) =~= tail@.subrange(0, i as int).push(tail@[i as int]));
        i = i + 1;
    }
    assert(tail@.subrange(0, tail@.len() as int) =~= tail@);
}

/// The label of checkpoint number `n`, such as `checkpoint_0007`.
pub fn checkpoint_label(n: usize) -> (name: Vec<u8>)
    ensures
        name@ == spec_checkpoint_label(n as nat),
{
    let mut digits: Vec<u8> = Vec::new();
    push_decimal(n, &mut digits);
    assert(digits@ =~= decimal(n as nat));
    let mut name: Vec<u8> = vec![99u8, 104, 101, 99, 107, 112, 111, 105, 110, 116, 95];
    assert(name@ =~= checkpoint_prefix());
    let ghost prefix = name@;
    let mut k: usize = digits.len();
    while k < 4
        invariant
            digits@.len() <= k <= 4 || (k == digits@.len() && k >= 4),
            name@ == prefix + Seq::new((k - digits@.len()) as nat, |i: int| 48u8),
        decreases 4 - k,
    {
        name.push(48u8);
        assert(Seq::new((k + 1 - digits@.len()) as nat, |i: int| 48u8) =~= Seq::new(
            (k - digits@.len()) as nat,
            |i: int| 48u8,
        ).push(48u8));
        k = k + 1;
    }
    push_bytes(&mut name, &digits);
    proof {
        if digits@.len() >= 4 {
            assert(Seq::new((k - digits@.len()) as nat, |i: int| 48u8) =~= Seq::<u8>::empty());
            assert(name@ =~= prefix + digits@);
        } else {
            assert(name@ =~= prefix + (Seq::new((4 - digits@.len()) as nat, |i: int| 48u8)
                + digits@));
        }
    }
    name
}

/// The file name of checkpoint number `n`, such as `checkpoint_0007.tmp`.
pub fn checkpoint_file_name(n: usize) -> (name: Vec<u8>)
    ensures
        name@ == spec_checkpoint_file_name(n as nat),
{
    let mut name = checkpoint_label(n);
    let suffix: Vec<u8> = vec![46u8, 116, 109, 112];
    assert(suffix@ =~= tmp_suffix());
    push_bytes(&mut name, &suffix);
    name
}

/// The number that the ASCII decimal digits `s` spell, most significant first.
pub open spec fn digits_value(s: Seq<u8>) -> int
    decreases s.len(),
{
    if s.len() == 0 {
        0
    } else {
        digits_value(s.drop_last()) * 10 + (s.last() - 48)
    }
}

proof fn lemma_decimal_value(n: nat)
    ensures
        digits_value(decimal(n)) == n,
    decreases n,
{
    if n >= 10 {
        lemma_decimal_value(n / 10);
        assert(decimal(n).drop_last() =~= decimal(n / 10));
        assert(decimal(n).last() == (48 + n % 10) as u8);
        assert((48 + n % 10) as u8 == 48 + n % 10);
        assert(n == (n / 10) * 10 + n % 10);
        assert(digits_value(decimal(n)) == digits_value(decimal(n).drop_last()) * 10 + (decimal(n).last() - 48));
    } else {
        assert(decimal(n).drop_last() =~= Seq::<u8>::empty());
        assert(decimal(n).last() == (48 + n) as u8);
        assert((48 + n) as u8 == 48 + n);
        assert(digits_value(Seq::<u8>::empty()) == 0);
        assert(digits_value(decimal(n)) == digits_value(decimal(n).drop_last()) * 10 + (decimal(n).last() - 48));
    }
}

proof fn lemma_zeros_value(k: nat)
    ensures
        digits_value(Seq::new(k, |i: int| 48u8)) == 0,
    decreases k,
{
    if k > 0 {
        lemma_zeros_value((k - 1) as nat);
        assert(Seq::new(k, |i: int| 48u8).drop_last() =~= Seq::new((k - 1) as nat, |i: int| 48u8));
    }
}

proof fn lemma_leading_zeros_value(k: nat, s: Seq<u8>)
    ensures
        digits_value(Seq::new(k, |i: int| 48u8) + s) == digits_value(s),
    decreases s.len(),
{
    let z = Seq::new(k, |i: int| 48u8);
    if s.len() == 0 {
        assert(z + s =~= z);
        lemma_zeros_value(k);
    } else {
        lemma_leading_zeros_value(k, s.drop_last());
        assert((z + s).drop_last() =~= z + s.drop_last());
        assert((z + s).last() == s.last());
    }
}

proof fn lemma_padded_value(n: nat)
    ensures
        digits_value(zero_pad(decimal(n), 4)) == n,
{
    lemma_decimal_value(n);
    let d = decimal(n);
    if d.len() < 4 {
        lemma_leading_zeros_value((4 - d.len()) as nat, d);
    }
}

/// Distinct checkpoint numbers get distinct labels, and so distinct file names: no
/// checkpoint file overwrites another.
pub proof fn lemma_checkpoint_names_distinct(n: nat, m: nat)
    requires
        n != m,
    ensures
        spec_checkpoint_label(n) != spec_checkpoint_label(m),
        spec_checkpoint_file_name(n) != spec_checkpoint_file_name(m),
{
    let p = checkpoint_prefix();
    let a = zero_pad(decimal(n), 4);
    let b = zero_pad(decimal(m), 4);
    lemma_padded_value(n);
    lemma_padded_value(m);
    if spec_checkpoint_label(n) == spec_checkpoint_label(m) {
        assert((p + a).subrange(p.len() as int, (p + a).len() as int) =~= a);
        assert((p + b).subrange(p.len() as int, (p + b).len() as int) =~= b);
        assert(a == b);
    }
    if spec_checkpoint_file_name(n) == spec_checkpoint_file_name(m) {
        let la = spec_checkpoint_label(n);
        let lb = spec_checkpoint_label(m);
        let t = tmp_suffix();
        assert((la + t).subrange(0, la.len() as int) =~= la);
        assert((lb + t).subrange(0, lb.len() as int) =~= lb);
        assert(la.len() == lb.len());
        assert(la == lb);
    }
}

} // verus!
