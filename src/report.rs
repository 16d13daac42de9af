use vstd::prelude::*;

verus! {

/// ASCII decimal digits of `n`, most significant first, without leading zeros.
pub open spec fn digits(n: nat) -> Seq<u8>
    decreases n,
{
    if n < 10 {
        seq![(48 + n) as u8]
    } else {
        digits(n / 10).push((48 + n % 10) as u8)
    }
}

/// `v` thousandths rounded to the nearest tenth; a value exactly halfway
/// goes to the even tenth.
pub open spec fn round_tenths(v: nat) -> nat {
    let q = v / 100;
    let rem = v % 100;
    if rem > 50 || (rem == 50 && q % 2 == 1) { q + 1 } else { q }
}

/// `v` thousandths written with one decimal: 800000 is "800.0", 1250 is
/// "1.2", 1350 is "1.4" and 1251 is "1.3".
pub open spec fn tenths_text(v: nat) -> Seq<u8> {
    let t = round_tenths(v);
    digits(t / 10).push(46u8).push((48 + t % 10) as u8)
}

/// The report line of a window size: "<width> x <height>".
pub open spec fn size_line(width: nat, height: nat) -> Seq<u8> {
    tenths_text(width) + seq![32u8, 120u8, 32u8] + tenths_text(height)
}

fn push_digits(out: &mut Vec<u8>, n: u64)
    ensures
        final(out)@ == old(out)@ + digits(n as nat),
    decreases n,
{
    if n >= 10 {
        push_digits(out, n / 10);
    }
    out.push((48 + n % 10) as u8);
    assert(out@ =~= old(out)@ + digits(n as nat));
}

fn push_tenths(out: &mut Vec<u8>, v: i64)
    requires
        v >= 0,
    ensures
        final(out)@ == old(out)@ + tenths_text(v as nat),
{
    let q: u64 = (v / 100) as u64;
    let rem: u64 = (v % 100) as u64;
    let t: u64 = if rem > 50 || (rem == 50 && q % 2 == 1) { q + 1 } else { q };
    assert(t == round_tenths(v as nat));
    push_digits(out, t / 10);
    out.push(46u8);
    out.push((48 + t % 10) as u8);
    assert(final(out)@ =~= old(out)@ + tenths_text(v as nat));
}

/// The line that reports a new window size of `width` by `height`
/// thousandths, as ASCII bytes.
pub fn resize_line(width: i64, height: i64) -> (r: Vec<u8>)
    requires
        width >= 0,
        height >= 0,
    ensures
        r@ == size_line(width as nat, height as nat),
{
    let mut r: Vec<u8> = Vec::new();
    push_tenths(&mut r, width);
    r.push(32u8);
    r.push(120u8);
    r.push(32u8);
    push_tenths(&mut r, height);
    assert(r@ =~= size_line(width as nat, height as nat));
    r
}

} // verus!
