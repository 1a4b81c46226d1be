use vstd::prelude::*;
use vstd::string::*;

verus! {

/// Integer division rounded toward zero, as Rust's `/` does on signed integers.
pub open spec fn div_toward_zero(a: int, b: int) -> int {
    let q = vstd::math::abs(a) / vstd::math::abs(b);
    if (a >= 0) == (b > 0) || a == 0 {
        q as int
    } else {
        -q
    }
}

/// The share of `part` in `total` in whole percent, rounded toward zero.
pub open spec fn percentage(part: int, total: int) -> int {
    div_toward_zero(part * 100, total)
}

/// Euclidean division of a non-negative integer by a negative one is the
/// opposite of its division by the divisor's absolute value.
proof fn lemma_div_negative_divisor(x: int, b: int)
    requires
        x >= 0,
        b < 0,
    ensures
        x / b == -(x / (-b)),
{
    let q = x / b;
    let r = x % b;
    let q1 = x / (-b);
    let r1 = x % (-b);
    vstd::arithmetic::div_mod::lemma_fundamental_div_mod(x, b);
    vstd::arithmetic::div_mod::lemma_fundamental_div_mod(x, -b);
    assert(q + q1 == 0) by (nonlinear_arith)
        requires
            x == b * q + r,
            x == (-b) * q1 + r1,
            0 <= r < -b,
            0 <= r1 < -b,
    ;
}

/// The message of the error returned for a zero total.
pub open spec fn zero_total_text() -> Seq<char> {
    "Cannot calculate percentage: total is zero"@
}

/// The sum of two integers.
pub fn add(a: i32, b: i32) -> (r: i32)
    requires
        i32::MIN <= a + b <= i32::MAX,
    ensures
        r == a + b,
{
    a + b
}

/// Twice an integer.
pub fn double(x: i32) -> (r: i32)
    requires
        i32::MIN <= 2 * x <= i32::MAX,
    ensures
        r == 2 * x,
{
    x * 2
}

/// `part` as a whole percentage of `total`, rounded toward zero; a zero total
/// is an error.
pub fn calculate_percentage(part: i32, total: i32) -> (r: Result<i32, String>)
    requires
        i32::MIN <= part * 100 <= i32::MAX,
    ensures
        total == 0 <==> r is Err,
        r is Err ==> r->Err_0@ == zero_total_text(),
        r is Ok ==> r->Ok_0 == percentage(part as int, total as int),
{
    if total == 0 {
        Err(String::from_str("Cannot calculate percentage: total is zero"))
    } else {
        let scaled: i32 = part * 100;
        proof {
            if total < 0 {
                if scaled >= 0 {
                    lemma_div_negative_divisor(scaled as int, total as int);
                } else {
                    lemma_div_negative_divisor(-scaled, total as int);
                }
            }
        }
        Ok(scaled / total)
    }
}

} // verus!
