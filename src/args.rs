use vstd::prelude::*;

use crate::error::PagingError;

verus! {

/// Whether `b` is an ASCII decimal digit.
pub open spec fn is_digit(b: u8) -> bool {
    48 <= b <= 57
}

/// The number that a string of decimal digits writes.
pub open spec fn decimal_value(s: Seq<u8>) -> nat
    decreases s.len(),
{
    if s.len() == 0 {
        0
    } else {
        decimal_value(s.drop_last()) * 10 + (s.last() - 48) as nat
    }
}

/// A page count as written on the command line: one or more decimal digits.
pub open spec fn is_decimal(s: Seq<u8>) -> bool {
    s.len() > 0 && forall|i: int| 0 <= i < s.len() ==> is_digit(#[trigger] s[i])
}

/// A longer run of digits never writes a smaller number.
proof fn lemma_prefix_value_le(s: Seq<u8>, i: int)
    requires
        0 <= i <= s.len(),
        forall|k: int| 0 <= k < s.len() ==> is_digit(#[trigger] s[k]),
    ensures
        decimal_value(s.take(i)) <= decimal_value(s),
    decreases s.len() - i,
{
    if i < s.len() {
        let t = s.take(i + 1);
        assert(t.drop_last() =~= s.take(i));
        assert(t.last() == s[i]);
        assert(is_digit(s[i]));
        lemma_prefix_value_le(s, i + 1);
        if i + 1 == s.len() {
            assert(t =~= s);
        }
    } else {
        assert(s.take(i) =~= s);
    }
}

/// Reads the page count from its command-line text: a positive decimal
/// integer that fits in `usize`; anything else is an argument error.
pub fn parse_page_count(arg: &[u8]) -> (r: Result<usize, PagingError>)
    ensures
        r is Ok <==> (is_decimal(arg@) && 1 <= decimal_value(arg@) <= usize::MAX),
        r is Ok ==> r == Ok::<usize, PagingError>(decimal_value(arg@) as usize),
        r is Err ==> r == Err::<usize, PagingError>(PagingError::Argument),
{
    let n = arg.len();
    if n == 0 {
        return Err(PagingError::Argument);
    }
    let mut acc: usize = 0;
    let mut i: usize = 0;
    assert(arg@.take(0) =~= Seq::<u8>::empty());
    while i < n
        invariant
            n == arg@.len(),
            i <= n,
            acc == decimal_value(arg@.take(i as int)),
            forall|k: int| 0 <= k < i ==> is_digit(#[trigger] arg@[k]),
        decreases n - i,
    {
        let b = arg[i];
        if b < 48 || b > 57 {
            assert(!is_digit(arg@[i as int]));
            return Err(PagingError::Argument);
        }
        let ghost t = arg@.take(i as int + 1);
        assert(t.drop_last() =~= arg@.take(i as int));
        assert(t.last() == b);
        let next = match acc.checked_mul(10) {
            Some(m) => m.checked_add((b - 48) as usize),
            None => None,
        };
        match next {
            Some(v) => {
                acc = v;
            },
            None => {
                proof {
                    if is_decimal(arg@) {
                        lemma_prefix_value_le(arg@, i as int + 1);
                    }
                }
                return Err(PagingError::Argument);
            },
        }
        i += 1;
    }
    assert(arg@.take(n as int) =~= arg@);
    if acc == 0 {
        return Err(PagingError::Argument);
    }
    Ok(acc)
}

} // verus!
