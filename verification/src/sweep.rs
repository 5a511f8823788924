use vstd::prelude::*;
use vstd::arithmetic::power2::{
    pow2, lemma_pow2_strictly_increases, lemma_pow2_unfold, lemma_pow2_pos, lemma2_to64,
};

verus! {

/// Why a requested message-size sweep was rejected.
#[derive(Debug, Clone, Copy, PartialEq, Eq, Structural)]
pub enum SweepError {
    /// An explicit size list named no sizes at all.
    EmptyExplicitList,
    /// An explicit size list named a size of zero bytes.
    ZeroExplicitSize,
    /// The requested maximum size was zero, which admits no size at all.
    ZeroMaxSize,
}

/// The largest size of the default sweep, which runs over the powers
/// of two from 1 up to and including 2^20 bytes.
pub const DEFAULT_MAX_MSG_SIZE: usize = 1048576;

/// A well-formed sweep: at least one size, every size positive.
pub open spec fn valid_sweep(s: Seq<usize>) -> bool {
    s.len() > 0 && forall|i: int| 0 <= i < s.len() ==> s[i] > 0
}

/// `s` is exactly the first `n` powers of two, in increasing order.
pub open spec fn is_power_sweep(s: Seq<usize>, n: int) -> bool {
    s.len() == n && forall|i: int| 0 <= i < n ==> s[i] == pow2(i as nat)
}

/// A power sweep is strictly increasing.
pub proof fn lemma_power_sweep_strictly_increasing(s: Seq<usize>, n: int)
    requires
        is_power_sweep(s, n),
    ensures
        forall|i: int, j: int| 0 <= i < j < n ==> s[i] < s[j],
{
    assert forall|i: int, j: int| 0 <= i < j < n implies s[i] < s[j] by {
        lemma_pow2_strictly_increases(i as nat, j as nat);
    }
}

/// A power sweep is a valid sweep.
pub proof fn lemma_power_sweep_valid(s: Seq<usize>, n: int)
    requires
        is_power_sweep(s, n),
        n > 0,
    ensures
        valid_sweep(s),
{
    assert forall|i: int| 0 <= i < s.len() implies s[i] > 0 by {
        lemma_pow2_pos(i as nat);
    }
}

/// Every power of two up to and including the largest one that is `<= max`,
/// starting from 1.
fn powers_up_to(max: usize) -> (v: Vec<usize>)
    requires
        max >= 1,
    ensures
        is_power_sweep(v@, v@.len() as int),
        v@.len() >= 1,
        pow2((v@.len() - 1) as nat) <= max,
        max < pow2(v@.len() as nat),
{
    let mut v: Vec<usize> = Vec::new();
    let mut x: usize = 1;
    proof {
        lemma2_to64();
    }
    loop
        invariant_except_break
            1 <= max,
            1 <= x,
            x == pow2(v@.len() as nat),
            x <= max,
            is_power_sweep(v@, v@.len() as int),
        ensures
            is_power_sweep(v@, v@.len() as int),
            v@.len() >= 1,
            pow2((v@.len() - 1) as nat) <= max,
            max < pow2(v@.len() as nat),
        decreases max - x,
    {
        v.push(x);
        proof {
            lemma_pow2_unfold(v@.len() as nat);
        }
        if x > max / 2 {
            // Doubling once more would exceed max: 2 * x > max.
            break;
        }
        x = x * 2;
    }
    v
}

/// The smallest element of a non-empty sequence of sizes.
pub open spec fn seq_min(s: Seq<usize>) -> usize
    decreases s.len(),
{
    if s.len() == 0 {
        0
    } else if s.len() == 1 {
        s[0]
    } else {
        let m = seq_min(s.drop_last());
        if s.last() <= m {
            s.last()
        } else {
            m
        }
    }
}

/// The largest element of a non-empty sequence of sizes.
pub open spec fn seq_max(s: Seq<usize>) -> usize
    decreases s.len(),
{
    if s.len() == 0 {
        0
    } else if s.len() == 1 {
        s[0]
    } else {
        let m = seq_max(s.drop_last());
        if s.last() >= m {
            s.last()
        } else {
            m
        }
    }
}

/// The smallest element is one of the elements, and no element lies
/// below it.
pub proof fn lemma_seq_min_properties(s: Seq<usize>)
    requires
        s.len() > 0,
    ensures
        s.contains(seq_min(s)),
        forall|i: int| 0 <= i < s.len() ==> seq_min(s) <= s[i],
    decreases s.len(),
{
    if s.len() == 1 {
        assert(s[0] == seq_min(s));
    } else {
        lemma_seq_min_properties(s.drop_last());
        let m = seq_min(s.drop_last());
        if s.last() <= m {
            assert(s[s.len() - 1] == seq_min(s));
        } else {
            let i = choose|i: int| 0 <= i < s.drop_last().len() && s.drop_last()[i] == m;
            assert(s[i] == seq_min(s));
        }
        assert forall|i: int| 0 <= i < s.len() implies seq_min(s) <= s[i] by {
            if i < s.len() - 1 {
                assert(s.drop_last()[i] == s[i]);
            }
        }
    }
}

/// The largest element is one of the elements, and no element lies
/// above it.
pub proof fn lemma_seq_max_properties(s: Seq<usize>)
    requires
        s.len() > 0,
    ensures
        s.contains(seq_max(s)),
        forall|i: int| 0 <= i < s.len() ==> s[i] <= seq_max(s),
    decreases s.len(),
{
    if s.len() == 1 {
        assert(s[0] == seq_max(s));
    } else {
        lemma_seq_max_properties(s.drop_last());
        let m = seq_max(s.drop_last());
        if s.last() >= m {
            assert(s[s.len() - 1] == seq_max(s));
        } else {
            let i = choose|i: int| 0 <= i < s.drop_last().len() && s.drop_last()[i] == m;
            assert(s[i] == seq_max(s));
        }
        assert forall|i: int| 0 <= i < s.len() implies s[i] <= seq_max(s) by {
            if i < s.len() - 1 {
                assert(s.drop_last()[i] == s[i]);
            }
        }
    }
}

/// The smallest swept size.
#[verifier::loop_isolation(false)]
pub fn sweep_min(sizes: &Vec<usize>) -> (m: usize)
    requires
        sizes@.len() > 0,
    ensures
        m == seq_min(sizes@),
{
    let mut m: usize = sizes[0];
    let mut i: usize = 1;
    proof {
        assert(sizes@.subrange(0, 1).len() == 1);
    }
    while i < sizes.len()
        invariant
            1 <= i <= sizes@.len(),
            m == seq_min(sizes@.subrange(0, i as int)),
        decreases sizes@.len() - i,
    {
        let x = sizes[i];
        proof {
            assert(sizes@.subrange(0, i + 1).drop_last() =~= sizes@.subrange(0, i as int));
            assert(sizes@.subrange(0, i + 1).last() == sizes@[i as int]);
        }
        if x < m {
            m = x;
        }
        i = i + 1;
    }
    proof {
        assert(sizes@.subrange(0, sizes@.len() as int) =~= sizes@);
    }
    m
}

/// The largest swept size.
#[verifier::loop_isolation(false)]
pub fn sweep_max(sizes: &Vec<usize>) -> (m: usize)
    requires
        sizes@.len() > 0,
    ensures
        m == seq_max(sizes@),
{
    let mut m: usize = sizes[0];
    let mut i: usize = 1;
    proof {
        assert(sizes@.subrange(0, 1).len() == 1);
    }
    while i < sizes.len()
        invariant
            1 <= i <= sizes@.len(),
            m == seq_max(sizes@.subrange(0, i as int)),
        decreases sizes@.len() - i,
    {
        let x = sizes[i];
        proof {
            assert(sizes@.subrange(0, i + 1).drop_last() =~= sizes@.subrange(0, i as int));
            assert(sizes@.subrange(0, i + 1).last() == sizes@[i as int]);
        }
        if x > m {
            m = x;
        }
        i = i + 1;
    }
    proof {
        assert(sizes@.subrange(0, sizes@.len() as int) =~= sizes@);
    }
    m
}

/// Resolve the message-size sweep from the command-line choices.
///
/// An explicit list wins and is kept verbatim; otherwise an explicit
/// maximum yields every power of two up to it, starting at 1; with
/// neither given, the default sweep of the 21 powers of two from 1 to
/// 2^20 is produced. Degenerate requests (an empty list, a zero size,
/// a zero maximum) are rejected rather than yielding an empty sweep.
#[verifier::loop_isolation(false)]
pub fn resolve_msg_sizes(explicit: Option<Vec<usize>>, max: Option<usize>) -> (r: Result<
    Vec<usize>,
    SweepError,
>)
    ensures
        explicit matches Some(l) ==> (if l@.len() == 0 {
            r == Err::<Vec<usize>, SweepError>(SweepError::EmptyExplicitList)
        } else if !valid_sweep(l@) {
            r == Err::<Vec<usize>, SweepError>(SweepError::ZeroExplicitSize)
        } else {
            r matches Ok(v) && v@ == l@
        }),
        explicit is None && max == Some(0usize) ==> r == Err::<Vec<usize>, SweepError>(
            SweepError::ZeroMaxSize,
        ),
        explicit is None ==> (max matches Some(m) ==> (m > 0 ==> (r matches Ok(v)
            && is_power_sweep(v@, v@.len() as int) && v@.len() >= 1 && pow2(
            (v@.len() - 1) as nat,
        ) <= m && m < pow2(v@.len() as nat)))),
        explicit is None && max is None ==> (r matches Ok(v) && is_power_sweep(v@, 21)),
        r matches Ok(v) ==> valid_sweep(v@),
{
    match explicit {
        Some(list) => {
            if list.len() == 0 {
                return Err(SweepError::EmptyExplicitList);
            }
            let mut i: usize = 0;
            while i < list.len()
                invariant
                    i <= list.len(),
                    forall|j: int| 0 <= j < i ==> list@[j] > 0,
                decreases list.len() - i,
            {
                if list[i] == 0 {
                    proof {
                        assert(!valid_sweep(list@));
                    }
                    return Err(SweepError::ZeroExplicitSize);
                }
                i = i + 1;
            }
            Ok(list)
        },
        None => match max {
            Some(m) => {
                if m == 0 {
                    Err(SweepError::ZeroMaxSize)
                } else {
                    let v = powers_up_to(m);
                    proof {
                        lemma_power_sweep_valid(v@, v@.len() as int);
                    }
                    Ok(v)
                }
            },
            None => {
                let v = powers_up_to(DEFAULT_MAX_MSG_SIZE);
                proof {
                    lemma2_to64();
                    if v@.len() < 21 {
                        if v@.len() < 20 {
                            lemma_pow2_strictly_increases(v@.len() as nat, 20);
                        }
                    }
                    if v@.len() > 21 {
                        lemma_pow2_strictly_increases(20, (v@.len() - 1) as nat);
                    }
                    assert(v@.len() == 21);
                    lemma_power_sweep_valid(v@, 21);
                }
                Ok(v)
            },
        },
    }
}

} // verus!
