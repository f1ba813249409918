use vstd::prelude::*;
use crate::error::PoseError;

verus! {

/// Whether a previous frame of `prev_len` samples cannot serve a current
/// frame of `curr_len` samples: it has samples, but too few.
pub open spec fn history_too_short(prev_len: nat, curr_len: nat) -> bool {
    prev_len != 0 && prev_len < curr_len
}

/// Whether a previous frame of `prev_len` samples is blended into a current
/// frame of `curr_len` samples: it has samples, and enough of them.
pub open spec fn history_is_blended(prev_len: nat, curr_len: nat) -> bool {
    prev_len != 0 && prev_len >= curr_len
}

/// Blends the current frame with the previous one, sample by sample.
///
/// The result has one sample for each sample of `curr`. With an empty `prev`
/// it is `curr` itself and `blend` is never called. Otherwise the sample at
/// each position is what `blend` gives for `alpha`, the current sample and
/// the previous sample at that position, in that order; samples of `prev`
/// beyond the end of `curr` are not read. A `prev` that has samples, but fewer
/// than `curr`, is refused.
pub fn smooth_landmarks<T: Copy, W: Copy, F: Fn(W, T, T) -> T>(
    prev: &[T],
    curr: &[T],
    alpha: W,
    blend: F,
) -> (smoothed: Result<Vec<T>, PoseError>)
    requires
        history_is_blended(prev@.len(), curr@.len()) ==> forall|i: int|
            0 <= i < curr@.len() ==> #[trigger] blend.requires((alpha, curr@[i], prev@[i])),
    ensures
        match smoothed {
            Ok(out) => {
                &&& !history_too_short(prev@.len(), curr@.len())
                &&& out@.len() == curr@.len()
                &&& prev@.len() == 0 ==> out@ == curr@
                &&& prev@.len() != 0 ==> forall|i: int|
                    0 <= i < curr@.len() ==> blend.ensures(
                        (alpha, curr@[i], prev@[i]),
                        #[trigger] out@[i],
                    )
            },
            Err(e) => e == PoseError::LengthMismatch && history_too_short(
                prev@.len(),
                curr@.len(),
            ),
        },
{
    let n: usize = curr.len();
    if prev.len() != 0 && prev.len() < n {
        return Err(PoseError::LengthMismatch);
    }
    let first_frame: bool = prev.len() == 0;
    let mut out: Vec<T> = Vec::with_capacity(n);
    let mut i: usize = 0;
    while i < n
        invariant
            n == curr@.len(),
            first_frame <==> prev@.len() == 0,
            !first_frame ==> prev@.len() >= n,
            i <= n,
            out@.len() == i,
            !first_frame ==> forall|k: int|
                0 <= k < curr@.len() ==> #[trigger] blend.requires((alpha, curr@[k], prev@[k])),
            first_frame ==> out@ == curr@.take(i as int),
            !first_frame ==> forall|k: int|
                0 <= k < i ==> blend.ensures((alpha, curr@[k], prev@[k]), #[trigger] out@[k]),
        decreases n - i,
    {
        let sample: T = if first_frame {
            curr[i]
        } else {
            blend(alpha, curr[i], prev[i])
        };
        out.push(sample);
        i += 1;
    }
    Ok(out)
}

} // verus!
