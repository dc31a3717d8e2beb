//! Converting between interleaved and deinterleaved PCM layouts.

use vstd::prelude::*;

use crate::scalar::Scalar;

verus! {

/// Interleaves deinterleaved PCM data: with channels `1 2 3` holding
/// `111`, `222`, `333`, the result reads `123123123`.  Every channel must
/// hold at least as many samples as the first one; exactly the first
/// channel's worth of sample positions is read from each.
pub fn interleave(pcm: &Vec<Vec<Scalar>>) -> (r: Vec<Scalar>)
    requires
        forall|c: int|
            0 <= c < pcm@.len() ==> (#[trigger] pcm@[c])@.len() >= pcm@[0]@.len(),
    ensures
        pcm@.len() == 0 ==> r@.len() == 0,
        pcm@.len() > 0 ==> r@.len() == pcm@.len() * pcm@[0]@.len(),
        forall|f: int, c: int|
            0 <= c < pcm@.len() && 0 <= f < (if pcm@.len() == 0 {
                0int
            } else {
                pcm@[0]@.len() as int
            }) ==> #[trigger] r@[f * pcm@.len() + c] == pcm@[c]@[f],
{
    let mut output: Vec<Scalar> = Vec::new();
    let cc = pcm.len();
    if cc == 0 {
        return output;
    }
    let length = pcm[0].len();
    let mut index: usize = 0;
    while index < length
        invariant
            cc == pcm@.len(),
            cc >= 1,
            length == pcm@[0]@.len(),
            forall|c: int| 0 <= c < cc ==> (#[trigger] pcm@[c])@.len() >= length,
            index <= length,
            output@.len() == index * cc,
            forall|f: int, c: int|
                0 <= c < cc && 0 <= f < index ==> #[trigger] output@[f * (cc as int) + c]
                    == pcm@[c]@[f],
        decreases length - index,
    {
        let mut channel: usize = 0;
        while channel < cc
            invariant
                cc == pcm@.len(),
                cc >= 1,
                length == pcm@[0]@.len(),
                forall|c: int| 0 <= c < cc ==> (#[trigger] pcm@[c])@.len() >= length,
                index < length,
                channel <= cc,
                output@.len() == index * cc + channel,
                forall|f: int, c: int|
                    0 <= c < cc && 0 <= f < index ==> #[trigger] output@[f * (cc as int) + c]
                        == pcm@[c]@[f],
                forall|c: int|
                    0 <= c < channel ==> #[trigger] output@[(index as int) * (cc as int) + c]
                        == pcm@[c]@[index as int],
            decreases cc - channel,
        {
            proof {
                let fi = index as int;
                let ci = channel as int;
                let cci = cc as int;
                let li = length as int;
                assert(fi * cci + ci < (fi + 1) * cci) by (nonlinear_arith)
                    requires
                        0 <= fi,
                        0 <= ci < cci,
                ;
                assert((fi + 1) * cci <= li * cci) by (nonlinear_arith)
                    requires
                        fi + 1 <= li,
                        0 < cci,
                ;
            }
            let ghost out0 = output@;
            output.push(pcm[channel][index]);
            proof {
                let fi = index as int;
                let ci = channel as int;
                let cci = cc as int;
                assert(out0.len() == fi * cci + ci);
                assert forall|f: int, c2: int|
                    0 <= c2 < cci && 0 <= f < fi implies #[trigger] output@[f * cci + c2]
                    == pcm@[c2]@[f] by {
                    assert(0 <= f * cci + c2 < fi * cci) by (nonlinear_arith)
                        requires
                            0 <= f,
                            f < fi,
                            0 <= c2 < cci,
                    ;
                    assert(fi * cci <= out0.len());
                    assert(output@[f * cci + c2] == out0[f * cci + c2]);
                }
                assert forall|c2: int| 0 <= c2 <= ci implies #[trigger] output@[fi * cci + c2]
                    == pcm@[c2]@[fi] by {
                    if c2 < ci {
                        assert(output@[fi * cci + c2] == out0[fi * cci + c2]);
                    } else {
                        assert(fi * cci + c2 == out0.len());
                    }
                }
            }
            channel += 1;
        }
        index += 1;
        proof {
            let fi = index as int;
            let cci = cc as int;
            assert(output@.len() == fi * cci) by (nonlinear_arith)
                requires
                    output@.len() == (fi - 1) * cci + cci,
            ;
        }
    }
    proof {
        let cci = cc as int;
        let li = length as int;
        assert(output@.len() == li * cci);
        assert(li * cci == cci * li) by (nonlinear_arith);
    }
    output
}

/// Extends each channel of `pcm` with the matching channel of
/// `extend_with`; channels beyond the shorter of the two lists are left
/// alone, mirroring a zip of the two.
pub fn extend_deinterleaved(pcm: &mut Vec<Vec<Scalar>>, extend_with: &Vec<Vec<Scalar>>)
    ensures
        final(pcm)@.len() == old(pcm)@.len(),
        forall|c: int|
            0 <= c < old(pcm)@.len() && c < extend_with@.len() ==> #[trigger] final(pcm)@[c]@
                == old(pcm)@[c]@ + extend_with@[c]@,
        forall|c: int|
            extend_with@.len() <= c < old(pcm)@.len() ==> #[trigger] final(pcm)@[c]@ == old(
                pcm,
            )@[c]@,
{
    let n = if pcm.len() < extend_with.len() {
        pcm.len()
    } else {
        extend_with.len()
    };
    let mut c: usize = 0;
    while c < n
        invariant
            n <= old(pcm)@.len(),
            n <= extend_with@.len(),
            c <= n,
            pcm@.len() == old(pcm)@.len(),
            forall|k: int|
                0 <= k < c ==> #[trigger] pcm@[k]@ == old(pcm)@[k]@ + extend_with@[k]@,
            forall|k: int| c <= k < old(pcm)@.len() ==> #[trigger] pcm@[k]@ == old(pcm)@[k]@,
        decreases n - c,
    {
        let mut column: Vec<Scalar> = Vec::new();
        let existing = pcm[c].len();
        let mut t: usize = 0;
        while t < existing
            invariant
                c < pcm@.len(),
                existing == pcm@[c as int]@.len(),
                t <= existing,
                column@ =~= pcm@[c as int]@.subrange(0, t as int),
            decreases existing - t,
        {
            column.push(pcm[c][t]);
            t += 1;
        }
        proof {
            assert(column@ =~= pcm@[c as int]@);
        }
        let extra = extend_with[c].len();
        let mut e: usize = 0;
        while e < extra
            invariant
                c < pcm@.len(),
                c < extend_with@.len(),
                extra == extend_with@[c as int]@.len(),
                e <= extra,
                column@ =~= pcm@[c as int]@ + extend_with@[c as int]@.subrange(0, e as int),
            decreases extra - e,
        {
            proof {
                assert(column@.len() == column.len());
            }
            column.push(extend_with[c][e]);
            e += 1;
        }
        proof {
            assert(column@ =~= pcm@[c as int]@ + extend_with@[c as int]@);
        }
        pcm.set(c, column);
        c += 1;
    }
}

} // verus!
