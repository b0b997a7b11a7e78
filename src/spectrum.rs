use vstd::prelude::*;

verus! {

/// The full spectrum of a real signal of `n` samples, rebuilt from its lower half `half`
/// (bins `0..=n/2`): those bins as given, and each upper bin `n - i` the conjugate of bin
/// `i`, since the spectrum of a real signal is Hermitian.
pub fn mirror_half_spectrum<C: Copy, K: Fn(C) -> C>(half: &Vec<C>, n: usize, conj: &K) -> (r: Vec<
    C,
>)
    requires
        n > 0,
        half.len() == n / 2 + 1,
        forall|c: C| #[trigger] conj.requires((c,)),
    ensures
        r.len() == n,
        forall|i: int| 0 <= i <= n / 2 && i < n ==> #[trigger] r[i] == half[i],
        forall|i: int| n / 2 < i < n ==> conj.ensures((half[n - i],), #[trigger] r[i]),
{
    let mut out: Vec<C> = Vec::new();
    let mut i: usize = 0;
    while i < n
        invariant
            n > 0,
            half.len() == n / 2 + 1,
            forall|c: C| #[trigger] conj.requires((c,)),
            i <= n,
            out.len() == i,
            forall|j: int| 0 <= j <= n / 2 && j < i ==> #[trigger] out[j] == half[j],
            forall|j: int| n / 2 < j < i ==> conj.ensures((half[n - j],), #[trigger] out[j]),
        decreases n - i,
    {
        if i <= n / 2 {
            out.push(half[i]);
        } else {
            let c = conj(half[n - i]);
            out.push(c);
        }
        i = i + 1;
    }
    out
}

} // verus!
