//! The cursor over the input: single bytes, fixed-size spans and counted repetition.
use vstd::prelude::*;

use crate::error::{DecodeError, ParseResult};

verus! {

/// The spec-level view of an executable read result, positions widened to `int`.
pub open spec fn at<T>(r: Result<(T, usize), DecodeError>) -> ParseResult<T> {
    match r {
        Ok((v, p)) => Ok((v, p as int)),
        Err(e) => Err(e),
    }
}

/// Like `at`, with the value replaced by its view.
pub open spec fn viewed<T: View>(r: Result<(T, usize), DecodeError>) -> ParseResult<T::V> {
    match r {
        Ok((v, p)) => Ok((v@, p as int)),
        Err(e) => Err(e),
    }
}

/// Like `at`, for a vector read: its elements as a sequence.
pub open spec fn seq_at<T>(r: Result<(Vec<T>, usize), DecodeError>) -> ParseResult<Seq<T>> {
    match r {
        Ok((v, p)) => Ok((v@, p as int)),
        Err(e) => Err(e),
    }
}

/// A successful read ends within the input.
pub open spec fn within<T>(r: Result<(T, usize), DecodeError>, d: Seq<u8>) -> bool {
    r is Ok ==> r->Ok_0.1 <= d.len()
}

/// The view of each element.
pub open spec fn views<T: View>(s: Seq<T>) -> Seq<T::V> {
    s.map_values(|x: T| x@)
}

/// Like `seq_at`, with each element replaced by its view.
pub open spec fn views_at<T: View>(r: Result<(Vec<T>, usize), DecodeError>) -> ParseResult<Seq<T::V>> {
    match r {
        Ok((v, p)) => Ok((views(v@), p as int)),
        Err(e) => Err(e),
    }
}

/// Pushing onto a sequence pushes the view onto its views.
pub proof fn lemma_views_push<T: View>(s: Seq<T>, x: T)
    ensures
        views(s.push(x)) == views(s).push(x@),
{
    assert(views(s.push(x)) =~= views(s).push(x@));
}

/// Whether `k` bytes are available at `pos`.
pub open spec fn fits(d: Seq<u8>, pos: int, k: int) -> bool {
    0 <= pos && pos + k <= d.len()
}

/// Reads the byte at `pos`.
pub open spec fn spec_byte(d: Seq<u8>, pos: int) -> ParseResult<u8> {
    if fits(d, pos, 1) {
        Ok((d[pos], pos + 1))
    } else {
        Err(DecodeError::UnexpectedEof)
    }
}

/// Runs `item` `n` times from `pos`, each run starting where the previous one ended.
/// `item(i, p)` decodes the element of index `i` at position `p`.
pub open spec fn repeat<T>(
    item: spec_fn(int, int) -> ParseResult<T>,
    n: nat,
    pos: int,
) -> ParseResult<Seq<T>>
    decreases n,
{
    if n == 0 {
        Ok((Seq::empty(), pos))
    } else {
        match repeat(item, (n - 1) as nat, pos) {
            Err(e) => Err(e),
            Ok((xs, p)) => match item(n - 1, p) {
                Err(e) => Err(e),
                Ok((x, q)) => Ok((xs.push(x), q)),
            },
        }
    }
}

/// Once a prefix of a repetition fails, every longer repetition fails the same way.
pub proof fn lemma_repeat_err<T>(
    item: spec_fn(int, int) -> ParseResult<T>,
    k: nat,
    n: nat,
    pos: int,
)
    requires
        k <= n,
        repeat(item, k, pos) is Err,
    ensures
        repeat(item, n, pos) == repeat(item, k, pos),
    decreases n,
{
    if n > k {
        lemma_repeat_err(item, k, (n - 1) as nat, pos);
    }
}

/// A repetition yields exactly `n` elements.
pub proof fn lemma_repeat_len<T>(item: spec_fn(int, int) -> ParseResult<T>, n: nat, pos: int)
    ensures
        repeat(item, n, pos) is Ok ==> repeat(item, n, pos)->Ok_0.0.len() == n,
    decreases n,
{
    if n > 0 {
        lemma_repeat_len(item, (n - 1) as nat, pos);
    }
}

/// Where every successful run of `item` yields a value satisfying `pred`, so does every
/// element of a successful repetition.
pub proof fn lemma_repeat_all<T>(
    item: spec_fn(int, int) -> ParseResult<T>,
    pred: spec_fn(T) -> bool,
    n: nat,
    pos: int,
)
    requires
        forall|i: int, p: int| #[trigger] item(i, p) is Ok ==> pred(item(i, p)->Ok_0.0),
    ensures
        repeat(item, n, pos) is Ok ==> forall|j: int|
            0 <= j < repeat(item, n, pos)->Ok_0.0.len() ==> pred(
                #[trigger] repeat(item, n, pos)->Ok_0.0[j],
            ),
    decreases n,
{
    if n > 0 {
        lemma_repeat_all(item, pred, (n - 1) as nat, pos);
        let prev = repeat(item, (n - 1) as nat, pos);
        if prev is Ok {
            let p = prev->Ok_0.1;
            let r = item(n - 1, p);
            if r is Ok {
                let xs = prev->Ok_0.0;
                assert forall|j: int| 0 <= j < xs.push(r->Ok_0.0).len() implies pred(
                    #[trigger] xs.push(r->Ok_0.0)[j],
                ) by {
                    if j < xs.len() {
                        assert(pred(xs[j]));
                    }
                }
            }
        }
    }
}

/// Where every successful run of `item` advances by between `lo` and `hi` bytes, a
/// successful repetition of `n` runs advances by between `n * lo` and `n * hi` bytes.
pub proof fn lemma_repeat_span<T>(
    item: spec_fn(int, int) -> ParseResult<T>,
    lo: int,
    hi: int,
    n: nat,
    pos: int,
)
    requires
        forall|i: int, p: int| #[trigger] item(i, p) is Ok ==> p + lo <= item(i, p)->Ok_0.1 <= p + hi,
    ensures
        repeat(item, n, pos) is Ok ==> pos + n * lo <= repeat(item, n, pos)->Ok_0.1 <= pos + n * hi,
    decreases n,
{
    if n > 0 {
        lemma_repeat_span(item, lo, hi, (n - 1) as nat, pos);
        assert(pos + (n - 1) * lo + lo == pos + n * lo) by (nonlinear_arith);
        assert(pos + (n - 1) * hi + hi == pos + n * hi) by (nonlinear_arith);
    }
}

/// Reads one byte.
pub fn read_u8(input: &[u8], pos: usize) -> (r: Result<(u8, usize), DecodeError>)
    requires
        pos <= input@.len(),
    ensures
        within(r, input@),
        at(r) == spec_byte(input@, pos as int),
{
    if pos < input.len() {
        Ok((input[pos], pos + 1))
    } else {
        Err(DecodeError::UnexpectedEof)
    }
}

/// Whether `k` bytes are available at `pos`.
pub fn available(input: &[u8], pos: usize, k: usize) -> (r: bool)
    requires
        pos <= input@.len(),
    ensures
        r == fits(input@, pos as int, k as int),
{
    pos <= input.len() && k <= input.len() - pos
}

} // verus!
