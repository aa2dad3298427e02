//! Planning the paginated list requests that cover a collection.

use vstd::prelude::*;

use crate::errors::FetchError;

verus! {

/// One paginated list request: ask for at most `limit` items starting at
/// `offset`.  A well-formed window has a positive limit and a nonnegative
/// offset.
#[derive(Debug, Clone, Copy, PartialEq, Eq, Structural)]
pub struct ListWindow {
    pub limit: i32,
    pub offset: i32,
}

impl ListWindow {
    pub open spec fn wf(self) -> bool {
        self.limit > 0 && self.offset >= 0
    }
}

/// What `generate_windows` promises of a window sequence: the offsets form
/// an arithmetic sequence starting at `offset` with common difference
/// `limit`, every offset lies below `total`, and one more step would reach
/// `total` or beyond.  The server truncates the final window, so its nominal
/// size may overrun the remaining count.
pub open spec fn windows_spec(w: Seq<ListWindow>, total: int, limit: int, offset: int) -> bool {
    &&& forall|i: int|
        0 <= i < w.len() ==> (#[trigger] w[i]).limit == limit && w[i].offset == offset + i * limit
    &&& forall|i: int| 0 <= i < w.len() ==> (#[trigger] w[i]).offset < total
    &&& offset + w.len() * limit >= total
}

/// Compute the sequence of list windows that covers `total_count` items,
/// stepping by `limit` from `offset`.  Pagination parameters are validated
/// here: a nonpositive limit or a negative offset is rejected with
/// `InvalidArgument`, and for valid parameters the call always succeeds.
pub fn generate_windows(total_count: i32, limit: i32, offset: i32) -> (r: Result<
    Vec<ListWindow>,
    FetchError,
>)
    ensures
        r is Ok <==> limit > 0 && offset >= 0,
        r is Err ==> r == Err::<Vec<ListWindow>, FetchError>(FetchError::InvalidArgument),
        r matches Ok(w) ==> windows_spec(w@, total_count as int, limit as int, offset as int)
            && forall|i: int| 0 <= i < w@.len() ==> (#[trigger] w@[i]).wf(),
{
    if limit <= 0 || offset < 0 {
        return Err(FetchError::InvalidArgument);
    }
    let mut w: Vec<ListWindow> = Vec::new();
    let mut cur: i64 = offset as i64;
    proof {
        assert(w@.len() == 0);
        assert(w@.len() * limit == 0) by (nonlinear_arith)
            requires
                w@.len() == 0,
        ;
    }
    while cur < total_count as i64
        invariant
            limit > 0,
            offset >= 0,
            cur == offset as int + w@.len() * limit,
            cur >= offset as int,
            forall|i: int|
                0 <= i < w@.len() ==> (#[trigger] w@[i]).limit == limit && w@[i].offset == offset
                    as int + i * limit && w@[i].offset < total_count,
        decreases (if cur < total_count as int {
            total_count as int - cur
        } else {
            0int
        }),
    {
        w.push(
            ListWindow {
                limit,
                offset: cur as i32,
            },
        );
        proof {
            let n = w@.len() - 1;
            assert((n + 1) * limit == n * limit + limit) by (nonlinear_arith);
        }
        cur = cur + limit as i64;
    }
    Ok(w)
}

/// The windows of a valid plan are strictly increasing in offset, start at
/// the requested offset, and stop exactly when the next step would reach the
/// total: the last window's offset is below the total and the offset after
/// it would not be.  When the starting offset already equals the total, the
/// plan is empty.
pub proof fn lemma_windows_arithmetic(w: Seq<ListWindow>, total: int, limit: int, offset: int)
    requires
        windows_spec(w, total, limit, offset),
        limit > 0,
        0 <= offset <= total,
    ensures
        forall|i: int| 0 <= i < w.len() - 1 ==> (#[trigger] w[i]).offset < w[i + 1].offset,
        forall|i: int|
            0 <= i < w.len() - 1 ==> (#[trigger] w[i + 1]).offset - w[i].offset == limit,
        w.len() > 0 ==> w[0].offset == offset,
        w.len() > 0 ==> w[w.len() - 1].offset < total && w[w.len() - 1].offset + limit >= total,
        offset == total ==> w.len() == 0,
        offset < total ==> w.len() > 0,
{
    assert forall|i: int| 0 <= i < w.len() - 1 implies (#[trigger] w[i + 1]).offset - w[i].offset
        == limit by {
        assert((i + 1) * limit == i * limit + limit) by (nonlinear_arith);
    }
    if w.len() > 0 {
        let n = w.len() - 1;
        assert(w[n].offset == offset + n * limit);
        assert(offset + w.len() * limit >= total);
        assert((n + 1) * limit == n * limit + limit) by (nonlinear_arith);
    }
    if offset < total && w.len() == 0 {
        assert(offset + 0 * limit >= total);
    }
}

} // verus!
