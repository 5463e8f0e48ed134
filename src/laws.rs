//! Properties of runs of several pool operations, proved from the operations'
//! own postconditions.
use vstd::prelude::*;
use crate::error::{ErrorKind, SessionError};
use crate::pool::{acquire_step, handle_index, SocketHandle, WifiTcpClientStack};
use crate::socket::{closed_link, Link, Released};

verus! {

/// The in-use marks of `n` sockets of which the first `k` are in use.
spec fn first_in_use(n: nat, k: int) -> Seq<bool> {
    Seq::new(n, |i: int| i < k)
}

proof fn lemma_acquire_run(used: Seq<Seq<bool>>, results: Seq<Result<usize, ErrorKind>>, k: int)
    requires
        used.len() == results.len() + 1,
        forall|i: int| 0 <= i < used[0].len() ==> !#[trigger] used[0][i],
        forall|j: int| 0 <= j < results.len() ==> acquire_step(used[j], used[j + 1], #[trigger] results[j]),
        0 <= k < used.len(),
    ensures
        used[k] == first_in_use(used[0].len(), k),
    decreases k,
{
    let n = used[0].len();
    if k == 0 {
        assert(used[0] =~= first_in_use(n, 0));
    } else {
        lemma_acquire_run(used, results, k - 1);
        let before = used[k - 1];
        assert(acquire_step(before, used[k], results[k - 1]));
        match results[k - 1] {
            Ok(i) => {
                if (i as int) < k - 1 {
                    assert(before[i as int]);
                }
                if (i as int) > k - 1 {
                    assert(before[k - 1]);
                }
                assert(used[k] =~= first_in_use(n, k));
            },
            Err(_) => {
                if k - 1 < n {
                    assert(before[k - 1]);
                }
                assert(used[k] =~= first_in_use(n, k));
            },
        }
    }
}

/// Acquiring again and again from a pool of `N` sockets none of which is in
/// use: the first `N` acquires succeed, with distinct handles (the `j`-th gets
/// socket `j`), and every acquire after them fails with `Exhausted`.
pub proof fn law_first_n_acquires<R, S, C>(
    pools: Seq<WifiTcpClientStack<R, S, C>>,
    results: Seq<Result<SocketHandle, ErrorKind>>,
)
    requires
        pools.len() == results.len() + 1,
        forall|i: int| 0 <= i < pools[0].capacity() ==> !#[trigger] pools[0].used()[i],
        forall|j: int| 0 <= j < results.len() ==> pools[j + 1].after_acquire(&pools[j], #[trigger] results[j]),
    ensures
        forall|j: int| 0 <= j < results.len() && j < pools[0].capacity() ==> (#[trigger] results[j] matches Ok(h) && h@ == j),
        forall|j1: int, j2: int|
            0 <= j1 < j2 < results.len() && j2 < pools[0].capacity() ==> #[trigger] results[j1] != #[trigger] results[j2],
        forall|j: int|
            0 <= j < results.len() && j >= pools[0].capacity() ==> #[trigger] results[j] == Err::<SocketHandle, ErrorKind>(
                ErrorKind::Exhausted,
            ),
{
    let n = pools[0].capacity();
    let used = Seq::new(pools.len(), |k: int| pools[k].used());
    let idx = Seq::new(results.len(), |j: int| handle_index(results[j]));
    assert forall|j: int| 0 <= j < idx.len() implies acquire_step(used[j], used[j + 1], #[trigger] idx[j]) by {
        assert(pools[j + 1].after_acquire(&pools[j], results[j]));
    }
    assert forall|j: int| 0 <= j < results.len() implies (j < n ==> (#[trigger] results[j] matches Ok(h) && h@ == j)) && (j
        >= n ==> results[j] == Err::<SocketHandle, ErrorKind>(ErrorKind::Exhausted)) by {
        lemma_acquire_run(used, idx, j);
        assert(acquire_step(used[j], used[j + 1], idx[j]));
        match results[j] {
            Ok(h) => {
                if j < n && (h@ as int) < j {
                    assert(used[j][h@ as int]);
                }
                if (h@ as int) > j {
                    assert(used[j][j]);
                }
            },
            Err(_) => {
                if j < n {
                    assert(used[j][j]);
                }
            },
        }
    }
    assert forall|j1: int, j2: int|
        0 <= j1 < j2 < results.len() && j2 < n implies #[trigger] results[j1] != #[trigger] results[j2] by {
        assert(results[j1] matches Ok(h) && h@ == j1);
        assert(results[j2] matches Ok(h) && h@ == j2);
    }
}

/// Releasing a handle of a pool in which every earlier socket is in use, and
/// acquiring again, gives back that very handle, on a fresh idle socket that
/// owns a transport socket (its own, or the one handed back at the release),
/// whatever had happened on it before.
pub proof fn law_release_then_acquire<R, S, C>(
    first_pool: WifiTcpClientStack<R, S, C>,
    second_pool: WifiTcpClientStack<R, S, C>,
    third_pool: WifiTcpClientStack<R, S, C>,
    h: SocketHandle,
    transport: Option<R>,
    released: Released<R, S>,
    r: Result<SocketHandle, ErrorKind>,
)
    requires
        forall|j: int| 0 <= j < h@ ==> #[trigger] first_pool.used()[j],
        second_pool.after_close(&first_pool, h, transport, released),
        third_pool.after_acquire(&second_pool, r),
    ensures
        r matches Ok(h2) && h2@ == h@,
        third_pool.valid(h),
        third_pool.slots()[h@ as int] == second_pool.slots()[h@ as int],
        third_pool.slots()[h@ as int].link() is Idle,
        third_pool.slots()[h@ as int].link() == closed_link(first_pool.slots()[h@ as int].link(), transport),
        !third_pool.may_transfer(h),
{
    second_pool.lemma_wf();
    third_pool.lemma_wf();
    assert(!second_pool.used()[h@ as int]);
    match r {
        Ok(h2) => {
            if h2@ < h@ {
                assert(second_pool.used()[h2@ as int] == first_pool.used()[h2@ as int]);
            }
            if h2@ > h@ {
                assert(second_pool.used()[h@ as int]);
            }
        },
        Err(_) => {
            assert(second_pool.used()[h@ as int]);
        },
    }
}

/// A socket that was just acquired has no secured session, so sends and
/// receives on it fail with `NotConnected` until a connect succeeds.
pub proof fn law_no_transfer_before_connect<R, S, C>(
    first_pool: WifiTcpClientStack<R, S, C>,
    second_pool: WifiTcpClientStack<R, S, C>,
    h: SocketHandle,
)
    requires
        second_pool.after_acquire(&first_pool, Ok(h)),
    ensures
        second_pool.valid(h),
        !second_pool.may_transfer(h),
{
}

/// Once the handshake of a connect succeeds, sends and receives on the handle
/// go through the session that the handshake produced; once it fails, they
/// are refused.
pub proof fn law_transfer_after_handshake<R, S, C>(
    first_pool: WifiTcpClientStack<R, S, C>,
    second_pool: WifiTcpClientStack<R, S, C>,
    h: SocketHandle,
    result: Result<S, SessionError>,
    r: Result<(), ErrorKind>,
)
    requires
        first_pool.valid(h),
        second_pool.after_handshake(&first_pool, h, result, r),
    ensures
        second_pool.valid(h),
        second_pool.may_transfer(h) <==> result is Ok,
        result matches Ok(s) ==> r is Ok && second_pool.slots()[h@ as int].link() == Link::<R, S>::Secured(s),
        result is Err ==> r is Err && r != Err::<(), ErrorKind>(ErrorKind::WouldBlock),
{
}

/// Closing a handle a second time is harmless: it needs no transport socket,
/// releases no session, hands back any transport offered, and leaves the pool
/// as the first close did, with the socket free and idle.
pub proof fn law_close_twice<R, S, C>(
    first_pool: WifiTcpClientStack<R, S, C>,
    second_pool: WifiTcpClientStack<R, S, C>,
    third_pool: WifiTcpClientStack<R, S, C>,
    h: SocketHandle,
    first_transport: Option<R>,
    first: Released<R, S>,
    second_transport: Option<R>,
    second: Released<R, S>,
)
    requires
        second_pool.after_close(&first_pool, h, first_transport, first),
        third_pool.after_close(&second_pool, h, second_transport, second),
    ensures
        !crate::socket::close_needs_transport(second_pool.slots()[h@ as int].link()),
        second.session is None,
        second.transport == second_transport,
        third_pool.slots()[h@ as int].link() is Idle,
        !third_pool.used()[h@ as int],
        third_pool.used() == second_pool.used(),
        third_pool.slots()[h@ as int].link() == second_pool.slots()[h@ as int].link(),
        third_pool.slots()[h@ as int].same_identity(&second_pool.slots()[h@ as int]),
        forall|j: int| 0 <= j < second_pool.capacity() && j != h@ ==> #[trigger] third_pool.slots()[j] == second_pool.slots()[j],
{
    second_pool.lemma_wf();
    third_pool.lemma_wf();
    assert(third_pool.used() =~= second_pool.used());
}

} // verus!
