//! Request rate limiter: at most a fixed number of requests per client within
//! a window that opens with the client's first request.
//!
//! The limiter is a value that its owner constructs and hands on. Time is
//! given by the caller, in nanoseconds since an instant of the caller's
//! choosing.

use vstd::prelude::*;
use crate::errors::{ApiError, RATE_LIMIT_EXCEEDED};

verus! {

pub const RATE_LIMIT_MAX_REQUESTS: u32 = 100;

pub const RATE_LIMIT_WINDOW_SECS: u64 = 60;

pub const RATE_LIMIT_WINDOW_NANOS: u64 = 60_000_000_000;

pub const RATE_LIMIT_MESSAGE: &'static str = "Rate limit exceeded: 100 requests per 60 seconds";

/// Name under which requests without a client address are counted.
pub const UNKNOWN_CLIENT: &'static str = "unknown";

/// The requests of one client in its current window.
#[derive(Debug)]
pub struct ClientWindow {
    pub client: String,
    pub count: u32,
    /// When the window opened.
    pub started: u64,
}

/// Whether a window that opened at `started` is still open at `now`. A window
/// that opened after `now` counts as just opened.
pub open spec fn is_open(started: u64, now: u64) -> bool {
    now <= started || now - started < RATE_LIMIT_WINDOW_NANOS
}

/// The windows that are still open at `now`, in their order.
pub open spec fn open_windows(windows: Seq<ClientWindow>, now: u64) -> Seq<ClientWindow>
    decreases windows.len(),
{
    if windows.len() == 0 {
        Seq::empty()
    } else {
        let front = open_windows(windows.drop_last(), now);
        if is_open(windows.last().started, now) {
            front.push(windows.last())
        } else {
            front
        }
    }
}

/// Whether window `i` is `client`'s.
pub open spec fn window_at(windows: Seq<ClientWindow>, client: Seq<char>, i: int) -> bool {
    0 <= i < windows.len() && windows[i].client@ == client
}

/// Whether `client` has a window.
pub open spec fn has_window(windows: Seq<ClientWindow>, client: Seq<char>) -> bool {
    exists|i: int| window_at(windows, client, i)
}

/// No client has two windows.
pub open spec fn distinct_clients(windows: Seq<ClientWindow>) -> bool {
    forall|i: int, j: int|
        0 <= i < windows.len() && 0 <= j < windows.len() && i != j ==> windows[i].client@
            != windows[j].client@
}

/// A count with one more request, as far as the counter goes.
pub open spec fn bumped(count: u32) -> u32 {
    if count < u32::MAX {
        (count + 1) as u32
    } else {
        count
    }
}

/// The requests that `client` has made in its window that is open at `now`,
/// the one that is being made not counted.
pub open spec fn requests_so_far(windows: Seq<ClientWindow>, client: Seq<char>, now: u64) -> u32 {
    let open = open_windows(windows, now);
    if has_window(open, client) {
        open[choose|i: int| window_at(open, client, i)].count
    } else {
        0
    }
}

/// Whether a request of `client` at `now` is let through: the client's
/// requests in its open window, this one included, are no more than the limit.
pub open spec fn admits(windows: Seq<ClientWindow>, client: Seq<char>, now: u64) -> bool {
    bumped(requests_so_far(windows, client, now)) <= RATE_LIMIT_MAX_REQUESTS
}

/// Whether `after` is what the windows `before` become by a request of
/// `client` at `now`: windows that have closed are dropped, the client's open
/// window counts one request more, and a client without an open window gets
/// one that opens at `now`.
pub open spec fn counted(
    before: Seq<ClientWindow>,
    client: Seq<char>,
    now: u64,
    after: Seq<ClientWindow>,
) -> bool {
    let open = open_windows(before, now);
    if has_window(open, client) {
        let i = choose|i: int| window_at(open, client, i);
        &&& after.len() == open.len()
        &&& after[i].client@ == client
        &&& after[i].count == bumped(open[i].count)
        &&& after[i].started == open[i].started
        &&& forall|j: int| 0 <= j < after.len() && j != i ==> after[j] == open[j]
    } else {
        &&& after.len() == open.len() + 1
        &&& after.last().client@ == client
        &&& after.last().count == 1
        &&& after.last().started == now
        &&& forall|j: int| 0 <= j < open.len() ==> after[j] == open[j]
    }
}

/// The request counts of the clients that have asked of late.
pub struct RateLimiter {
    windows: Vec<ClientWindow>,
}

impl View for RateLimiter {
    type V = Seq<ClientWindow>;

    closed spec fn view(&self) -> Seq<ClientWindow> {
        self.windows@
    }
}

/// The place among `windows` of the `k`-th window that is open at `now`.
spec fn origin(windows: Seq<ClientWindow>, now: u64, k: int) -> int
    decreases windows.len(),
{
    if windows.len() == 0 {
        0
    } else if k < open_windows(windows.drop_last(), now).len() {
        origin(windows.drop_last(), now, k)
    } else {
        windows.len() - 1
    }
}

/// The open windows are windows, in their order.
proof fn lemma_origin(windows: Seq<ClientWindow>, now: u64)
    ensures
        forall|k: int|
            0 <= k < open_windows(windows, now).len() ==> {
                &&& 0 <= #[trigger] origin(windows, now, k) < windows.len()
                &&& windows[origin(windows, now, k)] == open_windows(windows, now)[k]
            },
        forall|k: int, j: int|
            0 <= k < j < open_windows(windows, now).len() ==> #[trigger] origin(windows, now, k)
                < #[trigger] origin(windows, now, j),
    decreases windows.len(),
{
    if windows.len() > 0 {
        let front = windows.drop_last();
        lemma_origin(front, now);
        let open_front = open_windows(front, now);
        let open = open_windows(windows, now);
        assert forall|k: int| 0 <= k < open.len() implies {
            &&& 0 <= #[trigger] origin(windows, now, k) < windows.len()
            &&& windows[origin(windows, now, k)] == open[k]
        } by {
            if k < open_front.len() {
                assert(front[origin(front, now, k)] == windows[origin(front, now, k)]);
            }
        }
        assert forall|k: int, j: int| 0 <= k < j < open.len() implies #[trigger] origin(
            windows,
            now,
            k,
        ) < #[trigger] origin(windows, now, j) by {
            assert(open.len() <= open_front.len() + 1);
            if j < open_front.len() {
                assert(origin(front, now, k) < origin(front, now, j));
                assert(origin(windows, now, k) == origin(front, now, k));
                assert(origin(windows, now, j) == origin(front, now, j));
            } else {
                assert(k < open_front.len());
                assert(0 <= origin(front, now, k) < front.len());
                assert(origin(windows, now, k) == origin(front, now, k));
                assert(origin(windows, now, j) == windows.len() - 1);
            }
        }
    }
}

/// Dropping the closed windows leaves no client with two.
proof fn lemma_open_windows_distinct(windows: Seq<ClientWindow>, now: u64)
    requires
        distinct_clients(windows),
    ensures
        distinct_clients(open_windows(windows, now)),
{
    lemma_origin(windows, now);
    let open = open_windows(windows, now);
    assert forall|i: int, j: int| 0 <= i < open.len() && 0 <= j < open.len() && i != j implies open[i].client@
        != open[j].client@ by {
        let a = origin(windows, now, i);
        let b = origin(windows, now, j);
        if i < j {
            assert(a < b);
        } else {
            assert(b < a);
        }
        assert(windows[a] == open[i]);
        assert(windows[b] == open[j]);
    }
}

proof fn lemma_window_position(windows: Seq<ClientWindow>, client: Seq<char>, i: int)
    requires
        distinct_clients(windows),
        window_at(windows, client, i),
    ensures
        has_window(windows, client),
        (choose|j: int| window_at(windows, client, j)) == i,
{
    let j = choose|j: int| window_at(windows, client, j);
    assert(window_at(windows, client, j));
}

impl RateLimiter {
    #[verifier::type_invariant]
    spec fn inv(self) -> bool {
        distinct_clients(self.windows@)
    }

    /// A limiter that has seen no request.
    pub fn new() -> (l: RateLimiter)
        ensures
            l@ == Seq::<ClientWindow>::empty(),
    {
        RateLimiter { windows: Vec::new() }
    }

    /// Number of clients with a window.
    pub fn len(&self) -> (n: usize)
        ensures
            n == self@.len(),
            distinct_clients(self@),
    {
        proof {
            use_type_invariant(self);
        }
        self.windows.len()
    }

    /// Counts a request of `client` at `now` and says whether it is let
    /// through. A request over the limit is counted too, and refused.
    pub fn check(&mut self, client: &str, now: u64) -> (r: Result<(), ApiError>)
        ensures
            counted(old(self)@, client@, now, final(self)@),
            match r {
                Ok(_) => admits(old(self)@, client@, now),
                Err(e) => !admits(old(self)@, client@, now) && e.says(
                    RATE_LIMIT_EXCEEDED@,
                    RATE_LIMIT_MESSAGE@,
                ),
            },
    {
        proof {
            use_type_invariant(&*self);
        }
        let ghost before = self.windows@;
        let wanted: String = client.to_owned();
        let mut old_windows: Vec<ClientWindow> = Vec::new();
        core::mem::swap(&mut old_windows, &mut self.windows);
        let n: usize = old_windows.len();
        let mut kept: Vec<ClientWindow> = Vec::new();
        let mut found: Option<usize> = None;
        let mut i: usize = 0;
        while i < n
            invariant
                n == old_windows@.len(),
                old_windows@ == before,
                i <= n,
                wanted@ == client@,
                kept@ == open_windows(before.take(i as int), now),
                match found {
                    Some(k) => window_at(kept@, client@, k as int),
                    None => forall|k: int| !window_at(kept@, client@, k),
                },
            decreases n - i,
        {
            proof {
                assert(before.take(i + 1).drop_last() =~= before.take(i as int));
            }
            let started: u64 = old_windows[i].started;
            let open = now <= started || now - started < RATE_LIMIT_WINDOW_NANOS;
            if open {
                let ghost kept_before = kept@;
                let is_wanted = old_windows[i].client == wanted;
                let window = ClientWindow {
                    client: old_windows[i].client.clone(),
                    count: old_windows[i].count,
                    started,
                };
                assert(window == before[i as int]);
                let place: usize = kept.len();
                kept.push(window);
                assert(forall|k: int| 0 <= k < kept_before.len() ==> kept@[k] == kept_before[k]);
                match found {
                    Some(k) => {
                        assert(window_at(kept_before, client@, k as int));
                        assert(window_at(kept@, client@, k as int));
                    },
                    None => {
                        if is_wanted {
                            found = Some(place);
                            assert(window_at(kept@, client@, place as int));
                        } else {
                            assert forall|k: int| !window_at(kept@, client@, k) by {
                                if 0 <= k < kept_before.len() {
                                    assert(!window_at(kept_before, client@, k));
                                }
                            }
                        }
                    },
                }
            }
            i += 1;
        }
        proof {
            assert(before.take(n as int) =~= before);
            lemma_open_windows_distinct(before, now);
        }
        let ghost open = kept@;
        let count: u32 = match found {
            Some(k) => {
                proof {
                    lemma_window_position(open, client@, k as int);
                }
                let so_far: u32 = kept[k].count;
                let count: u32 = if so_far < u32::MAX {
                    so_far + 1
                } else {
                    so_far
                };
                let started: u64 = kept[k].started;
                kept.set(k, ClientWindow { client: wanted, count, started });
                count
            },
            None => {
                assert(!has_window(open, client@));
                kept.push(ClientWindow { client: wanted, count: 1, started: now });
                1
            },
        };
        proof {
            assert forall|a: int, b: int|
                0 <= a < kept@.len() && 0 <= b < kept@.len() && a != b implies kept@[a].client@
                != kept@[b].client@ by {
                if a < open.len() && b < open.len() {
                    assert(open[a].client@ != open[b].client@);
                } else if a < open.len() {
                    assert(!window_at(open, client@, a));
                } else if b < open.len() {
                    assert(!window_at(open, client@, b));
                }
            }
        }
        *self = RateLimiter { windows: kept };
        if count > RATE_LIMIT_MAX_REQUESTS {
            Err(ApiError::rate_limit(RATE_LIMIT_MESSAGE))
        } else {
            Ok(())
        }
    }
}

/// The name under which a request is counted: the address that a proxy
/// forwarded, else the address that a proxy gave as the real one, else
/// [`UNKNOWN_CLIENT`].
pub fn client_key(forwarded_for: Option<&str>, real_ip: Option<&str>) -> (key: String)
    ensures
        key@ == (match forwarded_for {
            Some(address) => address@,
            None => match real_ip {
                Some(address) => address@,
                None => UNKNOWN_CLIENT@,
            },
        }),
{
    match forwarded_for {
        Some(address) => address.to_owned(),
        None => match real_ip {
            Some(address) => address.to_owned(),
            None => UNKNOWN_CLIENT.to_owned(),
        },
    }
}

} // verus!
