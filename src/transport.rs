//! The bookkeeping of a per-tab DevTools connection: command ids, routing of
//! incoming frames, the event buffer, the pending-request set and the
//! network-idle timing. The caller owns the socket and moves the frames.
use base64::Engine;
use vstd::prelude::*;

verus! {

/// A JSON value of the wire protocol, carried through unread.
#[verifier::external_type_specification]
#[verifier::external_body]
pub struct ExValue(serde_json::Value);

/// Quiet period after which the network counts as idle, in milliseconds.
pub const NETWORK_IDLE_SETTLE_MS: u64 = 100;

/// Ceiling of the network-idle wait, in milliseconds.
pub const NETWORK_IDLE_TIMEOUT_MS: u64 = 10_000;

/// A protocol event received from the browser.
pub struct CdpEvent {
    pub method: String,
    pub params: serde_json::Value,
}

/// Where an incoming frame goes.
pub enum Route {
    /// The awaited reply or event: hand it to the waiting caller.
    Deliver,
    /// An unrelated event: it was buffered.
    Buffered,
    /// A stale reply or a frame without a method: dropped.
    Dropped,
}

/// The state of one connection: the next command id and the buffered events.
pub struct Connection {
    next_id: u64,
    events: Vec<CdpEvent>,
}

/// The methods of a list of events, in order.
pub open spec fn methods(events: Seq<CdpEvent>) -> Seq<Seq<char>> {
    events.map_values(|e: CdpEvent| e.method@)
}

impl Connection {
    /// The id the next command gets.
    pub closed spec fn next(&self) -> u64 {
        self.next_id
    }

    /// The buffered events, oldest first.
    pub closed spec fn buffered(&self) -> Seq<CdpEvent> {
        self.events@
    }

    /// A fresh connection: ids start at 1, nothing buffered.
    pub fn new() -> (r: Connection)
        ensures
            r.next() == 1,
            r.buffered().len() == 0,
    {
        Connection { next_id: 1, events: Vec::new() }
    }

    /// Number of buffered events.
    pub fn buffered_len(&self) -> (r: usize)
        ensures
            r == self.buffered().len(),
    {
        self.events.len()
    }

    /// The buffered event at position `i`, oldest first.
    pub fn event(&self, i: usize) -> (r: &CdpEvent)
        requires
            i < self.buffered().len(),
        ensures
            *r == self.buffered()[i as int],
    {
        &self.events[i]
    }

    /// Assign the id of a new command; ids strictly increase.
    pub fn issue_id(&mut self) -> (r: u64)
        requires
            old(self).next() < u64::MAX,
        ensures
            r == old(self).next(),
            final(self).next() == old(self).next() + 1,
            final(self).buffered() == old(self).buffered(),
    {
        let id = self.next_id;
        self.next_id = id + 1;
        id
    }

    /// Drop all buffered events: events of an earlier navigation are stale.
    pub fn clear_events(&mut self)
        ensures
            final(self).next() == old(self).next(),
            final(self).buffered().len() == 0,
    {
        self.events = Vec::new();
    }

    /// Buffer an event at the end.
    pub fn buffer_event(&mut self, method: String, params: serde_json::Value)
        ensures
            final(self).next() == old(self).next(),
            methods(final(self).buffered()) == methods(old(self).buffered()).push(method@),
    {
        let ghost before = self.events@;
        self.events.push(CdpEvent { method, params });
        assert(methods(self.events@) =~= methods(before).push(method@));
    }

    /// Route a frame received while waiting for the reply to command
    /// `awaited`: the reply with that id is delivered; other frames that
    /// carry a method are events and are buffered; the rest is dropped.
    pub fn route_reply(
        &mut self,
        awaited: u64,
        frame_id: Option<u64>,
        method: Option<String>,
        params: serde_json::Value,
    ) -> (r: Route)
        ensures
            final(self).next() == old(self).next(),
            frame_id == Some(awaited) ==> r is Deliver && methods(final(self).buffered()) == methods(
                old(self).buffered(),
            ),
            frame_id != Some(awaited) && method is Some ==> r is Buffered && methods(
                final(self).buffered(),
            ) == methods(old(self).buffered()).push(method->Some_0@),
            frame_id != Some(awaited) && method is None ==> r is Dropped && methods(
                final(self).buffered(),
            ) == methods(old(self).buffered()),
    {
        if frame_id == Some(awaited) {
            return Route::Deliver;
        }
        match method {
            Some(m) => {
                self.buffer_event(m, params);
                Route::Buffered
            },
            None => Route::Dropped,
        }
    }

    /// Route a frame received while waiting for event `wanted`: that event
    /// is delivered; other events are buffered; the rest is dropped.
    pub fn route_event(&mut self, wanted: &str, method: Option<String>, params: serde_json::Value) -> (r: Route)
        ensures
            final(self).next() == old(self).next(),
            method matches Some(m) && m@ == wanted@ ==> r is Deliver && methods(
                final(self).buffered(),
            ) == methods(old(self).buffered()),
            method matches Some(m) && m@ != wanted@ ==> r is Buffered && methods(
                final(self).buffered(),
            ) == methods(old(self).buffered()).push(method->Some_0@),
            method is None ==> r is Dropped && methods(final(self).buffered()) == methods(
                old(self).buffered(),
            ),
    {
        match method {
            Some(m) => {
                if str_eq(m.as_str(), wanted) {
                    Route::Deliver
                } else {
                    self.buffer_event(m, params);
                    Route::Buffered
                }
            },
            None => Route::Dropped,
        }
    }

    /// Take the oldest buffered event of method `method`, if any; the other
    /// events stay, in order.
    pub fn take_event(&mut self, method: &str) -> (r: Option<serde_json::Value>)
        ensures
            final(self).next() == old(self).next(),
            r is None ==> !methods(old(self).buffered()).contains(method@) && methods(
                final(self).buffered(),
            ) == methods(old(self).buffered()),
            r is Some ==> (exists|i: int|
                    0 <= i < old(self).buffered().len() && methods(old(self).buffered())[i]
                        == method@ && (forall|k: int|
                        0 <= k < i ==> methods(old(self).buffered())[k] != method@) && methods(
                        final(self).buffered(),
                    ) == methods(old(self).buffered()).remove(i)),
    {
        let mut i: usize = 0;
        while i < self.events.len()
            invariant
                i <= self.events.len(),
                self.next_id == old(self).next_id,
                self.events@ == old(self).events@,
                forall|k: int| 0 <= k < i ==> methods(self.events@)[k] != method@,
            decreases self.events.len() - i,
        {
            if str_eq(self.events[i].method.as_str(), method) {
                let ghost before = self.events@;
                assert(methods(before)[i as int] == method@);
                let e = self.events.remove(i);
                assert(methods(self.events@) =~= methods(before).remove(i as int));
                assert(0 <= i < old(self).buffered().len() && methods(old(self).buffered())[i as int]
                    == method@ && (forall|k: int|
                    0 <= k < i ==> methods(old(self).buffered())[k] != method@) && methods(
                    self.buffered(),
                ) == methods(old(self).buffered()).remove(i as int));
                return Some(e.params);
            }
            i += 1;
        }
        assert(!methods(self.events@).contains(method@)) by {
            if methods(self.events@).contains(method@) {
                let k = choose|k: int|
                    0 <= k < methods(self.events@).len() && methods(self.events@)[k] == method@;
                assert(methods(self.events@)[k] != method@);
            }
        }
        None
    }
}

/// Character-wise equality of two strings.
pub fn str_eq(a: &str, b: &str) -> (r: bool)
    ensures
        r == (a@ == b@),
{
    let x = String::from_str(a);
    let y = String::from_str(b);
    x == y
}

/// What standard base64 (with padding) decodes a text to, or nothing when
/// the text is not valid base64.
pub uninterp spec fn base64_decoded(s: Seq<char>) -> Option<Seq<u8>>;

/// Relies on `base64::engine::general_purpose::STANDARD.decode`: decodes
/// standard base64 text, or fails.
#[verifier::external_body]
fn decode_base64(s: &str) -> (r: Option<Vec<u8>>)
    ensures
        match r {
            Some(b) => base64_decoded(s@) == Some(b@),
            None => base64_decoded(s@) is None,
        },
{
    base64::engine::general_purpose::STANDARD.decode(s).ok()
}

/// Why a screenshot reply yielded no image.
#[derive(Debug, Clone, Copy, PartialEq, Eq, Structural)]
pub enum ScreenshotError {
    /// The reply had no `data` text.
    MissingData,
    /// The data was not valid base64.
    BadEncoding,
    /// The data decoded to no bytes.
    Empty,
}

/// The PNG bytes of a screenshot reply, from its base64 `data` field:
/// present, valid and non-empty, since a successful capture always carries
/// a non-empty image.
pub fn screenshot_png(data: Option<&str>) -> (r: Result<Vec<u8>, ScreenshotError>)
    ensures
        match data {
            None => r == Err::<Vec<u8>, ScreenshotError>(ScreenshotError::MissingData),
            Some(d) => match base64_decoded(d@) {
                None => r == Err::<Vec<u8>, ScreenshotError>(ScreenshotError::BadEncoding),
                Some(b) => if b.len() == 0 {
                    r == Err::<Vec<u8>, ScreenshotError>(ScreenshotError::Empty)
                } else {
                    r matches Ok(v) && v@ == b
                },
            },
        },
{
    let d = match data {
        Some(d) => d,
        None => return Err(ScreenshotError::MissingData),
    };
    match decode_base64(d) {
        None => Err(ScreenshotError::BadEncoding),
        Some(b) => if b.len() == 0 {
            Err(ScreenshotError::Empty)
        } else {
            Ok(b)
        },
    }
}

/// Whether a network event starts a request.
pub open spec fn starts_request(method: Seq<char>) -> bool {
    method == "Network.requestWillBeSent"@
}

/// Whether a network event ends a request.
pub open spec fn ends_request(method: Seq<char>) -> bool {
    method == "Network.loadingFinished"@ || method == "Network.loadingFailed"@
}

/// Membership after appending to a sequence.
proof fn lemma_push_contains(v: Seq<Seq<char>>, a: Seq<char>)
    ensures
        forall|x: Seq<char>| #[trigger] v.push(a).contains(x) <==> v.contains(x) || x == a,
        v.no_duplicates() && !v.contains(a) ==> v.push(a).no_duplicates(),
{
    assert forall|x: Seq<char>| #[trigger] v.push(a).contains(x) <==> v.contains(x) || x == a by {
        if v.push(a).contains(x) {
            let j = choose|j: int| 0 <= j < v.push(a).len() && v.push(a)[j] == x;
            if j < v.len() {
                assert(v[j] == x);
            }
        }
        if v.contains(x) {
            let j = choose|j: int| 0 <= j < v.len() && v[j] == x;
            assert(v.push(a)[j] == x);
        }
        if x == a {
            assert(v.push(a)[v.len() as int] == x);
        }
    }
    if v.no_duplicates() && !v.contains(a) {
        assert forall|p: int, q: int|
            0 <= p < v.push(a).len() && 0 <= q < v.push(a).len() && p != q implies v.push(a)[p]
            != v.push(a)[q] by {
            if p < v.len() && q < v.len() {
            } else if p < v.len() {
                assert(v.contains(v[p]));
            } else if q < v.len() {
                assert(v.contains(v[q]));
            }
        }
    }
}

/// Membership after removing an element from a sequence without duplicates.
proof fn lemma_remove_contains(v: Seq<Seq<char>>, i: int)
    requires
        v.no_duplicates(),
        0 <= i < v.len(),
    ensures
        forall|x: Seq<char>| #[trigger] v.remove(i).contains(x) <==> v.contains(x) && x != v[i],
        v.remove(i).no_duplicates(),
{
    let w = v.remove(i);
    assert forall|x: Seq<char>| #[trigger] w.contains(x) <==> v.contains(x) && x != v[i] by {
        if w.contains(x) {
            let j = choose|j: int| 0 <= j < w.len() && w[j] == x;
            if j < i {
                assert(v[j] == x);
            } else {
                assert(v[j + 1] == x);
            }
        }
        if v.contains(x) && x != v[i] {
            let j = choose|j: int| 0 <= j < v.len() && v[j] == x;
            if j < i {
                assert(w[j] == x);
            } else {
                assert(j != i);
                assert(w[j - 1] == x);
            }
        }
    }
    assert forall|p: int, q: int| 0 <= p < w.len() && 0 <= q < w.len() && p != q implies w[p]
        != w[q] by {
        let p2 = if p < i { p } else { p + 1 };
        let q2 = if q < i { q } else { q + 1 };
        assert(w[p] == v[p2]);
        assert(w[q] == v[q2]);
    }
}

/// The ids of the requests in flight.
pub struct PendingRequests {
    ids: Vec<String>,
}

impl PendingRequests {
    /// The set of pending request ids.
    pub closed spec fn set(&self) -> Set<Seq<char>> {
        Set::new(|x: Seq<char>| crate::driver::views(self.ids@).contains(x))
    }

    /// No id is held twice.
    pub closed spec fn wf(&self) -> bool {
        crate::driver::views(self.ids@).no_duplicates()
    }

    /// No request in flight.
    pub fn new() -> (r: PendingRequests)
        ensures
            r.wf(),
            r.set() == Set::<Seq<char>>::empty(),
    {
        let r = PendingRequests { ids: Vec::new() };
        assert(crate::driver::views(r.ids@).len() == 0);
        assert(r.set() =~= Set::<Seq<char>>::empty());
        r
    }

    /// Whether no request is in flight.
    pub fn is_empty(&self) -> (r: bool)
        ensures
            r == (self.set() == Set::<Seq<char>>::empty()),
    {
        if self.ids.len() == 0 {
            assert(self.set() =~= Set::<Seq<char>>::empty());
            true
        } else {
            assert(self.set().contains(self.ids@[0]@)) by {
                assert(crate::driver::views(self.ids@)[0] == self.ids@[0]@);
            }
            false
        }
    }

    /// Update the set for one network event: a started request is added, a
    /// finished or failed one removed; other events and events without a
    /// request id change nothing.
    pub fn track(&mut self, method: &str, request_id: Option<&str>)
        requires
            old(self).wf(),
        ensures
            final(self).wf(),
            final(self).set() == match request_id {
                None => old(self).set(),
                Some(id) => if starts_request(method@) {
                    old(self).set().insert(id@)
                } else if ends_request(method@) {
                    old(self).set().remove(id@)
                } else {
                    old(self).set()
                },
            },
    {
        let id = match request_id {
            Some(id) => id,
            None => return,
        };
        let key = String::from_str(id);
        if str_eq(method, "Network.requestWillBeSent") {
            if !crate::driver::contains_id(&self.ids, &key) {
                let ghost before = self.ids@;
                self.ids.push(key);
                proof {
                    assert(crate::driver::views(self.ids@) =~= crate::driver::views(before).push(id@));
                    lemma_push_contains(crate::driver::views(before), id@);
                    assert(self.set() =~= old(self).set().insert(id@));
                }
            } else {
                assert(self.set().insert(id@) =~= self.set());
            }
        } else if str_eq(method, "Network.loadingFinished") || str_eq(method, "Network.loadingFailed") {
            let mut i: usize = 0;
            while i < self.ids.len()
                invariant
                    i <= self.ids.len(),
                    self.ids@ == old(self).ids@,
                    crate::driver::views(self.ids@).no_duplicates(),
                    key@ == id@,
                    ends_request(method@),
                    !starts_request(method@),
                    request_id == Some(id),
                    forall|k: int| 0 <= k < i ==> #[trigger] self.ids@[k]@ != id@,
                decreases self.ids.len() - i,
            {
                if self.ids[i] == key {
                    let ghost before = self.ids@;
                    self.ids.remove(i);
                    proof {
                        let vb = crate::driver::views(before);
                        assert(crate::driver::views(self.ids@) =~= vb.remove(i as int));
                        assert(vb[i as int] == before[i as int]@);
                        lemma_remove_contains(vb, i as int);
                        assert(self.set() =~= old(self).set().remove(id@));
                    }
                    return;
                }
                i += 1;
            }
            assert(!self.set().contains(id@)) by {
                if crate::driver::views(self.ids@).contains(id@) {
                    let k = choose|k: int|
                        0 <= k < crate::driver::views(self.ids@).len() && crate::driver::views(
                            self.ids@,
                        )[k] == id@;
                    assert(self.ids@[k]@ == id@);
                }
            }
            assert(self.set().remove(id@) =~= self.set());
        }
    }
}

/// What the network-idle wait does next.
pub enum IdleStep {
    /// Stop waiting.
    Done,
    /// Read the next event, for at most this many milliseconds; if none
    /// comes in time, stop waiting.
    Read(u64),
}

/// The next step of the network-idle wait at time `now` (milliseconds),
/// with the wait's `deadline`. Past the deadline the wait ends. With nothing
/// pending, a read waits at most the settle period (and never past the
/// deadline): its timing out means the network is idle. With requests
/// pending, a read waits until the deadline.
pub open spec fn idle_step_for(now: u64, deadline: u64, pending_empty: bool) -> IdleStep {
    if now >= deadline {
        IdleStep::Done
    } else if pending_empty {
        IdleStep::Read(
            if deadline - now < NETWORK_IDLE_SETTLE_MS {
                (deadline - now) as u64
            } else {
                NETWORK_IDLE_SETTLE_MS
            },
        )
    } else {
        IdleStep::Read((deadline - now) as u64)
    }
}

/// The next step of the network-idle wait, as `idle_step_for` describes it.
pub fn idle_step(now: u64, deadline: u64, pending_empty: bool) -> (r: IdleStep)
    ensures
        r == idle_step_for(now, deadline, pending_empty),
{
    if now >= deadline {
        return IdleStep::Done;
    }
    let left = deadline - now;
    if pending_empty {
        IdleStep::Read(if left < NETWORK_IDLE_SETTLE_MS { left } else { NETWORK_IDLE_SETTLE_MS })
    } else {
        IdleStep::Read(left)
    }
}

/// The deadline of a network-idle wait that starts at `start`.
pub fn idle_deadline(start: u64) -> (r: u64)
    requires
        start <= u64::MAX - NETWORK_IDLE_TIMEOUT_MS,
    ensures
        r == start + NETWORK_IDLE_TIMEOUT_MS,
{
    start + NETWORK_IDLE_TIMEOUT_MS
}

/// While requests stay pending, each read of the network-idle wait lasts
/// until exactly the deadline, `start` plus the ceiling, and from the
/// deadline on the wait stops: a stage that never empties returns after
/// exactly the ceiling.
pub proof fn lemma_busy_network_waits_to_deadline(start: u64, now: u64)
    requires
        start <= u64::MAX - NETWORK_IDLE_TIMEOUT_MS,
        start <= now,
    ensures
        now < start + NETWORK_IDLE_TIMEOUT_MS ==> (idle_step_for(
            now,
            (start + NETWORK_IDLE_TIMEOUT_MS) as u64,
            false,
        ) matches IdleStep::Read(t) && now + t == start + NETWORK_IDLE_TIMEOUT_MS),
        now >= start + NETWORK_IDLE_TIMEOUT_MS ==> idle_step_for(
            now,
            (start + NETWORK_IDLE_TIMEOUT_MS) as u64,
            false,
        ) is Done,
{
}

} // verus!
