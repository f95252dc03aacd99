use vstd::prelude::*;

use crate::potatomesh::PotatoMessage;

verus! {

/// Durable delivery cursor of the forwarding pipeline.
#[derive(Clone, Debug, Default)]
pub struct BridgeState {
    /// Highest message id ever admitted.
    pub last_message_id: Option<u64>,
    /// Highest receipt time among admitted messages.
    pub last_receipt_time: Option<u64>,
    /// Ids already admitted that carry `last_receipt_time`.
    pub ids_at_last_receipt_time: Vec<u64>,
}

/// Abstract view of a checkpoint.
pub struct CheckpointView {
    pub last_message_id: Option<u64>,
    pub last_receipt_time: Option<u64>,
    pub ids: Seq<u64>,
}

impl View for BridgeState {
    type V = CheckpointView;

    open spec fn view(&self) -> CheckpointView {
        CheckpointView {
            last_message_id: self.last_message_id,
            last_receipt_time: self.last_receipt_time,
            ids: self.ids_at_last_receipt_time@,
        }
    }
}

/// The tie-break ids exist only beside a receipt time, and hold no id twice.
pub open spec fn checkpoint_wf(c: CheckpointView) -> bool {
    &&& c.ids.len() > 0 ==> c.last_receipt_time is Some
    &&& c.ids.no_duplicates()
}

/// Whether a message with this id and receipt time is still owed.
pub open spec fn admits(c: CheckpointView, id: u64, rx_time: u64) -> bool {
    match c.last_receipt_time {
        None => match c.last_message_id {
            None => true,
            Some(last) => id > last,
        },
        Some(t) => rx_time > t || (rx_time == t && !c.ids.contains(id)),
    }
}

/// `None` sorts below every `Some`.
pub open spec fn opt_le(a: Option<u64>, b: Option<u64>) -> bool {
    match (a, b) {
        (None, _) => true,
        (Some(_), None) => false,
        (Some(x), Some(y)) => x <= y,
    }
}

pub open spec fn opt_max(a: Option<u64>, v: u64) -> u64 {
    match a {
        None => v,
        Some(x) => if x >= v { x } else { v },
    }
}

/// The checkpoint after admitting a message with this id and receipt time.
pub open spec fn recorded(c: CheckpointView, id: u64, rx_time: u64) -> CheckpointView {
    let ids = match c.last_receipt_time {
        None => seq![id],
        Some(t) => if rx_time > t {
            seq![id]
        } else if rx_time == t && !c.ids.contains(id) {
            c.ids.push(id)
        } else {
            c.ids
        },
    };
    CheckpointView {
        last_message_id: Some(opt_max(c.last_message_id, id)),
        last_receipt_time: Some(
            match c.last_receipt_time {
                None => rx_time,
                Some(t) => if rx_time > t { rx_time } else { t },
            },
        ),
        ids,
    }
}

impl BridgeState {
    pub open spec fn wf(&self) -> bool {
        checkpoint_wf(self@)
    }

    /// An empty checkpoint, as on a first run.
    pub fn new() -> (r: BridgeState)
        ensures
            r@ == fresh(),
            r.wf(),
    {
        let r = BridgeState {
            last_message_id: None,
            last_receipt_time: None,
            ids_at_last_receipt_time: Vec::new(),
        };
        assert(r@.ids =~= Seq::empty());
        r
    }

    /// Whether `msg` has not been relayed yet and should be forwarded.
    pub fn should_forward(&self, msg: &PotatoMessage) -> (r: bool)
        ensures
            r == admits(self@, msg.id, msg.rx_time),
    {
        match self.last_receipt_time {
            None => match self.last_message_id {
                None => true,
                Some(last) => msg.id > last,
            },
            Some(t) => {
                if msg.rx_time > t {
                    true
                } else if msg.rx_time < t {
                    false
                } else {
                    !contains_id(&self.ids_at_last_receipt_time, msg.id)
                }
            },
        }
    }

    /// Advances the checkpoint past `msg`.
    pub fn record(&mut self, msg: &PotatoMessage)
        requires
            old(self).wf(),
        ensures
            final(self)@ == recorded(old(self)@, msg.id, msg.rx_time),
            final(self).wf(),
            opt_le(old(self)@.last_message_id, final(self)@.last_message_id),
            opt_le(old(self)@.last_receipt_time, final(self)@.last_receipt_time),
    {
        let id = msg.id;
        let rx = msg.rx_time;
        self.last_message_id = Some(
            match self.last_message_id {
                None => id,
                Some(last) => if last >= id { last } else { id },
            },
        );
        match self.last_receipt_time {
            None => {
                self.last_receipt_time = Some(rx);
                self.ids_at_last_receipt_time = vec![id];
            },
            Some(t) => {
                if rx > t {
                    self.last_receipt_time = Some(rx);
                    self.ids_at_last_receipt_time = vec![id];
                } else if rx == t && !contains_id(&self.ids_at_last_receipt_time, id) {
                    self.ids_at_last_receipt_time.push(id);
                }
            },
        }
        assert(self.ids_at_last_receipt_time@ == recorded(old(self)@, id, rx).ids);
    }
}

/// The checkpoint after recording each of `ms`, in order.
pub open spec fn recorded_all(c: CheckpointView, ms: Seq<PotatoMessage>) -> CheckpointView
    decreases ms.len(),
{
    if ms.len() == 0 {
        c
    } else {
        recorded(recorded_all(c, ms.drop_last()), ms.last().id, ms.last().rx_time)
    }
}

/// The empty checkpoint.
pub open spec fn fresh() -> CheckpointView {
    CheckpointView { last_message_id: None, last_receipt_time: None, ids: Seq::empty() }
}

proof fn lemma_recorded_all_prefix(c: CheckpointView, ms: Seq<PotatoMessage>, j: int)
    requires
        0 <= j < ms.len(),
    ensures
        recorded_all(c, ms.take(j + 1)) == recorded(
            recorded_all(c, ms.take(j)),
            ms[j].id,
            ms[j].rx_time,
        ),
{
    assert(ms.take(j + 1).drop_last() =~= ms.take(j));
}

/// Neither `last_message_id` nor `last_receipt_time` ever moves backward:
/// along any sequence of recorded messages, an earlier checkpoint is below
/// every later one.
pub proof fn lemma_record_monotonic(c: CheckpointView, ms: Seq<PotatoMessage>)
    ensures
        forall|i: int, j: int|
            0 <= i <= j <= ms.len() ==> {
                &&& opt_le(
                    #[trigger] recorded_all(c, ms.take(i)).last_message_id,
                    #[trigger] recorded_all(c, ms.take(j)).last_message_id,
                )
                &&& opt_le(
                    recorded_all(c, ms.take(i)).last_receipt_time,
                    recorded_all(c, ms.take(j)).last_receipt_time,
                )
            },
{
    assert forall|i: int, j: int| 0 <= i <= j <= ms.len() implies {
        &&& opt_le(
            #[trigger] recorded_all(c, ms.take(i)).last_message_id,
            #[trigger] recorded_all(c, ms.take(j)).last_message_id,
        )
        &&& opt_le(
            recorded_all(c, ms.take(i)).last_receipt_time,
            recorded_all(c, ms.take(j)).last_receipt_time,
        )
    } by {
        lemma_monotonic_from(c, ms, i, j);
    }
}

proof fn lemma_monotonic_from(c: CheckpointView, ms: Seq<PotatoMessage>, i: int, j: int)
    requires
        0 <= i <= j <= ms.len(),
    ensures
        opt_le(
            recorded_all(c, ms.take(i)).last_message_id,
            recorded_all(c, ms.take(j)).last_message_id,
        ),
        opt_le(
            recorded_all(c, ms.take(i)).last_receipt_time,
            recorded_all(c, ms.take(j)).last_receipt_time,
        ),
    decreases j - i,
{
    if i < j {
        lemma_monotonic_from(c, ms, i, j - 1);
        lemma_recorded_all_prefix(c, ms, j - 1);
    }
}

/// Once a message has been recorded, it is rejected on every later fetch,
/// whatever else is recorded after it.
pub proof fn lemma_recorded_stays_rejected(
    c: CheckpointView,
    m: PotatoMessage,
    later: Seq<PotatoMessage>,
)
    ensures
        !admits(recorded_all(recorded(c, m.id, m.rx_time), later), m.id, m.rx_time),
        recorded_all(recorded(c, m.id, m.rx_time), later).last_receipt_time is Some,
    decreases later.len(),
{
    if later.len() > 0 {
        lemma_recorded_stays_rejected(c, m, later.drop_last());
        let prev = recorded_all(recorded(c, m.id, m.rx_time), later.drop_last());
        lemma_rejection_kept(prev, m, later.last());
    } else {
        let c1 = recorded(c, m.id, m.rx_time);
        if c.last_receipt_time is None || m.rx_time > c.last_receipt_time->0 {
            assert(c1.ids[0] == m.id);
        } else if m.rx_time == c.last_receipt_time->0 && !c.ids.contains(m.id) {
            assert(c1.ids[c.ids.len() as int] == m.id);
        }
    }
}

/// Recording anything keeps a rejected message rejected, once a receipt
/// time is known.
proof fn lemma_rejection_kept(c: CheckpointView, m: PotatoMessage, x: PotatoMessage)
    requires
        c.last_receipt_time is Some,
        !admits(c, m.id, m.rx_time),
    ensures
        !admits(recorded(c, x.id, x.rx_time), m.id, m.rx_time),
        recorded(c, x.id, x.rx_time).last_receipt_time is Some,
{
    let c1 = recorded(c, x.id, x.rx_time);
    if x.rx_time == c.last_receipt_time->0 && !c.ids.contains(x.id) && c.ids.contains(m.id) {
        let k = choose|k: int| 0 <= k < c.ids.len() && c.ids[k] == m.id;
        assert(c1.ids[k] == m.id);
    }
}

/// An empty checkpoint admits every message.
pub proof fn lemma_fresh_admits_all(m: PotatoMessage)
    ensures
        admits(fresh(), m.id, m.rx_time),
{
}

/// Without a receipt time, a checkpoint admits exactly the messages whose id
/// is strictly greater than `last_message_id`.
pub proof fn lemma_legacy_fallback(c: CheckpointView, m: PotatoMessage)
    requires
        c.last_receipt_time is None,
        c.last_message_id is Some,
    ensures
        admits(c, m.id, m.rx_time) <==> m.id > c.last_message_id->0,
{
}

/// Two distinct messages that share a receipt time are both admitted in the
/// order they are first seen, neither is admitted again once both are
/// recorded, and any message received earlier is then rejected.
pub proof fn lemma_tie_break(
    c: CheckpointView,
    first: PotatoMessage,
    second: PotatoMessage,
    earlier: PotatoMessage,
)
    requires
        checkpoint_wf(c),
        first.rx_time == second.rx_time,
        first.id != second.id,
        earlier.rx_time < first.rx_time,
        admits(c, first.id, first.rx_time),
        admits(c, second.id, second.rx_time),
    ensures
        ({
            let c1 = recorded(c, first.id, first.rx_time);
            let c2 = recorded(c1, second.id, second.rx_time);
            &&& admits(c1, second.id, second.rx_time)
            &&& !admits(c2, first.id, first.rx_time)
            &&& !admits(c2, second.id, second.rx_time)
            &&& !admits(c2, earlier.id, earlier.rx_time)
        }),
{
    let c1 = recorded(c, first.id, first.rx_time);
    if let Some(t) = c.last_receipt_time {
        if first.rx_time == t {
            assert(c1.ids == c.ids.push(first.id));
            assert(!c.ids.contains(second.id));
            assert(c1.ids[c.ids.len() as int] == first.id);
            assert(!c1.ids.contains(second.id)) by {
                if c1.ids.contains(second.id) {
                    let k = choose|k: int| 0 <= k < c1.ids.len() && c1.ids[k] == second.id;
                    if k < c.ids.len() {
                        assert(c.ids[k] == second.id);
                    }
                }
            }
        }
    } else {
        assert(c1.ids == seq![first.id]);
        assert(!c1.ids.contains(second.id)) by {
            if c1.ids.contains(second.id) {
                let k = choose|k: int| 0 <= k < c1.ids.len() && c1.ids[k] == second.id;
            }
        }
    }
    let c2 = recorded(c1, second.id, second.rx_time);
    assert(c2.ids.contains(second.id)) by {
        assert(c2.ids == c1.ids.push(second.id));
        assert(c2.ids[c1.ids.len() as int] == second.id);
    }
    assert(c2.ids.contains(first.id)) by {
        assert(c1.ids.contains(first.id)) by {
            if c.last_receipt_time is Some && first.rx_time == c.last_receipt_time->0 {
                assert(c1.ids[c.ids.len() as int] == first.id);
            } else {
                assert(c1.ids[0] == first.id);
            }
        }
        let k = choose|k: int| 0 <= k < c1.ids.len() && c1.ids[k] == first.id;
        assert(c2.ids[k] == first.id);
    }
}

/// `s` with each later repetition of an element removed.
pub open spec fn dedup(s: Seq<u64>) -> Seq<u64>
    decreases s.len(),
{
    if s.len() == 0 {
        Seq::empty()
    } else if dedup(s.drop_last()).contains(s.last()) {
        dedup(s.drop_last())
    } else {
        dedup(s.drop_last()).push(s.last())
    }
}

impl BridgeState {
    /// Rebuilds a checkpoint from its persisted fields. Tie-break ids are
    /// kept only beside a receipt time, and each only once; a legacy
    /// checkpoint, which has no receipt time, keeps its message id alone.
    pub fn restore(last_message_id: Option<u64>, last_receipt_time: Option<u64>, ids: Vec<u64>) -> (r:
        BridgeState)
        ensures
            r@.last_message_id == last_message_id,
            r@.last_receipt_time == last_receipt_time,
            r@.ids == if last_receipt_time is Some {
                dedup(ids@)
            } else {
                Seq::empty()
            },
            r.wf(),
    {
        let mut kept: Vec<u64> = Vec::new();
        if last_receipt_time.is_some() {
            let mut i: usize = 0;
            while i < ids.len()
                invariant
                    i <= ids.len(),
                    kept@ == dedup(ids@.subrange(0, i as int)),
                    kept@.no_duplicates(),
                decreases ids.len() - i,
            {
                let id = ids[i];
                assert(ids@.subrange(0, i + 1).drop_last() =~= ids@.subrange(0, i as int));
                if !contains_id(&kept, id) {
                    kept.push(id);
                }
                i = i + 1;
            }
            assert(ids@.subrange(0, ids.len() as int) =~= ids@);
        }
        BridgeState { last_message_id, last_receipt_time, ids_at_last_receipt_time: kept }
    }
}

/// Whether `id` occurs in `ids`.
pub fn contains_id(ids: &Vec<u64>, id: u64) -> (r: bool)
    ensures
        r == ids@.contains(id),
{
    let mut i: usize = 0;
    while i < ids.len()
        invariant
            i <= ids.len(),
            forall|j: int| 0 <= j < i ==> ids@[j] != id,
        decreases ids.len() - i,
    {
        if ids[i] == id {
            return true;
        }
        i = i + 1;
    }
    false
}

} // verus!
