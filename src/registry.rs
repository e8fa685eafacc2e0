use vstd::prelude::*;
use vstd::string::*;
use tokio::sync::mpsc::{UnboundedReceiver, UnboundedSender};
use crate::progress::ProgressMessage;
use crate::text::{decimal, decimal_text, lemma_decimal_injective};

verus! {

#[verifier::external_type_specification]
#[verifier::external_body]
#[verifier::reject_recursive_types(T)]
pub struct ExUnboundedSender<T>(UnboundedSender<T>);

#[verifier::external_type_specification]
#[verifier::external_body]
#[verifier::reject_recursive_types(T)]
pub struct ExUnboundedReceiver<T>(UnboundedReceiver<T>);

/// Relies on `tokio::sync::mpsc::unbounded_channel`: a connected sender and receiver.
#[verifier::external_body]
fn open_channel() -> (UnboundedSender<ProgressMessage>, UnboundedReceiver<ProgressMessage>) {
    tokio::sync::mpsc::unbounded_channel()
}

/// Relies on `UnboundedSender::send`: queues the event without blocking; when the
/// receiver is gone the event is dropped, which is no error for the emitter.
#[verifier::external_body]
fn send_event(sender: &UnboundedSender<ProgressMessage>, event: ProgressMessage) {
    let _ = sender.send(event);
}

/// Relies on `uuid::Uuid::new_v4` and its `Display`: a random UUID in hyphenated
/// form, which is 36 characters long.
#[verifier::external_body]
fn random_uuid_text() -> (r: String)
    ensures
        r@.len() == 36,
{
    uuid::Uuid::new_v4().to_string()
}

/// The identifier minted from a random UUID and the registry's serial number.
pub open spec fn operation_id_text(uuid: Seq<char>, serial: nat) -> Seq<char> {
    uuid + seq!['-'] + decimal(serial)
}

/// The abstract state of a registry: for each live operation the events sent to
/// its channel so far; for each retired operation every event it ever got; and
/// how many identifiers have been minted.
pub struct RegistryModel {
    pub live: Map<Seq<char>, Seq<ProgressMessage>>,
    pub closed: Map<Seq<char>, Seq<ProgressMessage>>,
    pub serial: nat,
}

/// Whether `id` was ever handed out by the registry.
pub open spec fn is_known(r: RegistryModel, id: Seq<char>) -> bool {
    r.live.contains_key(id) || r.closed.contains_key(id)
}

pub open spec fn begin_model(r: RegistryModel, id: Seq<char>) -> RegistryModel {
    RegistryModel { live: r.live.insert(id, Seq::empty()), closed: r.closed, serial: r.serial + 1 }
}

/// An event reaches the channel of a live operation; for any other id it is dropped.
pub open spec fn emit_model(r: RegistryModel, id: Seq<char>, m: ProgressMessage) -> RegistryModel {
    if r.live.contains_key(id) {
        RegistryModel { live: r.live.insert(id, r.live[id].push(m)), closed: r.closed, serial: r.serial }
    } else {
        r
    }
}

/// A live operation is retired with the events it got; any other id changes nothing.
pub open spec fn end_model(r: RegistryModel, id: Seq<char>) -> RegistryModel {
    if r.live.contains_key(id) {
        RegistryModel { live: r.live.remove(id), closed: r.closed.insert(id, r.live[id]), serial: r.serial }
    } else {
        r
    }
}

pub open spec fn has_no_terminal(events: Seq<ProgressMessage>) -> bool {
    forall|i: int| 0 <= i < events.len() ==> !(#[trigger] events[i]).is_terminal()
}

/// The stream ends with one terminal event and holds no other.
pub open spec fn ends_with_one_terminal(events: Seq<ProgressMessage>) -> bool {
    &&& events.len() > 0
    &&& events.last().is_terminal()
    &&& has_no_terminal(events.drop_last())
}

/// Once an operation has ended, emitting on its id changes nothing: the event
/// is dropped and the entry is not brought back. Ending it again changes
/// nothing either, so an entry is removed at most once.
pub proof fn lemma_emit_after_end_is_noop(r: RegistryModel, id: Seq<char>, m: ProgressMessage)
    requires
        r.live.contains_key(id),
    ensures
        !end_model(r, id).live.contains_key(id),
        end_model(r, id).closed.contains_key(id),
        emit_model(end_model(r, id), id, m) == end_model(r, id),
        end_model(end_model(r, id), id) == end_model(r, id),
{
}

/// A stream that has seen no terminal event, closed by emitting one terminal
/// event and then ending the operation, holds exactly that one terminal event,
/// as its last.
pub proof fn lemma_close_with_terminal(r: RegistryModel, id: Seq<char>, t: ProgressMessage)
    requires
        r.live.contains_key(id),
        has_no_terminal(r.live[id]),
        t.is_terminal(),
    ensures
        end_model(emit_model(r, id, t), id).closed[id] == r.live[id].push(t),
        ends_with_one_terminal(end_model(emit_model(r, id, t), id).closed[id]),
{
    let events = r.live[id].push(t);
    assert(events.drop_last() =~= r.live[id]);
}

/// Emitting a non-terminal event keeps a stream free of terminal events.
pub proof fn lemma_progress_keeps_stream_open(r: RegistryModel, id: Seq<char>, m: ProgressMessage)
    requires
        r.live.contains_key(id),
        has_no_terminal(r.live[id]),
        !m.is_terminal(),
    ensures
        emit_model(r, id, m).live.contains_key(id),
        has_no_terminal(emit_model(r, id, m).live[id]),
{
    let events = r.live[id].push(m);
    assert forall|i: int| 0 <= i < events.len() implies !(#[trigger] events[i]).is_terminal() by {
        if i < r.live[id].len() {
            assert(events[i] == r.live[id][i]);
        }
    }
}

/// One registry call, with the operation id it concerns.
pub enum RegistryStep {
    Begin(Seq<char>),
    Emit(Seq<char>, ProgressMessage),
    End(Seq<char>),
}

pub open spec fn step_id(s: RegistryStep) -> Seq<char> {
    match s {
        RegistryStep::Begin(a) => a,
        RegistryStep::Emit(a, _) => a,
        RegistryStep::End(a) => a,
    }
}

/// The model after one call, as `begin_operation`, `emit` and `end_operation` leave it.
pub open spec fn apply_step(r: RegistryModel, s: RegistryStep) -> RegistryModel {
    match s {
        RegistryStep::Begin(a) => begin_model(r, a),
        RegistryStep::Emit(a, m) => emit_model(r, a, m),
        RegistryStep::End(a) => end_model(r, a),
    }
}

/// The model after a sequence of calls, in order.
pub open spec fn run_steps(r: RegistryModel, steps: Seq<RegistryStep>) -> RegistryModel
    decreases steps.len(),
{
    if steps.len() == 0 {
        r
    } else {
        apply_step(run_steps(r, steps.drop_last()), steps.last())
    }
}

/// The calls of `steps` that concern `a`, in their order.
pub open spec fn steps_for(steps: Seq<RegistryStep>, a: Seq<char>) -> Seq<RegistryStep>
    decreases steps.len(),
{
    if steps.len() == 0 {
        steps
    } else if step_id(steps.last()) == a {
        steps_for(steps.drop_last(), a).push(steps.last())
    } else {
        steps_for(steps.drop_last(), a)
    }
}

/// Two models agree on everything they hold for `a`.
pub open spec fn same_at(r1: RegistryModel, r2: RegistryModel, a: Seq<char>) -> bool {
    &&& r1.live.contains_key(a) == r2.live.contains_key(a)
    &&& (r1.live.contains_key(a) ==> r1.live[a] == r2.live[a])
    &&& r1.closed.contains_key(a) == r2.closed.contains_key(a)
    &&& (r1.closed.contains_key(a) ==> r1.closed[a] == r2.closed[a])
}

/// The calls of one transfer: begin, the events sent while it runs, a final
/// event, end.
pub open spec fn transfer_steps(a: Seq<char>, events: Seq<ProgressMessage>, t: ProgressMessage) -> Seq<RegistryStep> {
    seq![RegistryStep::Begin(a)] + emit_steps(a, events) + seq![RegistryStep::Emit(a, t), RegistryStep::End(a)]
}

pub open spec fn emit_steps(a: Seq<char>, events: Seq<ProgressMessage>) -> Seq<RegistryStep> {
    events.map_values(|m: ProgressMessage| RegistryStep::Emit(a, m))
}

/// However calls for different operations interleave, what the registry holds
/// for `a` is what the calls for `a` alone produce: each operation's stream
/// depends only on its own calls.
pub proof fn lemma_streams_independent(r: RegistryModel, steps: Seq<RegistryStep>, a: Seq<char>)
    ensures
        same_at(run_steps(r, steps), run_steps(r, steps_for(steps, a)), a),
    decreases steps.len(),
{
    if steps.len() > 0 {
        lemma_streams_independent(r, steps.drop_last(), a);
        if step_id(steps.last()) == a {
            let f = steps_for(steps.drop_last(), a);
            assert(f.push(steps.last()).drop_last() =~= f);
        }
    }
}

proof fn lemma_run_append(r: RegistryModel, s1: Seq<RegistryStep>, s2: Seq<RegistryStep>)
    ensures
        run_steps(r, s1 + s2) == run_steps(run_steps(r, s1), s2),
    decreases s2.len(),
{
    if s2.len() > 0 {
        lemma_run_append(r, s1, s2.drop_last());
        assert((s1 + s2).drop_last() =~= s1 + s2.drop_last());
    }
}

proof fn lemma_run_emits(r: RegistryModel, a: Seq<char>, events: Seq<ProgressMessage>)
    requires
        r.live.contains_key(a),
    ensures
        run_steps(r, emit_steps(a, events)) == (RegistryModel {
            live: r.live.insert(a, r.live[a] + events),
            ..r
        }),
    decreases events.len(),
{
    let steps = emit_steps(a, events);
    if events.len() == 0 {
        assert(r.live[a] + events =~= r.live[a]);
        assert(r.live.insert(a, r.live[a] + events) =~= r.live);
        assert(steps.len() == 0);
        assert(run_steps(r, steps) == r);
    } else {
        lemma_run_emits(r, a, events.drop_last());
        assert(steps.drop_last() =~= emit_steps(a, events.drop_last()));
        assert(steps.last() == RegistryStep::Emit(a, events.last()));
        let prev = run_steps(r, steps.drop_last());
        assert(prev.live[a] == r.live[a] + events.drop_last());
        assert((r.live[a] + events.drop_last()).push(events.last()) =~= r.live[a] + events);
        assert(prev.live.insert(a, prev.live[a].push(events.last())) =~= r.live.insert(
            a,
            r.live[a] + events,
        ));
    }
}

/// A transfer on a fresh id whose running events hold no terminal event,
/// closed with a terminal event: afterwards no entry is left for it, the live
/// registry is as before, and its stream ends with its one terminal event.
pub proof fn lemma_transfer_leaves_no_entry(
    r: RegistryModel,
    a: Seq<char>,
    events: Seq<ProgressMessage>,
    t: ProgressMessage,
)
    requires
        !is_known(r, a),
        has_no_terminal(events),
        t.is_terminal(),
    ensures
        run_steps(r, transfer_steps(a, events, t)).live == r.live,
        run_steps(r, transfer_steps(a, events, t)).closed == r.closed.insert(a, events.push(t)),
        ends_with_one_terminal(run_steps(r, transfer_steps(a, events, t)).closed[a]),
{
    let b = seq![RegistryStep::Begin(a)];
    let m = emit_steps(a, events);
    let e = seq![RegistryStep::Emit(a, t), RegistryStep::End(a)];
    lemma_run_append(r, b + m, e);
    lemma_run_append(r, b, m);
    assert(b.drop_last() =~= Seq::<RegistryStep>::empty());
    assert(run_steps(r, b.drop_last()) == r);
    let r1 = run_steps(r, b);
    assert(r1 == begin_model(r, a));
    lemma_run_emits(r1, a, events);
    assert(Seq::<ProgressMessage>::empty() + events =~= events);
    let r2 = run_steps(r1, m);
    assert(r2.live[a] == events);
    assert(e.drop_last() =~= seq![RegistryStep::Emit(a, t)]);
    assert(e.drop_last().drop_last() =~= Seq::<RegistryStep>::empty());
    assert(run_steps(r2, e.drop_last().drop_last()) == r2);
    let r25 = run_steps(r2, e.drop_last());
    assert(r25 == emit_model(r2, a, t));
    assert(transfer_steps(a, events, t) == b + m + e);
    let r3 = run_steps(r2, e);
    assert(r3 == end_model(r25, a));
    assert(r3.live =~= r.live);
    assert(r3.closed =~= r.closed.insert(a, events.push(t)));
    assert(events.push(t).drop_last() =~= events);
}

/// Two transfers on fresh, distinct ids, interleaved in any order with no
/// other calls: afterwards the live registry is as before, and each stream
/// holds its own events and ends with its one terminal event.
pub proof fn lemma_interleaved_transfers(
    r: RegistryModel,
    steps: Seq<RegistryStep>,
    a: Seq<char>,
    ea: Seq<ProgressMessage>,
    ta: ProgressMessage,
    b: Seq<char>,
    eb: Seq<ProgressMessage>,
    tb: ProgressMessage,
)
    requires
        !is_known(r, a),
        !is_known(r, b),
        a != b,
        has_no_terminal(ea),
        has_no_terminal(eb),
        ta.is_terminal(),
        tb.is_terminal(),
        steps_for(steps, a) == transfer_steps(a, ea, ta),
        steps_for(steps, b) == transfer_steps(b, eb, tb),
        forall|i: int| 0 <= i < steps.len() ==> step_id(#[trigger] steps[i]) == a || step_id(steps[i]) == b,
    ensures
        run_steps(r, steps).live == r.live,
        run_steps(r, steps).closed[a] == ea.push(ta),
        run_steps(r, steps).closed[b] == eb.push(tb),
        ends_with_one_terminal(run_steps(r, steps).closed[a]),
        ends_with_one_terminal(run_steps(r, steps).closed[b]),
{
    lemma_streams_independent(r, steps, a);
    lemma_streams_independent(r, steps, b);
    lemma_transfer_leaves_no_entry(r, a, ea, ta);
    lemma_transfer_leaves_no_entry(r, b, eb, tb);
    let f = run_steps(r, steps);
    assert forall|k: Seq<char>| #![auto] k != a && k != b implies same_at(f, r, k) by {
        lemma_streams_independent(r, steps, k);
        lemma_steps_for_other(steps, a, b, k);
        assert(run_steps(r, Seq::<RegistryStep>::empty()) == r);
    }
    assert forall|k: Seq<char>| #[trigger] f.live.dom().contains(k) == r.live.dom().contains(k) by {
        if k != a && k != b {
            assert(same_at(f, r, k));
        }
    }
    assert(f.live.dom() =~= r.live.dom());
    assert forall|k: Seq<char>| #[trigger] f.live.dom().contains(k) implies f.live[k] == r.live[k] by {
        if k != a && k != b {
            assert(same_at(f, r, k));
        }
    }
    assert(f.live =~= r.live);
}

proof fn lemma_steps_for_other(steps: Seq<RegistryStep>, a: Seq<char>, b: Seq<char>, k: Seq<char>)
    requires
        k != a,
        k != b,
        forall|i: int| 0 <= i < steps.len() ==> step_id(#[trigger] steps[i]) == a || step_id(steps[i]) == b,
    ensures
        steps_for(steps, k) == Seq::<RegistryStep>::empty(),
    decreases steps.len(),
{
    if steps.len() > 0 {
        let d = steps.drop_last();
        assert forall|i: int| 0 <= i < d.len() implies step_id(#[trigger] d[i]) == a || step_id(d[i]) == b by {
            assert(d[i] == steps[i]);
        }
        lemma_steps_for_other(d, a, b, k);
        assert(step_id(steps[steps.len() - 1]) == a || step_id(steps[steps.len() - 1]) == b);
    }
}

struct Entry {
    operation_id: String,
    sender: UnboundedSender<ProgressMessage>,
}

/// The channels of the operations in flight, keyed by operation identifier.
pub struct ProgressRegistry {
    entries: Vec<Entry>,
    serial: u64,
    live: Ghost<Map<Seq<char>, Seq<ProgressMessage>>>,
    closed: Ghost<Map<Seq<char>, Seq<ProgressMessage>>>,
    minted: Ghost<Map<Seq<char>, nat>>,
}

impl View for ProgressRegistry {
    type V = RegistryModel;

    closed spec fn view(&self) -> RegistryModel {
        RegistryModel { live: self.live@, closed: self.closed@, serial: self.serial as nat }
    }
}

impl ProgressRegistry {
    pub closed spec fn wf(&self) -> bool {
        &&& forall|i: int, j: int|
            0 <= i < self.entries.len() && 0 <= j < self.entries.len() && i != j
                ==> self.entries@[i].operation_id@ != self.entries@[j].operation_id@
        &&& forall|i: int| 0 <= i < self.entries.len() ==> self.live@.contains_key(self.entries@[i].operation_id@)
        &&& forall|k: Seq<char>| #[trigger] self.live@.contains_key(k)
            ==> exists|i: int| 0 <= i < self.entries.len() && self.entries@[i].operation_id@ == k
        &&& self.live@.dom().finite()
        &&& self.live@.dom().len() == self.entries.len()
        &&& forall|k: Seq<char>| !(self.live@.contains_key(k) && #[trigger] self.closed@.contains_key(k))
        &&& forall|k: Seq<char>| #[trigger] is_known(self@, k) ==> {
            &&& self.minted@.contains_key(k)
            &&& self.minted@[k] < self.serial
            &&& k.len() >= 37
            &&& k.subrange(37, k.len() as int) == decimal(self.minted@[k])
        }
    }

    pub fn new() -> (r: Self)
        ensures
            r.wf(),
            r@.live == Map::<Seq<char>, Seq<ProgressMessage>>::empty(),
            r@.closed == Map::<Seq<char>, Seq<ProgressMessage>>::empty(),
            r@.serial == 0,
    {
        ProgressRegistry {
            entries: Vec::new(),
            serial: 0,
            live: Ghost(Map::empty()),
            closed: Ghost(Map::empty()),
            minted: Ghost(Map::empty()),
        }
    }

    /// Whether another identifier can still be minted.
    pub fn can_begin(&self) -> (r: bool)
        ensures
            r == (self@.serial < u64::MAX),
    {
        self.serial < u64::MAX
    }

    /// How many operations are in flight.
    pub fn active_count(&self) -> (r: usize)
        requires
            self.wf(),
        ensures
            r == self@.live.dom().len(),
    {
        self.entries.len()
    }

    /// Whether `id` names an operation in flight.
    pub fn is_registered(&self, id: &String) -> (r: bool)
        requires
            self.wf(),
        ensures
            r == self@.live.contains_key(id@),
    {
        match self.find(id) {
            Some(_) => true,
            None => false,
        }
    }

    /// Mints a fresh identifier, opens its channel and registers it. The
    /// receiver is for the observer of the operation's progress.
    pub fn begin_operation(&mut self) -> (r: (String, UnboundedReceiver<ProgressMessage>))
        requires
            old(self).wf(),
            old(self)@.serial < u64::MAX,
        ensures
            final(self).wf(),
            !is_known(old(self)@, r.0@),
            final(self)@ == begin_model(old(self)@, r.0@),
    {
        let uuid = random_uuid_text();
        let serial_text = decimal_text(self.serial);
        let mut id = uuid;
        id.append("-");
        id.append(serial_text.as_str());
        proof {
            reveal_strlit("-");
            assert(id@ =~= operation_id_text(uuid@, self.serial as nat));
            assert(id@.subrange(37, id@.len() as int) =~= decimal(self.serial as nat));
            assert forall|k: Seq<char>| is_known(self@, k) implies k != id@ by {
                if k == id@ {
                    lemma_decimal_injective(self.minted@[k], self.serial as nat);
                }
            }
        }
        let (sender, receiver) = open_channel();
        let ghost old_self = *self;
        self.entries.push(Entry { operation_id: id.clone(), sender });
        self.serial = self.serial + 1;
        self.live = Ghost(self.live@.insert(id@, Seq::empty()));
        self.minted = Ghost(self.minted@.insert(id@, old_self.serial as nat));
        proof {
            assert(self.entries@[self.entries.len() - 1].operation_id@ == id@);
            assert forall|i: int| 0 <= i < old_self.entries.len() implies self.entries@[i].operation_id@ == old_self.entries@[i].operation_id@ by {}
            assert forall|k: Seq<char>| #[trigger] self.live@.contains_key(k)
                implies exists|i: int| 0 <= i < self.entries.len() && self.entries@[i].operation_id@ == k by {
                if k == id@ {
                    assert(self.entries@[self.entries.len() - 1].operation_id@ == k);
                } else {
                    let j = choose|j: int| 0 <= j < old_self.entries.len() && old_self.entries@[j].operation_id@ == k;
                    assert(self.entries@[j].operation_id@ == k);
                }
            }
            assert forall|k: Seq<char>| #[trigger] is_known(self@, k) implies {
                &&& self.minted@.contains_key(k)
                &&& self.minted@[k] < self.serial
                &&& k.len() >= 37
                &&& k.subrange(37, k.len() as int) == decimal(self.minted@[k])
            } by {
                if k != id@ {
                    assert(is_known(old_self@, k));
                }
            }
            assert forall|i: int| 0 <= i < old_self.entries.len() implies
                self.entries@[i].operation_id@ != id@ by {
                assert(is_known(old_self@, old_self.entries@[i].operation_id@));
            }
            assert(!is_known(old_self@, id@));
            assert(self@ == begin_model(old_self@, id@));
        }
        (id, receiver)
    }

    /// Sends `event` on the channel of `id`; an unknown or retired id drops it.
    pub fn emit(&mut self, id: &String, event: ProgressMessage)
        requires
            old(self).wf(),
        ensures
            final(self).wf(),
            final(self)@ == emit_model(old(self)@, id@, event),
    {
        let ghost e = event;
        match self.find(id) {
            Some(i) => {
                send_event(&self.entries[i].sender, event);
                let ghost old_self = *self;
                self.live = Ghost(self.live@.insert(id@, self.live@[id@].push(e)));
                proof {
                    assert(self.live@.dom() =~= old_self.live@.dom());
                    assert forall|k: Seq<char>| #[trigger] self.live@.contains_key(k)
                        implies exists|j: int| 0 <= j < self.entries.len() && self.entries@[j].operation_id@ == k by {
                        assert(old_self.live@.contains_key(k));
                        let j = choose|j: int| 0 <= j < old_self.entries.len() && old_self.entries@[j].operation_id@ == k;
                        assert(self.entries@[j].operation_id@ == k);
                    }
                    assert forall|k: Seq<char>| #[trigger] is_known(self@, k) implies {
                        &&& self.minted@.contains_key(k)
                        &&& self.minted@[k] < self.serial
                        &&& k.len() >= 37
                        &&& k.subrange(37, k.len() as int) == decimal(self.minted@[k])
                    } by {
                        assert(is_known(old_self@, k));
                    }
                    assert(self@ == emit_model(old_self@, id@, e));
                }
            },
            None => {},
        }
    }

    /// Retires `id`: its channel is dropped and the id is never minted again.
    /// An unknown or already retired id changes nothing.
    pub fn end_operation(&mut self, id: &String)
        requires
            old(self).wf(),
        ensures
            final(self).wf(),
            final(self)@ == end_model(old(self)@, id@),
    {
        match self.find(id) {
            Some(i) => {
                let ghost old_self = *self;
                let _removed = self.entries.remove(i);
                self.closed = Ghost(self.closed@.insert(id@, self.live@[id@]));
                self.live = Ghost(self.live@.remove(id@));
                proof {
                    assert forall|a: int| 0 <= a < self.entries.len() implies
                        self.entries@[a].operation_id@ == old_self.entries@[if a < i { a } else { a + 1 }].operation_id@ by {}
                    assert forall|a: int, b: int|
                        0 <= a < self.entries.len() && 0 <= b < self.entries.len() && a != b
                        implies self.entries@[a].operation_id@ != self.entries@[b].operation_id@ by {
                        let oa = if a < i { a } else { a + 1 };
                        let ob = if b < i { b } else { b + 1 };
                        assert(old_self.entries@[oa].operation_id@ != old_self.entries@[ob].operation_id@);
                    }
                    assert forall|a: int| 0 <= a < self.entries.len() implies
                        self.live@.contains_key(#[trigger] self.entries@[a].operation_id@) by {
                        let oa = if a < i { a } else { a + 1 };
                        assert(old_self.entries@[oa].operation_id@ != old_self.entries@[i as int].operation_id@);
                        assert(old_self.live@.contains_key(old_self.entries@[oa].operation_id@));
                    }
                    assert forall|k: Seq<char>| #[trigger] self.live@.contains_key(k)
                        implies exists|j: int| 0 <= j < self.entries.len() && self.entries@[j].operation_id@ == k by {
                        assert(old_self.live@.contains_key(k));
                        let j = choose|j: int| 0 <= j < old_self.entries.len() && old_self.entries@[j].operation_id@ == k;
                        if j < i {
                            assert(self.entries@[j].operation_id@ == k);
                        } else {
                            assert(j != i);
                            assert(self.entries@[j - 1].operation_id@ == k);
                        }
                    }
                    assert forall|k: Seq<char>| #[trigger] is_known(self@, k) implies {
                        &&& self.minted@.contains_key(k)
                        &&& self.minted@[k] < self.serial
                        &&& k.len() >= 37
                        &&& k.subrange(37, k.len() as int) == decimal(self.minted@[k])
                    } by {
                        assert(is_known(old_self@, k));
                    }
                    assert(self@ == end_model(old_self@, id@));
                }
            },
            None => {},
        }
    }

    fn find(&self, id: &String) -> (r: Option<usize>)
        requires
            self.wf(),
        ensures
            match r {
                Some(i) => i < self.entries.len() && self.entries@[i as int].operation_id@ == id@,
                None => !self@.live.contains_key(id@),
            },
    {
        let mut i: usize = 0;
        while i < self.entries.len()
            invariant
                self.wf(),
                i <= self.entries.len(),
                forall|j: int| 0 <= j < i ==> self.entries@[j].operation_id@ != id@,
            decreases self.entries.len() - i,
        {
            if self.entries[i].operation_id == *id {
                return Some(i);
            }
            i = i + 1;
        }
        assert(!self@.live.contains_key(id@)) by {
            if self@.live.contains_key(id@) {
                let j = choose|j: int| 0 <= j < self.entries.len() && self.entries@[j].operation_id@ == id@;
                assert(self.entries@[j].operation_id@ != id@);
            }
        }
        None
    }
}

} // verus!
