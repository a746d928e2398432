use std::collections::HashMap;
use vstd::prelude::*;

use crate::clock::current_timestamp;
use crate::command::NotificationCommand;
use crate::configure::lemma_prefix_step;

verus! {

broadcast use vstd::std_specs::hash::group_hash_axioms;

/// The abstract state of a notification worker.
pub ghost struct WorkerModel {
    /// Last-notified timestamp of each tracked sender, in milliseconds.
    pub ledger: Map<i64, u128>,
    /// Length of the cooldown window, in milliseconds.
    pub cooldown_ms: int,
    /// Whether the worker has consumed `Terminate`.
    pub stopped: bool,
}

/// Whether an event of `sender` processed at `now` lies outside the
/// sender's cooldown window.
pub open spec fn outside_cooldown(m: WorkerModel, sender: i64, now: u128) -> bool {
    now as int - m.ledger[sender] as int > m.cooldown_ms
}

/// Whether the worker can take `cmd`: a message from a sender that the
/// ledger tracks, or anything once the worker has stopped.
pub open spec fn accepts(m: WorkerModel, cmd: NotificationCommand) -> bool {
    match cmd {
        NotificationCommand::Message { sender_id, .. } => m.stopped || m.ledger.contains_key(
            sender_id,
        ),
        NotificationCommand::Terminate => true,
    }
}

/// Whether consuming `cmd` at `now` leads to a delivery.
pub open spec fn delivers(m: WorkerModel, cmd: NotificationCommand, now: u128) -> bool {
    match cmd {
        NotificationCommand::Message { sender_id, .. } => !m.stopped && outside_cooldown(
            m,
            sender_id,
            now,
        ),
        NotificationCommand::Terminate => false,
    }
}

/// The state after consuming `cmd`: `Terminate` stops the worker; nothing
/// else changes until a delivery is reported.
pub open spec fn after_command(m: WorkerModel, cmd: NotificationCommand) -> WorkerModel {
    match cmd {
        NotificationCommand::Terminate => WorkerModel { stopped: true, ..m },
        _ => m,
    }
}

/// The state after a delivery attempt for `sender` of an event stamped
/// `event_timestamp`: on success the ledger entry takes the event's
/// timestamp; on failure nothing changes.
pub open spec fn after_delivery(
    m: WorkerModel,
    sender: i64,
    event_timestamp: u128,
    success: bool,
) -> WorkerModel {
    if success {
        WorkerModel { ledger: m.ledger.insert(sender, event_timestamp), ..m }
    } else {
        m
    }
}

/// The state after consuming `cmd`, from any state: a stopped worker stays
/// as it is.
pub open spec fn worker_step(m: WorkerModel, cmd: NotificationCommand) -> WorkerModel {
    if m.stopped {
        m
    } else {
        after_command(m, cmd)
    }
}

/// One full turn of the worker: consume `cmd` at `now` and, where that
/// leads to a delivery, record its outcome.
pub open spec fn turn(m: WorkerModel, cmd: NotificationCommand, now: u128, success: bool) -> WorkerModel {
    if delivers(m, cmd, now) {
        after_delivery(
            worker_step(m, cmd),
            cmd->Message_sender_id,
            cmd->Message_event_timestamp,
            success,
        )
    } else {
        worker_step(m, cmd)
    }
}

/// The state after consuming `cmds` in order, the i-th at `nows[i]` with
/// delivery outcome `outcomes[i]`.
pub open spec fn run(
    m: WorkerModel,
    cmds: Seq<NotificationCommand>,
    nows: Seq<u128>,
    outcomes: Seq<bool>,
) -> WorkerModel
    decreases cmds.len(),
{
    if cmds.len() == 0 {
        m
    } else {
        run(
            turn(m, cmds[0], nows[0], outcomes[0]),
            cmds.drop_first(),
            nows.drop_first(),
            outcomes.drop_first(),
        )
    }
}

/// How many deliveries consuming `cmds` in order asks for.
pub open spec fn delivery_count(
    m: WorkerModel,
    cmds: Seq<NotificationCommand>,
    nows: Seq<u128>,
    outcomes: Seq<bool>,
) -> nat
    decreases cmds.len(),
{
    if cmds.len() == 0 {
        0
    } else {
        (if delivers(m, cmds[0], nows[0]) {
            1nat
        } else {
            0nat
        }) + delivery_count(
            turn(m, cmds[0], nows[0], outcomes[0]),
            cmds.drop_first(),
            nows.drop_first(),
            outcomes.drop_first(),
        )
    }
}

/// A stopped worker asks for no delivery and changes nothing, whatever
/// commands follow.
proof fn lemma_stopped_is_inert(
    m: WorkerModel,
    cmds: Seq<NotificationCommand>,
    nows: Seq<u128>,
    outcomes: Seq<bool>,
)
    requires
        m.stopped,
    ensures
        delivery_count(m, cmds, nows, outcomes) == 0,
        run(m, cmds, nows, outcomes) == m,
    decreases cmds.len(),
{
    if cmds.len() > 0 {
        lemma_stopped_is_inert(m, cmds.drop_first(), nows.drop_first(), outcomes.drop_first());
    }
}

/// Once the worker consumes `Terminate`, it performs no further delivery
/// and its ledger no longer changes, whatever commands come after.
pub proof fn lemma_no_delivery_after_terminate(
    m: WorkerModel,
    rest: Seq<NotificationCommand>,
    nows: Seq<u128>,
    outcomes: Seq<bool>,
)
    requires
        nows.len() == rest.len() + 1,
        outcomes.len() == rest.len() + 1,
    ensures
        delivery_count(m, seq![NotificationCommand::Terminate].add(rest), nows, outcomes) == 0,
        run(m, seq![NotificationCommand::Terminate].add(rest), nows, outcomes).ledger == m.ledger,
        run(m, seq![NotificationCommand::Terminate].add(rest), nows, outcomes).stopped,
{
    let cmds = seq![NotificationCommand::Terminate].add(rest);
    let next = turn(m, cmds[0], nows[0], outcomes[0]);
    assert(cmds.drop_first() =~= rest);
    lemma_stopped_is_inert(next, rest, nows.drop_first(), outcomes.drop_first());
}

/// A failed delivery leaves the ledger as it was.
pub proof fn lemma_failure_keeps_ledger(m: WorkerModel, cmd: NotificationCommand, now: u128)
    ensures
        turn(m, cmd, now, false).ledger == m.ledger,
{
}

/// No command and no delivery outcome removes a sender from the ledger.
pub proof fn lemma_ledger_keys_kept(
    m: WorkerModel,
    cmds: Seq<NotificationCommand>,
    nows: Seq<u128>,
    outcomes: Seq<bool>,
)
    ensures
        m.ledger.dom().subset_of(run(m, cmds, nows, outcomes).ledger.dom()),
    decreases cmds.len(),
{
    if cmds.len() > 0 {
        let next = turn(m, cmds[0], nows[0], outcomes[0]);
        lemma_ledger_keys_kept(next, cmds.drop_first(), nows.drop_first(), outcomes.drop_first());
    }
}

/// Two qualifying events of one watched sender, each processed when it
/// happens and less than the cooldown window apart: when the first is
/// delivered successfully, the second is dropped, so exactly one
/// notification goes out.
pub proof fn lemma_close_events_notify_once(
    m: WorkerModel,
    sender: i64,
    t1: u128,
    t2: u128,
    text1: String,
    text2: String,
    second_outcome: bool,
)
    requires
        !m.stopped,
        m.ledger.contains_key(sender),
        outside_cooldown(m, sender, t1),
        t1 <= t2,
        t2 - t1 < m.cooldown_ms,
    ensures
        ({
            let cmds = seq![
                NotificationCommand::Message { sender_id: sender, event_timestamp: t1, text: text1 },
                NotificationCommand::Message { sender_id: sender, event_timestamp: t2, text: text2 },
            ];
            &&& delivers(m, cmds[0], t1)
            &&& delivery_count(m, cmds, seq![t1, t2], seq![true, second_outcome]) == 1
            &&& run(m, cmds, seq![t1, t2], seq![true, second_outcome]).ledger[sender] == t1
        }),
{
    let cmds = seq![
        NotificationCommand::Message { sender_id: sender, event_timestamp: t1, text: text1 },
        NotificationCommand::Message { sender_id: sender, event_timestamp: t2, text: text2 },
    ];
    let nows = seq![t1, t2];
    let outs = seq![true, second_outcome];
    reveal_with_fuel(delivery_count, 3);
    reveal_with_fuel(run, 3);
    let m1 = turn(m, cmds[0], t1, true);
    assert(m1.ledger[sender] == t1);
    let c2 = cmds.drop_first();
    assert(c2[0] == cmds[1]);
    assert(nows.drop_first()[0] == t2);
    assert(!delivers(m1, c2[0], t2));
    assert(c2.drop_first().len() == 0);
    assert(delivery_count(m1, c2, nows.drop_first(), outs.drop_first()) == 0);
}

/// Two qualifying events of one watched sender, each processed when it
/// happens and more than the cooldown window apart: when both deliveries
/// succeed, two notifications go out and the ledger then holds the second
/// event's timestamp.
pub proof fn lemma_distant_events_notify_twice(
    m: WorkerModel,
    sender: i64,
    t1: u128,
    t2: u128,
    text1: String,
    text2: String,
)
    requires
        !m.stopped,
        m.ledger.contains_key(sender),
        outside_cooldown(m, sender, t1),
        t2 - t1 > m.cooldown_ms,
    ensures
        ({
            let cmds = seq![
                NotificationCommand::Message { sender_id: sender, event_timestamp: t1, text: text1 },
                NotificationCommand::Message { sender_id: sender, event_timestamp: t2, text: text2 },
            ];
            &&& delivery_count(m, cmds, seq![t1, t2], seq![true, true]) == 2
            &&& run(m, cmds, seq![t1, t2], seq![true, true]).ledger[sender] == t2
        }),
{
    let cmds = seq![
        NotificationCommand::Message { sender_id: sender, event_timestamp: t1, text: text1 },
        NotificationCommand::Message { sender_id: sender, event_timestamp: t2, text: text2 },
    ];
    let nows = seq![t1, t2];
    let outs = seq![true, true];
    reveal_with_fuel(delivery_count, 3);
    reveal_with_fuel(run, 3);
    let m1 = turn(m, cmds[0], t1, true);
    assert(m1.ledger[sender] == t1);
    let c2 = cmds.drop_first();
    assert(c2[0] == cmds[1]);
    assert(nows.drop_first()[0] == t2);
    assert(outs.drop_first()[0]);
    assert(delivers(m1, c2[0], t2));
    let m2 = turn(m1, c2[0], t2, true);
    assert(m2.ledger[sender] == t2);
    assert(c2.drop_first().len() == 0);
    assert(delivery_count(m1, c2, nows.drop_first(), outs.drop_first()) == 1);
    assert(run(m1, c2, nows.drop_first(), outs.drop_first()) == m2);
}

/// What the worker asks its caller to do with one command.
#[derive(Clone, Debug)]
pub enum WorkerAction {
    /// Send `text` to the owner, then report the outcome with
    /// `delivery_finished`.
    Deliver { sender_id: i64, event_timestamp: u128, text: String },
    /// Drop the event: its sender is inside the cooldown window.
    Skip,
    /// Stop consuming.
    Stop,
}

/// The single consumer of notification commands; it owns the cooldown
/// ledger.
pub struct NotificationWorker {
    ledger: HashMap<i64, u128>,
    cooldown_seconds: u64,
    stopped: bool,
}

impl View for NotificationWorker {
    type V = WorkerModel;

    closed spec fn view(&self) -> WorkerModel {
        WorkerModel {
            ledger: self.ledger@,
            cooldown_ms: self.cooldown_seconds * 1000,
            stopped: self.stopped,
        }
    }
}

/// The ledger at startup: every watched sender, last notified at 0.
pub open spec fn initial_ledger(watch: Seq<i64>) -> Map<i64, u128> {
    Map::new(|k: i64| watch.contains(k), |k: i64| 0u128)
}

impl NotificationWorker {
    /// A running worker whose ledger holds every sender of `watch` at 0.
    pub fn new(watch: &Vec<i64>, cooldown_seconds: u64) -> (w: NotificationWorker)
        ensures
            w@.ledger == initial_ledger(watch@),
            w@.cooldown_ms == cooldown_seconds * 1000,
            !w@.stopped,
    {
        let mut ledger: HashMap<i64, u128> = HashMap::new();
        let mut i: usize = 0;
        while i < watch.len()
            invariant
                i <= watch@.len(),
                ledger@ == initial_ledger(watch@.take(i as int)),
            decreases watch@.len() - i,
        {
            proof {
                lemma_prefix_step(watch@, i as int);
            }
            ledger.insert(watch[i], 0);
            i = i + 1;
            assert(ledger@ =~= initial_ledger(watch@.take(i as int)));
        }
        assert(watch@.take(watch@.len() as int) == watch@);
        NotificationWorker { ledger, cooldown_seconds, stopped: false }
    }

    /// Whether the ledger tracks `sender_id`.
    pub fn tracks(&self, sender_id: i64) -> (r: bool)
        ensures
            r == self@.ledger.contains_key(sender_id),
    {
        self.ledger.contains_key(&sender_id)
    }

    /// When `sender_id` was last notified about, if the ledger tracks it.
    pub fn last_sent(&self, sender_id: i64) -> (r: Option<u128>)
        ensures
            r == (if self@.ledger.contains_key(sender_id) {
                Some(self@.ledger[sender_id])
            } else {
                None
            }),
    {
        match self.ledger.get(&sender_id) {
            Some(t) => Some(*t),
            None => None,
        }
    }

    /// Whether the worker has consumed `Terminate`.
    pub fn is_stopped(&self) -> (r: bool)
        ensures
            r == self@.stopped,
    {
        self.stopped
    }

    /// Consumes one command at time `now` and says what to do with it.
    pub fn handle_command_at(&mut self, cmd: NotificationCommand, now: u128) -> (r: WorkerAction)
        requires
            accepts(old(self)@, cmd),
        ensures
            final(self)@ == worker_step(old(self)@, cmd),
            (r is Stop) <==> (old(self)@.stopped || cmd is Terminate),
            (r is Deliver) <==> delivers(old(self)@, cmd, now),
            r is Deliver ==> cmd is Message && r->Deliver_sender_id == cmd->Message_sender_id
                && r->Deliver_event_timestamp == cmd->Message_event_timestamp
                && r->Deliver_text@ == cmd->Message_text@,
    {
        if self.stopped {
            return WorkerAction::Stop;
        }
        match cmd {
            NotificationCommand::Message { sender_id, event_timestamp, text } => {
                let last = match self.ledger.get(&sender_id) {
                    Some(t) => *t,
                    None => {
                        proof {
                            assert(false);
                        }
                        return WorkerAction::Skip;
                    },
                };
                let window: u128 = self.cooldown_seconds as u128 * 1000;
                if now > last && now - last > window {
                    WorkerAction::Deliver { sender_id, event_timestamp, text }
                } else {
                    WorkerAction::Skip
                }
            },
            NotificationCommand::Terminate => {
                self.stopped = true;
                WorkerAction::Stop
            },
        }
    }

    /// Consumes one command at the current time.
    pub fn handle_command(&mut self, cmd: NotificationCommand) -> (r: WorkerAction)
        requires
            accepts(old(self)@, cmd),
        ensures
            final(self)@ == worker_step(old(self)@, cmd),
            (r is Stop) <==> (old(self)@.stopped || cmd is Terminate),
            exists|now: u128| (r is Deliver) <==> delivers(old(self)@, cmd, now),
            r is Deliver ==> cmd is Message && r->Deliver_sender_id == cmd->Message_sender_id
                && r->Deliver_event_timestamp == cmd->Message_event_timestamp
                && r->Deliver_text@ == cmd->Message_text@,
    {
        let now = current_timestamp();
        self.handle_command_at(cmd, now)
    }

    /// Records the outcome of a delivery: on success the sender's ledger
    /// entry becomes the event's timestamp; a failure changes nothing.
    pub fn delivery_finished(&mut self, sender_id: i64, event_timestamp: u128, success: bool)
        ensures
            final(self)@ == after_delivery(old(self)@, sender_id, event_timestamp, success),
    {
        if success {
            self.ledger.insert(sender_id, event_timestamp);
        }
    }
}

} // verus!
