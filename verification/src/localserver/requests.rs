//! The smaller requests: starting a standby, disarming quorum commit, and the
//! operator's view of the journal and of the cleanup queue.
use crate::config::{resolved, NodeConfig, NodePool, NodeRef};
use crate::inflight_ops::{InflightOp, InflightPayload, InflightStatus};
use crate::maintenance::{MaintenanceIntent, MaintenanceStatus};
use crate::orchestration::{
    after, lemma_comes_after, performed, JournalBegin, Machine, Reply, Turn,
};
use crate::status::{
    answer, bad_argument, broken, decline, missing, no, ok, refuse, succeed, yes, Answer, Code,
    OpResult, Status,
};
use crate::text::{
    contains_text, debug_text, ends_with, holds_text, lowercase_text, lowercased, quoted, same,
    stands_at, text2, text3, text4, text5,
};
use crate::time::{rfc3339, rfc3339_of, Timestamp};
use vstd::prelude::*;

verus! {

/// A request to start a standby.
pub struct RemoteStartRequest {
    pub target: Option<NodeRef>,
}

/// A step that can fail for good.
#[derive(Clone, Copy, Debug, PartialEq, Eq, Structural)]
pub enum RemoteStartStep {
    CheckRole,
    Dial,
    Start,
}

/// The call that is due, or how it ended.
pub enum RemoteStartStage {
    /// Ask whether PostgreSQL is in recovery here.
    CheckRole,
    /// Dial the standby.
    Dial,
    /// Start the standby.
    Start,
    /// The local node is no primary.
    NotPrimary,
    /// A step failed with this error.
    Failed(RemoteStartStep, String),
    /// All done.
    Started,
}

/// A standby that is started.
pub struct RemoteStart {
    pub target: NodeConfig,
    pub stage: RemoteStartStage,
}

impl Machine for RemoteStart {
    open spec fn next(self, reply: Reply) -> Self {
        RemoteStart {
            stage: match (self.stage, reply) {
                (RemoteStartStage::CheckRole, Reply::Flag(in_recovery)) => if in_recovery {
                    RemoteStartStage::NotPrimary
                } else {
                    RemoteStartStage::Dial
                },
                (RemoteStartStage::CheckRole, Reply::Failed(e)) => RemoteStartStage::Failed(
                    RemoteStartStep::CheckRole,
                    e,
                ),
                (RemoteStartStage::Dial, Reply::Done) => RemoteStartStage::Start,
                (RemoteStartStage::Dial, Reply::Failed(e)) => RemoteStartStage::Failed(
                    RemoteStartStep::Dial,
                    e,
                ),
                (RemoteStartStage::Start, Reply::Done) => RemoteStartStage::Started,
                (RemoteStartStage::Start, Reply::Failed(e)) => RemoteStartStage::Failed(
                    RemoteStartStep::Start,
                    e,
                ),
                (s, _) => s,
            },
            ..self
        }
    }
}

impl RemoteStart {
    /// Takes a request.
    pub fn new(req: RemoteStartRequest, pool: &NodePool) -> (r: Turn<RemoteStart>)
        ensures
            match req.target {
                None => r is Answer && answer(r->Answer_0) == bad_argument(
                    "remote_start: target is required"@,
                ),
                Some(target) => match resolved(pool.members@, target) {
                    Err(e) => r is Answer && answer(r->Answer_0) == bad_argument(
                        "remote_start: target: "@ + e,
                    ),
                    Ok(n) => r == Turn::Ask(
                        RemoteStart { target: n, stage: RemoteStartStage::CheckRole },
                    ),
                },
            },
    {
        let target = match req.target {
            Some(n) => n,
            None => {
                return Turn::Answer(
                    refuse(Code::InvalidArgument, "remote_start: target is required".to_owned()),
                );
            },
        };
        match pool.resolve_node(&target) {
            Ok(n) => Turn::Ask(
                RemoteStart { target: n.clone(), stage: RemoteStartStage::CheckRole },
            ),
            Err(e) => Turn::Answer(
                refuse(Code::InvalidArgument, text2("remote_start: target: ", e.as_str())),
            ),
        }
    }

    /// The node that the call that is due goes to; none, where it is made here
    /// or no call is due.
    pub open spec fn called(self) -> Option<NodeConfig> {
        match self.stage {
            RemoteStartStage::Dial | RemoteStartStage::Start => Some(self.target),
            _ => None,
        }
    }

    /// The node that the call that is due goes to; none, where it is made here
    /// or no call is due.
    pub fn callee(&self) -> (r: Option<&NodeConfig>)
        ensures
            match (r, self.called()) {
                (Some(n), Some(want)) => *n == want,
                (None, None) => true,
                _ => false,
            },
            r is Some <==> (self.stage is Dial || self.stage is Start),
            self.stage is Dial || self.stage is Start ==> r is Some && *r->0 == self.target,
    {
        match &self.stage {
            RemoteStartStage::Dial => Some(&self.target),
            RemoteStartStage::Start => Some(&self.target),
            _ => None,
        }
    }

    /// Takes the reply to the call that was due.
    pub fn step(self, reply: Reply) -> (r: Self)
        ensures
            r == self.next(reply),
    {
        let stage = match (self.stage, reply) {
            (RemoteStartStage::CheckRole, Reply::Flag(in_recovery)) => {
                if in_recovery {
                    RemoteStartStage::NotPrimary
                } else {
                    RemoteStartStage::Dial
                }
            },
            (RemoteStartStage::CheckRole, Reply::Failed(e)) => RemoteStartStage::Failed(
                RemoteStartStep::CheckRole,
                e,
            ),
            (RemoteStartStage::Dial, Reply::Done) => RemoteStartStage::Start,
            (RemoteStartStage::Dial, Reply::Failed(e)) => RemoteStartStage::Failed(
                RemoteStartStep::Dial,
                e,
            ),
            (RemoteStartStage::Start, Reply::Done) => RemoteStartStage::Started,
            (RemoteStartStage::Start, Reply::Failed(e)) => RemoteStartStage::Failed(
                RemoteStartStep::Start,
                e,
            ),
            (s, _) => s,
        };
        RemoteStart { stage, ..self }
    }

    /// The answer, once there is one.
    pub open spec fn outcome(self) -> Option<Answer> {
        match self.stage {
            RemoteStartStage::NotPrimary => Some(
                no("remote_start: local node is not the primary (in recovery)"@),
            ),
            RemoteStartStage::Failed(RemoteStartStep::CheckRole, e) => Some(
                broken("remote_start: check primary status: "@ + e@),
            ),
            RemoteStartStage::Failed(RemoteStartStep::Dial, e) => Some(
                broken("remote_start: peer client for "@ + self.target.hostname@ + ": "@ + e@),
            ),
            RemoteStartStage::Failed(RemoteStartStep::Start, e) => Some(
                broken("remote_start: peer start on "@ + self.target.hostname@ + ": "@ + e@),
            ),
            RemoteStartStage::Started => Some(yes(Seq::<char>::empty())),
            _ => None,
        }
    }

    /// The answer, once there is one.
    pub fn answer(&self) -> (r: Option<Result<OpResult, Status>>)
        ensures
            match (r, self.outcome()) {
                (Some(a), Some(want)) => answer(a) == want,
                (None, None) => true,
                _ => false,
            },
    {
        let host = self.target.hostname.as_str();
        match &self.stage {
            RemoteStartStage::NotPrimary => Some(
                decline("remote_start: local node is not the primary (in recovery)".to_owned()),
            ),
            RemoteStartStage::Failed(step, e) => {
                let s = match step {
                    RemoteStartStep::CheckRole => text2(
                        "remote_start: check primary status: ",
                        e.as_str(),
                    ),
                    RemoteStartStep::Dial => text4(
                        "remote_start: peer client for ",
                        host,
                        ": ",
                        e.as_str(),
                    ),
                    RemoteStartStep::Start => text4(
                        "remote_start: peer start on ",
                        host,
                        ": ",
                        e.as_str(),
                    ),
                };
                Some(refuse(Code::Internal, s))
            },
            RemoteStartStage::Started => Some(Ok(ok())),
            _ => None,
        }
    }
}

/// A standby is started only by a primary.
pub proof fn law_only_a_primary_starts_standbys(m: RemoteStart, replies: Seq<Reply>)
    requires
        m.stage is CheckRole,
        performed(m, replies, |x: RemoteStart, r: Reply| x.stage is Start),
    ensures
        performed(
            m,
            replies,
            |x: RemoteStart, r: Reply| x.stage is CheckRole && r == Reply::Flag(false),
        ),
{
    lemma_comes_after(
        m,
        replies,
        |x: RemoteStart, r: Reply| x.stage is CheckRole && r == Reply::Flag(false),
        |x: RemoteStart| x.stage is Dial || x.stage is Start,
        |x: RemoteStart, r: Reply| x.stage is Start,
    );
}

/// pgpool became the leader of its watchdog: there is no address to move.
pub fn escalation() -> (r: Result<OpResult, Status>)
    ensures
        answer(r) == yes(Seq::<char>::empty()),
{
    Ok(ok())
}

/// A step that can fail for good.
#[derive(Clone, Copy, Debug, PartialEq, Eq, Structural)]
pub enum AllowAsyncStep {
    CheckRole,
    Begin,
    Disarm,
}

/// The call that is due, or how it ended.
pub enum AllowAsyncStage {
    /// Ask whether PostgreSQL is in recovery here.
    CheckRole,
    /// Begin the journal entry.
    Begin,
    /// Clear the names of the synchronous standbys.
    Disarm,
    /// Abandon the journal entry: clearing failed with this error.
    Abandon(String),
    /// Complete the journal entry.
    Complete,
    /// The local node is no primary.
    NotPrimary,
    /// A step failed with this error.
    Failed(AllowAsyncStep, String),
    /// All done.
    Disarmed,
}

/// Quorum commit that is disarmed.
pub struct AllowAsync {
    pub local_node_id: i32,
    pub op_id: String,
    pub stage: AllowAsyncStage,
}

impl Machine for AllowAsync {
    open spec fn next(self, reply: Reply) -> Self {
        match (self.stage, reply) {
            (AllowAsyncStage::CheckRole, Reply::Flag(in_recovery)) => AllowAsync {
                stage: if in_recovery {
                    AllowAsyncStage::NotPrimary
                } else {
                    AllowAsyncStage::Begin
                },
                ..self
            },
            (AllowAsyncStage::CheckRole, Reply::Failed(e)) => AllowAsync {
                stage: AllowAsyncStage::Failed(AllowAsyncStep::CheckRole, e),
                ..self
            },
            (AllowAsyncStage::Begin, Reply::Begun(id)) => AllowAsync {
                stage: AllowAsyncStage::Disarm,
                op_id: id,
                ..self
            },
            (AllowAsyncStage::Begin, Reply::Failed(e)) => AllowAsync {
                stage: AllowAsyncStage::Failed(AllowAsyncStep::Begin, e),
                ..self
            },
            (AllowAsyncStage::Disarm, Reply::Done) => AllowAsync {
                stage: AllowAsyncStage::Complete,
                ..self
            },
            (AllowAsyncStage::Disarm, Reply::Failed(e)) => AllowAsync {
                stage: AllowAsyncStage::Abandon(e),
                ..self
            },
            (AllowAsyncStage::Abandon(e), Reply::Done | Reply::Failed(_)) => AllowAsync {
                stage: AllowAsyncStage::Failed(AllowAsyncStep::Disarm, e),
                ..self
            },
            (AllowAsyncStage::Complete, Reply::Done | Reply::Failed(_)) => AllowAsync {
                stage: AllowAsyncStage::Disarmed,
                ..self
            },
            _ => self,
        }
    }
}

impl AllowAsync {
    /// Takes a request.
    pub fn new(pool: &NodePool) -> (r: AllowAsync)
        ensures
            r.local_node_id == pool.local_node_id,
            r.op_id@ == Seq::<char>::empty(),
            r.stage == AllowAsyncStage::CheckRole,
    {
        AllowAsync {
            local_node_id: pool.local_node_id,
            op_id: String::new(),
            stage: AllowAsyncStage::CheckRole,
        }
    }

    /// The journal entry to begin.
    pub fn begin(&self) -> (r: JournalBegin)
        ensures
            r.payload == (InflightPayload::AllowAsync { node_id: self.local_node_id }),
            r.phase@ == "disarming"@,
            !r.exclusive,
    {
        JournalBegin {
            payload: InflightPayload::AllowAsync { node_id: self.local_node_id },
            phase: "disarming",
            exclusive: false,
        }
    }

    /// Takes the reply to the call that was due.
    pub fn step(self, reply: Reply) -> (r: Self)
        ensures
            r == self.next(reply),
    {
        let stage = match (self.stage, reply) {
            (AllowAsyncStage::CheckRole, Reply::Flag(in_recovery)) => {
                if in_recovery {
                    AllowAsyncStage::NotPrimary
                } else {
                    AllowAsyncStage::Begin
                }
            },
            (AllowAsyncStage::CheckRole, Reply::Failed(e)) => AllowAsyncStage::Failed(
                AllowAsyncStep::CheckRole,
                e,
            ),
            (AllowAsyncStage::Begin, Reply::Begun(id)) => {
                return AllowAsync {
                    local_node_id: self.local_node_id,
                    op_id: id,
                    stage: AllowAsyncStage::Disarm,
                };
            },
            (AllowAsyncStage::Begin, Reply::Failed(e)) => AllowAsyncStage::Failed(
                AllowAsyncStep::Begin,
                e,
            ),
            (AllowAsyncStage::Disarm, Reply::Done) => AllowAsyncStage::Complete,
            (AllowAsyncStage::Disarm, Reply::Failed(e)) => AllowAsyncStage::Abandon(e),
            (AllowAsyncStage::Abandon(e), Reply::Done) => AllowAsyncStage::Failed(
                AllowAsyncStep::Disarm,
                e,
            ),
            (AllowAsyncStage::Abandon(e), Reply::Failed(_)) => AllowAsyncStage::Failed(
                AllowAsyncStep::Disarm,
                e,
            ),
            (AllowAsyncStage::Complete, Reply::Done) => AllowAsyncStage::Disarmed,
            (AllowAsyncStage::Complete, Reply::Failed(_)) => AllowAsyncStage::Disarmed,
            (s, _) => s,
        };
        AllowAsync { stage, ..self }
    }

    /// The answer, once there is one.
    pub open spec fn outcome(self) -> Option<Answer> {
        match self.stage {
            AllowAsyncStage::NotPrimary => Some(
                no(
                    "allow-async: local node is not the primary (in recovery); run this on the current primary"@,
                ),
            ),
            AllowAsyncStage::Failed(AllowAsyncStep::CheckRole, e) => Some(
                broken("allow-async: is_in_recovery: "@ + e@),
            ),
            AllowAsyncStage::Failed(AllowAsyncStep::Begin, e) => Some(
                broken("allow-async: journal begin: "@ + e@),
            ),
            AllowAsyncStage::Failed(AllowAsyncStep::Disarm, e) => Some(
                broken("allow-async: disarm: "@ + e@),
            ),
            AllowAsyncStage::Disarmed => Some(
                yes(
                    "quorum commit disarmed (synchronous_standby_names cleared). The executor re-arms automatically when a standby attaches; /healthz shows sync_commit=disarmed until then."@,
                ),
            ),
            _ => None,
        }
    }

    /// The answer, once there is one.
    pub fn answer(&self) -> (r: Option<Result<OpResult, Status>>)
        ensures
            match (r, self.outcome()) {
                (Some(a), Some(want)) => answer(a) == want,
                (None, None) => true,
                _ => false,
            },
    {
        match &self.stage {
            AllowAsyncStage::NotPrimary => Some(
                decline(
                    "allow-async: local node is not the primary (in recovery); run this on the current primary".to_owned(),
                ),
            ),
            AllowAsyncStage::Failed(step, e) => {
                let s = match step {
                    AllowAsyncStep::CheckRole => text2("allow-async: is_in_recovery: ", e.as_str()),
                    AllowAsyncStep::Begin => text2("allow-async: journal begin: ", e.as_str()),
                    AllowAsyncStep::Disarm => text2("allow-async: disarm: ", e.as_str()),
                };
                Some(refuse(Code::Internal, s))
            },
            AllowAsyncStage::Disarmed => Some(
                succeed(
                    "quorum commit disarmed (synchronous_standby_names cleared). The executor re-arms automatically when a standby attaches; /healthz shows sync_commit=disarmed until then.".to_owned(),
                ),
            ),
            _ => None,
        }
    }
}

/// Quorum commit is disarmed only on a primary, and only after that was
/// journaled.
pub proof fn law_disarming_is_journaled(m: AllowAsync, replies: Seq<Reply>)
    requires
        m.stage is CheckRole,
        performed(m, replies, |x: AllowAsync, r: Reply| x.stage is Disarm),
    ensures
        performed(
            m,
            replies,
            |x: AllowAsync, r: Reply| x.stage is CheckRole && r == Reply::Flag(false),
        ),
        performed(m, replies, |x: AllowAsync, r: Reply| x.stage is Begin && r is Begun),
{
    lemma_comes_after(
        m,
        replies,
        |x: AllowAsync, r: Reply| x.stage is CheckRole && r == Reply::Flag(false),
        |x: AllowAsync|
            x.stage is Begin || x.stage is Disarm,
        |x: AllowAsync, r: Reply| x.stage is Disarm,
    );
    lemma_comes_after(
        m,
        replies,
        |x: AllowAsync, r: Reply| x.stage is Begin && r is Begun,
        |x: AllowAsync| x.stage is Disarm,
        |x: AllowAsync, r: Reply| x.stage is Disarm,
    );
}

/// Refuses an empty id, in the name of `call`.
pub fn require_id(call: &str, id: &str) -> (r: Result<(), Status>)
    ensures
        match r {
            Ok(()) => id@.len() > 0,
            Err(s) => id@.len() == 0 && s.code == Code::InvalidArgument && s.message@ == call@
                + ": id is required"@,
        },
{
    if id.is_empty() {
        Err(Status { code: Code::InvalidArgument, message: text2(call, ": id is required") })
    } else {
        Ok(())
    }
}

/// The refusal where the journal does not give the entry of an id.
pub fn lookup_failed(call: &str, e: &str) -> (r: Status)
    ensures
        r.code == Code::NotFound,
        r.message@ == call@ + ": "@ + e@,
{
    Status { code: Code::NotFound, message: text3(call, ": ", e) }
}

/// A journal entry that the operator abandons.
pub struct Abandonment {
    pub id: String,
    pub phase: String,
    pub reason: String,
}

impl Abandonment {
    /// Takes a request, with what the journal gave for its id.
    pub fn new(found: Result<InflightOp, String>, reason: String) -> (r: Turn<Abandonment>)
        ensures
            match found {
                Err(e) => r is Answer && answer(r->Answer_0) == missing(
                    "abandon_inflight_op: "@ + e@,
                ),
                Ok(op) => if op.status != InflightStatus::InProgress {
                    r is Answer && answer(r->Answer_0) == no(
                        "abandon_inflight_op: op "@ + op.id@ + " is in status "@ + op.status.wire()
                            + "; only in-progress ops can be abandoned"@,
                    )
                } else {
                    &&& r is Ask
                    &&& r->Ask_0.id == op.id
                    &&& r->Ask_0.phase == op.phase
                    &&& r->Ask_0.reason@ == if reason@.len() == 0 {
                        "operator-abandoned"@
                    } else {
                        reason@
                    }
                },
            },
    {
        let op = match found {
            Ok(op) => op,
            Err(e) => {
                return Turn::Answer(
                    refuse(Code::NotFound, text2("abandon_inflight_op: ", e.as_str())),
                );
            },
        };
        if op.status != InflightStatus::InProgress {
            return Turn::Answer(
                decline(
                    text5(
                        "abandon_inflight_op: op ",
                        op.id.as_str(),
                        " is in status ",
                        op.status.as_wire(),
                        "; only in-progress ops can be abandoned",
                    ),
                ),
            );
        }
        let reason = if reason.as_str().is_empty() {
            "operator-abandoned".to_owned()
        } else {
            reason
        };
        Turn::Ask(Abandonment { id: op.id, phase: op.phase, reason })
    }

    /// The answer, with what abandoning the entry gave.
    pub fn answer(&self, abandoned: Result<(), String>) -> (r: Result<OpResult, Status>)
        ensures
            answer(r) == match abandoned {
                Ok(()) => yes(
                    "op "@ + self.id@ + " abandoned (was at phase "@ + self.phase@ + ")"@,
                ),
                Err(e) => broken("abandon_inflight_op: "@ + e@),
            },
    {
        match abandoned {
            Ok(()) => succeed(
                text5("op ", self.id.as_str(), " abandoned (was at phase ", self.phase.as_str(), ")"),
            ),
            Err(e) => refuse(Code::Internal, text2("abandon_inflight_op: ", e.as_str())),
        }
    }
}

/// The status with the given name on the wire.
pub open spec fn inflight_status_of(name: Seq<char>) -> Option<InflightStatus> {
    if name == "in_progress"@ {
        Some(InflightStatus::InProgress)
    } else if name == "done"@ {
        Some(InflightStatus::Done)
    } else if name == "abandoned"@ {
        Some(InflightStatus::Abandoned)
    } else {
        None
    }
}

/// The status with the given name on the wire.
pub open spec fn maintenance_status_of(name: Seq<char>) -> Option<MaintenanceStatus> {
    if name == "pending"@ {
        Some(MaintenanceStatus::Pending)
    } else if name == "done"@ {
        Some(MaintenanceStatus::Done)
    } else if name == "abandoned"@ {
        Some(MaintenanceStatus::Abandoned)
    } else {
        None
    }
}

/// The first of `names` that names no status.
pub open spec fn first_bad<S>(names: Seq<String>, read: spec_fn(Seq<char>) -> Option<S>) -> Option<
    Seq<char>,
>
    decreases names.len(),
{
    if names.len() == 0 {
        None
    } else if read(names[0]@) is None {
        Some(names[0]@)
    } else {
        first_bad(names.drop_first(), read)
    }
}

/// Reads a filter of journal entries; an empty one lets every entry pass.
pub fn parse_inflight_statuses(raw: &Vec<String>) -> (r: Result<Vec<InflightStatus>, String>)
    ensures
        match (r, first_bad(raw@, |n: Seq<char>| inflight_status_of(n))) {
            (Ok(v), None) => v.len() == raw.len() && forall|i: int|
                0 <= i < raw.len() ==> inflight_status_of(raw[i]@) == Some(#[trigger] v[i]),
            (Err(e), Some(bad)) => e@ == "unknown status filter "@ + quoted(bad)
                + "; expected one of: in_progress, done, abandoned"@,
            _ => false,
        },
{
    let ghost read = |n: Seq<char>| inflight_status_of(n);
    let mut out: Vec<InflightStatus> = Vec::new();
    let mut i: usize = 0;
    assert(raw@.skip(0) =~= raw@);
    while i < raw.len()
        invariant
            i <= raw.len(),
            read == (|n: Seq<char>| inflight_status_of(n)),
            first_bad(raw@, read) == first_bad(raw@.skip(i as int), read),
            out.len() == i,
            forall|k: int| 0 <= k < i ==> inflight_status_of(raw[k]@) == Some(#[trigger] out[k]),
        decreases raw.len() - i,
    {
        assert(raw@.skip(i as int).drop_first() =~= raw@.skip(i + 1));
        let name = raw[i].as_str();
        if same(name, "in_progress") {
            out.push(InflightStatus::InProgress);
        } else if same(name, "done") {
            out.push(InflightStatus::Done);
        } else if same(name, "abandoned") {
            out.push(InflightStatus::Abandoned);
        } else {
            return Err(
                text3(
                    "unknown status filter ",
                    debug_text(name).as_str(),
                    "; expected one of: in_progress, done, abandoned",
                ),
            );
        }
        i = i + 1;
    }
    Ok(out)
}

/// Reads a filter of cleanups; an empty one lets every cleanup pass.
pub fn parse_status_filter(raw: &Vec<String>) -> (r: Result<Vec<MaintenanceStatus>, String>)
    ensures
        match (r, first_bad(raw@, |n: Seq<char>| maintenance_status_of(n))) {
            (Ok(v), None) => v.len() == raw.len() && forall|i: int|
                0 <= i < raw.len() ==> maintenance_status_of(raw[i]@) == Some(#[trigger] v[i]),
            (Err(e), Some(bad)) => e@ == "invalid status filter "@ + quoted(bad)
                + ": expected one of pending/done/abandoned"@,
            _ => false,
        },
{
    let ghost read = |n: Seq<char>| maintenance_status_of(n);
    let mut out: Vec<MaintenanceStatus> = Vec::new();
    let mut i: usize = 0;
    assert(raw@.skip(0) =~= raw@);
    while i < raw.len()
        invariant
            i <= raw.len(),
            read == (|n: Seq<char>| maintenance_status_of(n)),
            first_bad(raw@, read) == first_bad(raw@.skip(i as int), read),
            out.len() == i,
            forall|k: int| 0 <= k < i ==> maintenance_status_of(raw[k]@) == Some(#[trigger] out[k]),
        decreases raw.len() - i,
    {
        assert(raw@.skip(i as int).drop_first() =~= raw@.skip(i + 1));
        let name = raw[i].as_str();
        if same(name, "pending") {
            out.push(MaintenanceStatus::Pending);
        } else if same(name, "done") {
            out.push(MaintenanceStatus::Done);
        } else if same(name, "abandoned") {
            out.push(MaintenanceStatus::Abandoned);
        } else {
            return Err(
                text3(
                    "invalid status filter ",
                    debug_text(name).as_str(),
                    ": expected one of pending/done/abandoned",
                ),
            );
        }
        i = i + 1;
    }
    Ok(out)
}

/// Reads the filter of a request to list journal entries.
pub fn list_inflight_ops(raw: &Vec<String>) -> (r: Result<Vec<InflightStatus>, Status>)
    ensures
        match (r, first_bad(raw@, |n: Seq<char>| inflight_status_of(n))) {
            (Ok(v), None) => v.len() == raw.len() && forall|i: int|
                0 <= i < raw.len() ==> inflight_status_of(raw[i]@) == Some(#[trigger] v[i]),
            (Err(s), Some(bad)) => s.code == Code::InvalidArgument && s.message@
                == "list_inflight_ops: "@ + ("unknown status filter "@ + quoted(bad)
                + "; expected one of: in_progress, done, abandoned"@),
            _ => false,
        },
{
    match parse_inflight_statuses(raw) {
        Ok(v) => Ok(v),
        Err(e) => Err(
            Status {
                code: Code::InvalidArgument,
                message: text2("list_inflight_ops: ", e.as_str()),
            },
        ),
    }
}

/// Reads the filter of a request to list cleanups.
pub fn list_maintenance(raw: &Vec<String>) -> (r: Result<Vec<MaintenanceStatus>, Status>)
    ensures
        match (r, first_bad(raw@, |n: Seq<char>| maintenance_status_of(n))) {
            (Ok(v), None) => v.len() == raw.len() && forall|i: int|
                0 <= i < raw.len() ==> maintenance_status_of(raw[i]@) == Some(#[trigger] v[i]),
            (Err(s), Some(bad)) => s.code == Code::InvalidArgument && s.message@
                == "list_maintenance: "@ + ("invalid status filter "@ + quoted(bad)
                + ": expected one of pending/done/abandoned"@),
            _ => false,
        },
{
    match parse_status_filter(raw) {
        Ok(v) => Ok(v),
        Err(e) => Err(
            Status {
                code: Code::InvalidArgument,
                message: text2("list_maintenance: ", e.as_str()),
            },
        ),
    }
}

/// The refusal where the journal or the queue cannot be listed.
pub fn listing_failed(call: &str, e: &str) -> (r: Status)
    ensures
        r.code == Code::Internal,
        r.message@ == call@ + ": "@ + e@,
{
    Status { code: Code::Internal, message: text3(call, ": ", e) }
}

/// Every status is read back from its name on the wire.
pub proof fn law_statuses_round_trip(a: InflightStatus, b: MaintenanceStatus)
    ensures
        inflight_status_of(a.wire()) == Some(a),
        maintenance_status_of(b.wire()) == Some(b),
{
    reveal_strlit("in_progress");
    reveal_strlit("done");
    reveal_strlit("abandoned");
    reveal_strlit("pending");
    assert("in_progress"@.len() == 11);
    assert("done"@.len() == 4);
    assert("abandoned"@.len() == 9);
    assert("pending"@.len() == 7);
}

/// A journal entry as the operator sees it.
pub struct ProtoInflightOp {
    pub id: String,
    pub op: String,
    pub status: String,
    pub payload: Vec<u8>,
    pub phase: String,
    pub started_at: String,
    pub updated_at: String,
    pub completed_at: String,
    pub last_error: String,
}

/// A point in time as the operator sees it; nothing, where there is none.
pub open spec fn time_text(t: Option<Timestamp>) -> Seq<char> {
    match t {
        Some(t) => rfc3339_of(t.secs, t.nanos),
        None => Seq::<char>::empty(),
    }
}

/// A point in time as the operator sees it.
pub fn time_string(t: Option<Timestamp>) -> (r: String)
    requires
        t is Some ==> t->0.wf(),
    ensures
        r@ == time_text(t),
{
    match t {
        Some(t) => rfc3339(t.secs, t.nanos),
        None => String::new(),
    }
}

/// Shows a journal entry, with what encoding its payload gave.
pub fn inflight_to_proto(op: &InflightOp, payload: Result<Vec<u8>, String>) -> (r: Result<
    ProtoInflightOp,
    Status,
>)
    requires
        op.started_at.wf(),
        op.updated_at.wf(),
        op.completed_at is Some ==> op.completed_at->0.wf(),
    ensures
        match (r, payload) {
            (Ok(p), Ok(bytes)) => {
                &&& p.id@ == op.id@
                &&& p.op@ == op.payload.name()
                &&& p.status@ == op.status.wire()
                &&& p.payload == bytes
                &&& p.phase@ == op.phase@
                &&& p.started_at@ == time_text(Some(op.started_at))
                &&& p.updated_at@ == time_text(Some(op.updated_at))
                &&& p.completed_at@ == time_text(op.completed_at)
                &&& p.last_error@ == match op.last_error {
                    Some(e) => e@,
                    None => Seq::<char>::empty(),
                }
            },
            (Err(s), Err(e)) => s.code == Code::Internal && s.message@
                == "inflight_to_proto: marshal payload: "@ + e@,
            _ => false,
        },
{
    match payload {
        Ok(bytes) => Ok(
            ProtoInflightOp {
                id: op.id.clone(),
                op: op.payload.op_name().to_owned(),
                status: op.status.as_wire().to_owned(),
                payload: bytes,
                phase: op.phase.clone(),
                started_at: time_string(Some(op.started_at)),
                updated_at: time_string(Some(op.updated_at)),
                completed_at: time_string(op.completed_at),
                last_error: match &op.last_error {
                    Some(e) => e.clone(),
                    None => String::new(),
                },
            },
        ),
        Err(e) => Err(
            Status {
                code: Code::Internal,
                message: text2("inflight_to_proto: marshal payload: ", e.as_str()),
            },
        ),
    }
}

/// A cleanup as the operator sees it.
pub struct ProtoIntent {
    pub id: String,
    pub op: String,
    pub status: String,
    pub payload: Vec<u8>,
    pub attempts: i32,
    pub last_error: String,
    pub created_at: String,
    pub updated_at: String,
    pub next_retry_at: String,
}

/// A count as a signed number of the same width, which is negative from
/// 2147483648 on.
pub open spec fn as_signed(n: u32) -> int {
    if n <= i32::MAX {
        n as int
    } else {
        n - 0x1_0000_0000
    }
}

fn signed(n: u32) -> (r: i32)
    ensures
        r == as_signed(n),
{
    if n <= 2147483647 {
        n as i32
    } else {
        (n as i64 - 0x1_0000_0000) as i32
    }
}

/// Shows a cleanup, with what encoding its payload gave.
pub fn intent_to_proto(intent: &MaintenanceIntent, payload: Result<Vec<u8>, String>) -> (r: Result<
    ProtoIntent,
    Status,
>)
    requires
        intent.created_at.wf(),
        intent.updated_at.wf(),
        intent.next_retry_at is Some ==> intent.next_retry_at->0.wf(),
    ensures
        match (r, payload) {
            (Ok(p), Ok(bytes)) => {
                &&& p.id@ == intent.id@
                &&& p.op@ == "drop_slot_cleanup"@
                &&& p.status@ == intent.status.wire()
                &&& p.payload == bytes
                &&& p.attempts == as_signed(intent.attempts)
                &&& p.last_error@ == intent.last_error@
                &&& p.created_at@ == time_text(Some(intent.created_at))
                &&& p.updated_at@ == time_text(Some(intent.updated_at))
                &&& p.next_retry_at@ == time_text(intent.next_retry_at)
            },
            (Err(s), Err(e)) => s.code == Code::Internal && s.message@
                == "serialize maintenance payload: "@ + e@,
            _ => false,
        },
{
    match payload {
        Ok(bytes) => Ok(
            ProtoIntent {
                id: intent.id.clone(),
                op: intent.payload.op_name().to_owned(),
                status: intent.status.as_wire().to_owned(),
                payload: bytes,
                attempts: signed(intent.attempts),
                last_error: intent.last_error.clone(),
                created_at: time_string(Some(intent.created_at)),
                updated_at: time_string(Some(intent.updated_at)),
                next_retry_at: time_string(intent.next_retry_at),
            },
        ),
        Err(e) => Err(
            Status {
                code: Code::Internal,
                message: text2("serialize maintenance payload: ", e.as_str()),
            },
        ),
    }
}

/// Whether an error of the store says that something does not exist.
pub open spec fn says_missing(e: Seq<char>) -> bool {
    holds_text(e, "No such file or directory"@) || holds_text(lowercased(e), "not found"@)
}

/// The refusal for an error of the store: the cleanup does not exist, or the
/// store is broken.
pub fn map_intent_lookup_error(id: &str, e: &str) -> (r: Status)
    ensures
        if says_missing(e@) {
            r.code == Code::NotFound && r.message@ == "maintenance intent "@ + quoted(id@)
                + " not found"@
        } else {
            r.code == Code::Internal && r.message@ == "maintenance store: "@ + e@
        },
{
    let shown = debug_text(id);
    let lower = lowercase_text(e);
    lookup_refusal(shown.as_str(), e, lower.as_str())
}

/// The refusal for an error of the store, with the id as it is shown and the
/// error in lowercase.
pub fn lookup_refusal(shown_id: &str, e: &str, lower: &str) -> (r: Status)
    ensures
        if holds_text(e@, "No such file or directory"@) || holds_text(lower@, "not found"@) {
            r.code == Code::NotFound && r.message@ == "maintenance intent "@ + shown_id@
                + " not found"@
        } else {
            r.code == Code::Internal && r.message@ == "maintenance store: "@ + e@
        },
{
    if contains_text(e, "No such file or directory") || contains_text(lower, "not found") {
        Status {
            code: Code::NotFound,
            message: text3("maintenance intent ", shown_id, " not found"),
        }
    } else {
        Status { code: Code::Internal, message: text2("maintenance store: ", e) }
    }
}

/// Checks that a cleanup can be tried again at once; none, where it can.
pub fn retry_maintenance(intent: &MaintenanceIntent) -> (r: Option<Result<OpResult, Status>>)
    ensures
        match r {
            None => intent.status == MaintenanceStatus::Pending,
            Some(a) => intent.status != MaintenanceStatus::Pending && answer(a) == no(
                "intent "@ + intent.id@ + " is in status "@ + quoted(intent.status.wire())
                    + "; only pending intents can be retried"@,
            ),
        },
{
    if intent.status == MaintenanceStatus::Pending {
        None
    } else {
        Some(
            decline(
                text5(
                    "intent ",
                    intent.id.as_str(),
                    " is in status ",
                    debug_text(intent.status.as_wire()).as_str(),
                    "; only pending intents can be retried",
                ),
            ),
        )
    }
}

/// The answer once the cleanup was rescheduled, with what that gave.
pub fn retry_answer(id: &str, rescheduled: Result<(), String>) -> (r: Result<OpResult, Status>)
    ensures
        match rescheduled {
            Ok(()) => answer(r) == yes(
                "intent rescheduled; the next maintenance sweep will pick it up"@,
            ),
            Err(e) => answer(r) == if says_missing(e@) {
                missing("maintenance intent "@ + quoted(id@) + " not found"@)
            } else {
                broken("maintenance store: "@ + e@)
            },
        },
{
    match rescheduled {
        Ok(()) => succeed(
            "intent rescheduled; the next maintenance sweep will pick it up".to_owned(),
        ),
        Err(e) => Err(map_intent_lookup_error(id, e.as_str())),
    }
}

/// A standby is dialed only from a node that was seen not to be in recovery,
/// started only once it was dialed, and counts as started only where that
/// succeeded.
pub proof fn law_how_a_standby_is_started(x: RemoteStart, r: Reply)
    ensures
        ({
            let t = x.next(r).stage;
            t == x.stage || match t {
                RemoteStartStage::CheckRole => false,
                RemoteStartStage::Dial => x.stage is CheckRole && r == Reply::Flag(false),
                RemoteStartStage::NotPrimary => x.stage is CheckRole && r == Reply::Flag(true),
                RemoteStartStage::Start => x.stage is Dial && r is Done,
                RemoteStartStage::Started => x.stage is Start && r is Done,
                RemoteStartStage::Failed(step, e) => r == Reply::Failed(e) && match step {
                    RemoteStartStep::CheckRole => x.stage is CheckRole,
                    RemoteStartStep::Dial => x.stage is Dial,
                    RemoteStartStep::Start => x.stage is Start,
                },
            }
        }),
{
}

/// An answer to the call that is due moves the start on, and nothing else does;
/// the standby stays.
pub proof fn law_every_reply_to_a_start_counts(x: RemoteStart, r: Reply)
    ensures
        ({
            let answers = match x.stage {
                RemoteStartStage::CheckRole => r is Flag || r is Failed,
                RemoteStartStage::Dial | RemoteStartStage::Start => r is Done || r is Failed,
                _ => false,
            };
            &&& answers ==> x.next(r).stage != x.stage
            &&& !answers ==> x.next(r) == x
            &&& x.next(r) == (RemoteStart { stage: x.next(r).stage, ..x })
        }),
{
}

/// The standby that was named is dialed and started, and no other node.
pub proof fn law_the_named_standby_is_started(x: RemoteStart)
    ensures
        x.called() == if x.stage is Dial || x.stage is Start {
            Some(x.target)
        } else {
            None
        },
{
}

/// The answer is positive exactly where the standby was started, negative on a
/// node in recovery, and otherwise a refusal that ends with the error.
pub proof fn law_start_tells_the_end(x: RemoteStart)
    ensures
        match x.outcome() {
            None => x.stage is CheckRole || x.stage is Dial || x.stage is Start,
            Some(Answer::Result { ok, message }) => if ok {
                x.stage is Started && message.len() == 0
            } else {
                x.stage is NotPrimary
            },
            Some(Answer::Refusal { code, message }) => code == Code::Internal && x.stage is Failed
                && ends_with(message, x.stage->Failed_1@),
        },
{
    if x.stage is Failed {
        let e = x.stage->Failed_1@;
        let s = x.outcome()->0->Refusal_message;
        assert(s.skip(s.len() - e.len()) =~= e);
    }
}

/// Quorum commit is disarmed only on a node that was seen not to be in recovery,
/// and only once that was journaled; the entry is abandoned exactly where that
/// failed.
pub proof fn law_how_quorum_commit_is_disarmed(x: AllowAsync, r: Reply)
    ensures
        ({
            let t = x.next(r).stage;
            t == x.stage || match t {
                AllowAsyncStage::CheckRole => false,
                AllowAsyncStage::Begin => x.stage is CheckRole && r == Reply::Flag(false),
                AllowAsyncStage::NotPrimary => x.stage is CheckRole && r == Reply::Flag(true),
                AllowAsyncStage::Disarm => x.stage is Begin && r is Begun,
                AllowAsyncStage::Complete => x.stage is Disarm && r is Done,
                AllowAsyncStage::Abandon(e) => x.stage is Disarm && r == Reply::Failed(e),
                AllowAsyncStage::Disarmed => x.stage is Complete && (r is Done || r is Failed),
                AllowAsyncStage::Failed(step, e) => match step {
                    AllowAsyncStep::CheckRole => x.stage is CheckRole && r == Reply::Failed(e),
                    AllowAsyncStep::Begin => x.stage is Begin && r == Reply::Failed(e),
                    AllowAsyncStep::Disarm => x.stage == AllowAsyncStage::Abandon(e) && (r is Done
                        || r is Failed),
                },
            }
        }),
{
}

/// An answer to the call that is due moves the run on, and nothing else does;
/// the entry that is settled is the one that was begun.
pub proof fn law_every_reply_to_a_disarm_counts(x: AllowAsync, r: Reply)
    ensures
        ({
            let answers = match x.stage {
                AllowAsyncStage::CheckRole => r is Flag || r is Failed,
                AllowAsyncStage::Begin => r is Begun || r is Failed,
                AllowAsyncStage::Disarm | AllowAsyncStage::Abandon(_)
                | AllowAsyncStage::Complete => r is Done || r is Failed,
                _ => false,
            };
            &&& answers ==> x.next(r).stage != x.stage
            &&& !answers ==> x.next(r) == x
            &&& x.next(r) == (AllowAsync {
                stage: x.next(r).stage,
                op_id: if x.stage is Begin && r is Begun {
                    r->Begun_0
                } else {
                    x.op_id
                },
                ..x
            })
        }),
{
}

/// The answer is positive exactly where quorum commit was disarmed, negative on
/// a node in recovery, and otherwise a refusal that ends with the error.
pub proof fn law_disarm_tells_the_end(x: AllowAsync)
    ensures
        match x.outcome() {
            None => x.stage is CheckRole || x.stage is Begin || x.stage is Disarm
                || x.stage is Abandon || x.stage is Complete,
            Some(Answer::Result { ok, message }) => if ok {
                x.stage is Disarmed
            } else {
                x.stage is NotPrimary
            },
            Some(Answer::Refusal { code, message }) => code == Code::Internal && x.stage is Failed
                && ends_with(message, x.stage->Failed_1@),
        },
{
    if x.stage is Failed {
        let e = x.stage->Failed_1@;
        let s = x.outcome()->0->Refusal_message;
        assert(s.skip(s.len() - e.len()) =~= e);
    }
}

/// A run that disarmed quorum commit did so, and settled its entry.
pub proof fn law_disarmed_run_did_every_step(m: AllowAsync, replies: Seq<Reply>)
    requires
        m.stage is CheckRole,
    ensures
        after(m, replies).stage is Disarmed ==> performed(
            m,
            replies,
            |x: AllowAsync, r: Reply| x.stage is Disarm && r is Done,
        ) && performed(m, replies, |x: AllowAsync, r: Reply| x.stage is Complete),
{
    lemma_comes_after(
        m,
        replies,
        |x: AllowAsync, r: Reply| x.stage is Disarm && r is Done,
        |x: AllowAsync| x.stage is Complete || x.stage is Disarmed,
        |x: AllowAsync, r: Reply| false,
    );
    lemma_comes_after(
        m,
        replies,
        |x: AllowAsync, r: Reply| x.stage is Complete,
        |x: AllowAsync| x.stage is Disarmed,
        |x: AllowAsync, r: Reply| false,
    );
}

/// A name is read as a status only where it is that status's name on the wire.
pub proof fn law_only_names_on_the_wire_are_read(name: Seq<char>)
    ensures
        inflight_status_of(name) is Some ==> inflight_status_of(name)->0.wire() == name,
        maintenance_status_of(name) is Some ==> maintenance_status_of(name)->0.wire() == name,
{
}

/// No two statuses have one name on the wire.
pub proof fn law_names_on_the_wire_differ(
    a: InflightStatus,
    b: InflightStatus,
    c: MaintenanceStatus,
    d: MaintenanceStatus,
)
    ensures
        a.wire() == b.wire() ==> a == b,
        c.wire() == d.wire() ==> c == d,
{
    law_statuses_round_trip(a, c);
    law_statuses_round_trip(b, d);
}

/// A filter is refused for the first name that cannot be read, and for no
/// other reason.
pub proof fn law_first_bad_name_is_told<S>(
    names: Seq<String>,
    read: spec_fn(Seq<char>) -> Option<S>,
    i: int,
)
    ensures
        0 <= i < names.len() && read(names[i]@) is None && (forall|j: int|
            0 <= j < i ==> read((#[trigger] names[j])@) is Some) ==> first_bad(names, read) == Some(
            names[i]@,
        ),
        (forall|j: int| 0 <= j < names.len() ==> read((#[trigger] names[j])@) is Some) <==> first_bad(
            names,
            read,
        ) is None,
    decreases names.len(),
{
    if names.len() > 0 {
        let rest = names.drop_first();
        law_first_bad_name_is_told(rest, read, i - 1);
        assert(forall|j: int| 0 <= j < rest.len() ==> rest[j] == #[trigger] names[j + 1]);
        if read(names[0]@) is Some {
            if forall|j: int| 0 <= j < rest.len() ==> read((#[trigger] rest[j])@) is Some {
                assert forall|j: int| 0 <= j < names.len() implies read(
                    (#[trigger] names[j])@,
                ) is Some by {
                    if j > 0 {
                        assert(rest[j - 1] == names[j]);
                    }
                }
            }
            if forall|j: int| 0 <= j < names.len() ==> read((#[trigger] names[j])@) is Some {
                assert forall|j: int| 0 <= j < rest.len() implies read(
                    (#[trigger] rest[j])@,
                ) is Some by {
                    assert(names[j + 1] == rest[j]);
                }
            }
            if 0 < i < names.len() && (forall|j: int|
                0 <= j < i ==> read((#[trigger] names[j])@) is Some) {
                assert forall|j: int| 0 <= j < i - 1 implies read(
                    (#[trigger] rest[j])@,
                ) is Some by {
                    assert(names[j + 1] == rest[j]);
                }
                assert(rest[i - 1] == names[i]);
            }
        } else {
            assert(read(names[0]@) is None);
        }
    }
}

/// A count keeps its thirty-two bits.
pub proof fn law_counts_keep_their_bits(n: u32, m: u32)
    ensures
        i32::MIN <= as_signed(n) <= i32::MAX,
        as_signed(n) == n || as_signed(n) + 4_294_967_296 == n,
        as_signed(n) == as_signed(m) ==> n == m,
{
}

/// An error says that something is missing exactly where it holds the words,
/// in this case for a file and in any case otherwise.
pub proof fn law_missing_is_told_by_its_words(e: Seq<char>, a: Seq<char>, b: Seq<char>)
    ensures
        says_missing(a + "No such file or directory"@ + b),
        holds_text(lowercased(e), "not found"@) ==> says_missing(e),
        !holds_text(lowercased(e), "not found"@) && !holds_text(e, "No such file or directory"@)
            ==> !says_missing(e),
{
    let n = "No such file or directory"@;
    let s = a + n + b;
    assert(s.subrange(a.len() as int, (a.len() + n.len()) as int) =~= n);
    assert(stands_at(s, n, a.len() as int));
}

/// A point in time is shown as its own text, and none as nothing.
pub proof fn law_times_are_shown(t: Timestamp)
    ensures
        time_text(Some(t)) == rfc3339_of(t.secs, t.nanos),
        time_text(None).len() == 0,
{
}

} // verus!
