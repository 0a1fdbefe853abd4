//! What the agent does for other nodes' agents.
use crate::inflight_ops::InflightOp;
use crate::orchestration::{
    after, lemma_comes_after, lemma_excludes, performed, Machine, Reply, Turn,
};
use crate::pcp::NodeInfo;
use crate::pgstandby::{
    check_slot, is_name, slot_fault, BasebackupOpts, RewindOpts, WriteRecoveryConfOpts,
};
use crate::status::{
    answer, broken, decline, internal, no, ok, refuse, succeed, yes, Answer, Code,
    OpResult, Status,
};
use crate::text::{
    debug_text, dec, ends_with, holds_text, int_text, join, joined, quoted, same, stands_at, text2,
    text3, text4, views,
};
use vstd::prelude::*;

verus! {

/// The most bytes of WAL that are sent at a time.
pub const WAL_CHUNK_SIZE: usize = 1_048_576;

/// How many reports of progress wait to be sent.
pub const PROGRESS_BUFFER: usize = 16;

/// Milliseconds for which a basebackup waits for PostgreSQL to settle.
pub const SETTLE_LIMIT_MS: u64 = 30_000;

/// Milliseconds between two looks while it waits.
pub const SETTLE_POLL_MS: u64 = 250;

/// Whose certificates are let in.
pub struct PeerTlsConfig {
    /// The hostnames of the pool's members.
    pub allowed_peer_sans: Vec<String>,
}

/// A list of names as it is shown.
pub open spec fn list_text(names: Seq<String>) -> Seq<char> {
    "["@ + joined(views(names).map_values(|n: Seq<char>| quoted(n)), ", "@) + "]"@
}

fn show_list(names: &Vec<String>) -> (r: String)
    ensures
        r@ == list_text(names@),
{
    let mut parts: Vec<String> = Vec::new();
    let mut i: usize = 0;
    while i < names.len()
        invariant
            i <= names.len(),
            parts.len() == i,
            forall|k: int| 0 <= k < i ==> (#[trigger] parts@[k])@ == quoted(names@[k]@),
        decreases names.len() - i,
    {
        parts.push(debug_text(names[i].as_str()));
        i = i + 1;
    }
    assert(views(parts@) =~= views(names@).map_values(|n: Seq<char>| quoted(n)));
    text3("[", join(&parts, ", ").as_str(), "]")
}

impl PeerTlsConfig {
    /// Whether one of `names` is let in.
    pub open spec fn admits(self, names: Seq<String>) -> bool {
        exists|i: int, j: int|
            0 <= i < names.len() && 0 <= j < self.allowed_peer_sans.len() && (
            #[trigger] names[i])@ == (#[trigger] self.allowed_peer_sans@[j])@
    }

    fn allows(&self, name: &str) -> (r: bool)
        ensures
            r == exists|j: int|
                0 <= j < self.allowed_peer_sans.len() && name@ == (
                #[trigger] self.allowed_peer_sans@[j])@,
    {
        let mut j: usize = 0;
        while j < self.allowed_peer_sans.len()
            invariant
                j <= self.allowed_peer_sans.len(),
                forall|k: int| 0 <= k < j ==> name@ != (#[trigger] self.allowed_peer_sans@[k])@,
            decreases self.allowed_peer_sans.len() - j,
        {
            if same(self.allowed_peer_sans[j].as_str(), name) {
                return true;
            }
            j = j + 1;
        }
        false
    }

    /// Lets a peer in whose certificate bears one of the names.
    pub fn check_peer(&self, dns_sans: &Vec<String>) -> (r: Result<(), String>)
        ensures
            match r {
                Ok(()) => self.admits(dns_sans@),
                Err(e) => !self.admits(dns_sans@) && e@ == "peer cert DNS SANs "@ + list_text(
                    dns_sans@,
                ) + " not in allowlist"@,
            },
    {
        let mut i: usize = 0;
        while i < dns_sans.len()
            invariant
                i <= dns_sans.len(),
                forall|k: int, j: int|
                    0 <= k < i && 0 <= j < self.allowed_peer_sans.len() ==> (
                    #[trigger] dns_sans@[k])@ != (#[trigger] self.allowed_peer_sans@[j])@,
            decreases dns_sans.len() - i,
        {
            if self.allows(dns_sans[i].as_str()) {
                return Ok(());
            }
            i = i + 1;
        }
        Err(text3("peer cert DNS SANs ", show_list(dns_sans).as_str(), " not in allowlist"))
    }
}

/// The answer to a plain command, with what carrying it out gave.
pub fn command_answer(done: Result<(), String>) -> (r: Result<OpResult, Status>)
    ensures
        answer(r) == match done {
            Ok(()) => yes(Seq::<char>::empty()),
            Err(e) => broken(e@),
        },
{
    match done {
        Ok(()) => Ok(ok()),
        Err(e) => Err(internal(e)),
    }
}

/// Refuses a name that a slot cannot have.
pub fn validate_slot_name(name: &str) -> (r: Result<(), Status>)
    ensures
        match (r, slot_fault(name@)) {
            (Ok(()), None) => true,
            (Err(s), Some(want)) => s.code == Code::InvalidArgument && s.message@ == want,
            _ => false,
        },
{
    match check_slot(name) {
        Ok(()) => Ok(()),
        Err(e) => Err(Status { code: Code::InvalidArgument, message: e }),
    }
}

/// The call that is due when a slot is to be dropped, or how that ended.
pub enum DropStage {
    /// Ask the journal who owns the slot.
    ConsultOwner,
    /// Drop the slot.
    Drop,
    /// An orchestration owns the slot.
    Retained(InflightOp),
    /// The slot could not be dropped.
    Failed(String),
    /// The slot was dropped.
    Dropped,
}

/// A slot that is to be dropped.
pub struct DropSlot {
    pub slot_name: String,
    pub stage: DropStage,
}

impl Machine for DropSlot {
    open spec fn next(self, reply: Reply) -> Self {
        DropSlot {
            stage: match (self.stage, reply) {
                (DropStage::ConsultOwner, Reply::Entry(Some(op))) => DropStage::Retained(op),
                (DropStage::ConsultOwner, Reply::Entry(None) | Reply::Failed(_)) => DropStage::Drop,
                (DropStage::Drop, Reply::Done) => DropStage::Dropped,
                (DropStage::Drop, Reply::Failed(e)) => DropStage::Failed(e),
                (s, _) => s,
            },
            ..self
        }
    }
}

impl DropSlot {
    /// Takes a request.
    pub fn new(slot_name: String) -> (r: Result<DropSlot, Status>)
        ensures
            match (r, slot_fault(slot_name@)) {
                (Ok(m), None) => m == (DropSlot { slot_name, stage: DropStage::ConsultOwner }),
                (Err(s), Some(want)) => s.code == Code::InvalidArgument && s.message@ == want,
                _ => false,
            },
    {
        match validate_slot_name(slot_name.as_str()) {
            Ok(()) => Ok(DropSlot { slot_name, stage: DropStage::ConsultOwner }),
            Err(s) => Err(s),
        }
    }

    /// Takes the reply to the call that was due.
    pub fn step(self, reply: Reply) -> (r: Self)
        ensures
            r == self.next(reply),
    {
        let stage = match (self.stage, reply) {
            (DropStage::ConsultOwner, Reply::Entry(Some(op))) => DropStage::Retained(op),
            (DropStage::ConsultOwner, Reply::Entry(None)) => DropStage::Drop,
            (DropStage::ConsultOwner, Reply::Failed(_)) => DropStage::Drop,
            (DropStage::Drop, Reply::Done) => DropStage::Dropped,
            (DropStage::Drop, Reply::Failed(e)) => DropStage::Failed(e),
            (s, _) => s,
        };
        DropSlot { stage, ..self }
    }

    /// The answer, once there is one. That a slot is retained is a positive
    /// answer: there is nothing left to clean up.
    pub open spec fn outcome(self) -> Option<Answer> {
        match self.stage {
            DropStage::Retained(op) => Some(
                yes(
                    "slot "@ + self.slot_name@ + " retained: in-flight "@ + op.payload.name()
                        + " (id="@ + op.id@ + ", phase="@ + op.phase@ + ") owns it"@,
                ),
            ),
            DropStage::Failed(e) => Some(broken(e@)),
            DropStage::Dropped => Some(yes(Seq::<char>::empty())),
            _ => None,
        }
    }

    /// The answer, once there is one.
    pub fn answer(&self) -> (r: Option<Result<OpResult, Status>>)
        ensures
            match (r, self.outcome()) {
                (Some(a), Some(want)) => answer(a) == want,
                (None, None) => true,
                _ => false,
            },
    {
        match &self.stage {
            DropStage::Retained(op) => {
                let mut s = text4(
                    "slot ",
                    self.slot_name.as_str(),
                    " retained: in-flight ",
                    op.payload.op_name(),
                );
                s.append(" (id=");
                s.append(op.id.as_str());
                s.append(", phase=");
                s.append(op.phase.as_str());
                s.append(") owns it");
                Some(succeed(s))
            },
            DropStage::Failed(e) => Some(refuse(Code::Internal, e.clone())),
            DropStage::Dropped => Some(Ok(ok())),
            _ => None,
        }
    }
}

/// A slot that an orchestration owns is never dropped.
pub proof fn law_owned_slot_is_retained(m: DropSlot, replies: Seq<Reply>)
    requires
        performed(
            m,
            replies,
            |x: DropSlot, r: Reply| x.stage is ConsultOwner && r is Entry && r->Entry_0 is Some,
        ),
    ensures
        !performed(m, replies, |x: DropSlot, r: Reply| x.stage is Drop),
        after(m, replies).stage is Retained,
{
    lemma_excludes(
        m,
        replies,
        |x: DropSlot, r: Reply| x.stage is ConsultOwner && r is Entry && r->Entry_0 is Some,
        |x: DropSlot| x.stage is Retained,
        |x: DropSlot, r: Reply| x.stage is Drop,
        |x: DropSlot| !(x.stage is ConsultOwner),
    );
}

/// Whether pgpool holds backend `id` down.
pub open spec fn holds_down(infos: Seq<NodeInfo>, id: i32) -> bool {
    exists|i: int| 0 <= i < infos.len() && (#[trigger] infos[i]).id == id && !infos[i].up()
}

fn is_down(infos: &Vec<NodeInfo>, id: i32) -> (r: bool)
    ensures
        r == holds_down(infos@, id),
{
    let mut i: usize = 0;
    while i < infos.len()
        invariant
            i <= infos.len(),
            forall|k: int| 0 <= k < i ==> !((#[trigger] infos@[k]).id == id && !infos@[k].up()),
        decreases infos.len() - i,
    {
        if infos[i].id == id && !infos[i].is_up() {
            return true;
        }
        i = i + 1;
    }
    false
}

/// The call that is due when a backend is to be attached, or how that ended.
pub enum AttachStage {
    /// Attach the primary's backend.
    AttachPrimary,
    /// Attach the backend.
    AttachNode,
    /// The primary's backend could not be attached.
    PrimaryFailed(String),
    /// The backend could not be attached.
    NodeFailed(String),
    /// The backend is not down.
    NotDown,
    /// The backend was attached.
    Attached,
}

/// A backend that is to be attached here.
pub struct AttachNode {
    pub node_id: i32,
    pub primary_node_id: i32,
    /// Whether the backend was found down.
    pub node_down: bool,
    pub stage: AttachStage,
}

/// The stage once the primary's backend is no obstacle.
pub open spec fn attach_entry(node_down: bool) -> AttachStage {
    if node_down {
        AttachStage::AttachNode
    } else {
        AttachStage::NotDown
    }
}

impl Machine for AttachNode {
    open spec fn next(self, reply: Reply) -> Self {
        AttachNode {
            stage: match (self.stage, reply) {
                (AttachStage::AttachPrimary, Reply::Done) => attach_entry(self.node_down),
                (AttachStage::AttachPrimary, Reply::Failed(e)) => AttachStage::PrimaryFailed(e),
                (AttachStage::AttachNode, Reply::Done) => AttachStage::Attached,
                (AttachStage::AttachNode, Reply::Failed(e)) => AttachStage::NodeFailed(e),
                (s, _) => s,
            },
            ..self
        }
    }
}

impl AttachNode {
    /// Takes a request, with pgpool's view of its backends. A backend is
    /// attached only where pgpool holds it down, and behind the primary's
    /// where that is down too.
    pub fn new(node_id: i32, primary_node_id: i32, infos: Result<Vec<NodeInfo>, String>) -> (r: Turn<
        AttachNode,
    >)
        ensures
            match infos {
                Err(e) => r is Answer && answer(r->Answer_0) == no(
                    "attach_node: local pgpool map unavailable: "@ + e@,
                ),
                Ok(v) => r == Turn::Ask(
                    AttachNode {
                        node_id,
                        primary_node_id,
                        node_down: holds_down(v@, node_id),
                        stage: if primary_node_id != node_id && holds_down(v@, primary_node_id) {
                            AttachStage::AttachPrimary
                        } else {
                            attach_entry(holds_down(v@, node_id))
                        },
                    },
                ),
            },
    {
        match infos {
            Err(e) => Turn::Answer(
                decline(text2("attach_node: local pgpool map unavailable: ", e.as_str())),
            ),
            Ok(v) => {
                let node_down = is_down(&v, node_id);
                let stage = if primary_node_id != node_id && is_down(&v, primary_node_id) {
                    AttachStage::AttachPrimary
                } else if node_down {
                    AttachStage::AttachNode
                } else {
                    AttachStage::NotDown
                };
                Turn::Ask(AttachNode { node_id, primary_node_id, node_down, stage })
            },
        }
    }

    /// Takes the reply to the call that was due.
    pub fn step(self, reply: Reply) -> (r: Self)
        ensures
            r == self.next(reply),
    {
        let node_down = self.node_down;
        let stage = match (self.stage, reply) {
            (AttachStage::AttachPrimary, Reply::Done) => {
                if node_down {
                    AttachStage::AttachNode
                } else {
                    AttachStage::NotDown
                }
            },
            (AttachStage::AttachPrimary, Reply::Failed(e)) => AttachStage::PrimaryFailed(e),
            (AttachStage::AttachNode, Reply::Done) => AttachStage::Attached,
            (AttachStage::AttachNode, Reply::Failed(e)) => AttachStage::NodeFailed(e),
            (s, _) => s,
        };
        AttachNode { stage, ..self }
    }

    /// The answer, once there is one.
    pub open spec fn outcome(self) -> Option<Answer> {
        match self.stage {
            AttachStage::PrimaryFailed(e) => Some(
                no(
                    "attach_node: refusing to attach node "@ + dec(self.node_id as int)
                        + " into a primary-less map — attaching primary backend "@ + dec(
                        self.primary_node_id as int,
                    ) + " first failed: "@ + e@,
                ),
            ),
            AttachStage::NodeFailed(e) => Some(
                no("attach_node: pcp_attach_node("@ + dec(self.node_id as int) + "): "@ + e@),
            ),
            AttachStage::NotDown => Some(
                yes(
                    "attach_node: backend "@ + dec(self.node_id as int)
                        + " already up (or absent) on this instance; no action"@,
                ),
            ),
            AttachStage::Attached => Some(
                yes("attach_node: backend "@ + dec(self.node_id as int) + " attached"@),
            ),
            _ => None,
        }
    }

    /// The answer, once there is one.
    pub fn answer(&self) -> (r: Option<Result<OpResult, Status>>)
        ensures
            match (r, self.outcome()) {
                (Some(a), Some(want)) => answer(a) == want,
                (None, None) => true,
                _ => false,
            },
    {
        let node = int_text(self.node_id as i64);
        match &self.stage {
            AttachStage::PrimaryFailed(e) => {
                let mut s = text4(
                    "attach_node: refusing to attach node ",
                    node.as_str(),
                    " into a primary-less map — attaching primary backend ",
                    int_text(self.primary_node_id as i64).as_str(),
                );
                s.append(" first failed: ");
                s.append(e.as_str());
                Some(decline(s))
            },
            AttachStage::NodeFailed(e) => Some(
                decline(
                    text4("attach_node: pcp_attach_node(", node.as_str(), "): ", e.as_str()),
                ),
            ),
            AttachStage::NotDown => Some(
                succeed(
                    text3(
                        "attach_node: backend ",
                        node.as_str(),
                        " already up (or absent) on this instance; no action",
                    ),
                ),
            ),
            AttachStage::Attached => Some(
                succeed(text3("attach_node: backend ", node.as_str(), " attached")),
            ),
            _ => None,
        }
    }
}

/// Whether `m` is the answer to a request with pgpool's view `infos`, at its
/// start.
pub open spec fn attach_starts(m: AttachNode, infos: Seq<NodeInfo>) -> bool {
    &&& m.node_down == holds_down(infos, m.node_id)
    &&& m.stage == if m.primary_node_id != m.node_id && holds_down(infos, m.primary_node_id) {
        AttachStage::AttachPrimary
    } else {
        attach_entry(m.node_down)
    }
}

/// A backend that is up is left alone, and one is attached only once the
/// primary's backend is attached where that was down.
pub proof fn law_attach_only_what_is_down_primary_first(
    m: AttachNode,
    infos: Seq<NodeInfo>,
    replies: Seq<Reply>,
)
    requires
        attach_starts(m, infos),
        performed(m, replies, |x: AttachNode, r: Reply| x.stage is AttachNode),
    ensures
        holds_down(infos, m.node_id),
        m.primary_node_id != m.node_id && holds_down(infos, m.primary_node_id) ==> performed(
            m,
            replies,
            |x: AttachNode, r: Reply| x.stage is AttachPrimary && r is Done,
        ),
{
    if !holds_down(infos, m.node_id) {
        lemma_comes_after(
            m,
            replies,
            |x: AttachNode, r: Reply| false,
            |x: AttachNode| x.stage is AttachNode || x.node_down,
            |x: AttachNode, r: Reply| x.stage is AttachNode,
        );
        lemma_never(m, replies);
    }
    if m.stage is AttachPrimary {
        lemma_comes_after(
            m,
            replies,
            |x: AttachNode, r: Reply| x.stage is AttachPrimary && r is Done,
            |x: AttachNode| x.stage is AttachNode,
            |x: AttachNode, r: Reply| x.stage is AttachNode,
        );
    }
}

proof fn lemma_never(m: AttachNode, replies: Seq<Reply>)
    ensures
        !performed(m, replies, |x: AttachNode, r: Reply| false),
    decreases replies.len(),
{
    if replies.len() > 0 {
        lemma_never(m, replies.drop_last());
    }
}

/// A port as it comes over the wire.
pub open spec fn port_in(port: i32) -> Option<u16> {
    if 0 <= port <= 65535 {
        Some(port as u16)
    } else {
        None
    }
}

fn port_of(port: i32) -> (r: Result<u16, Status>)
    ensures
        match (r, port_in(port)) {
            (Ok(p), Some(want)) => p == want,
            (Err(s), None) => s.code == Code::InvalidArgument && s.message@
                == "primary_port must fit in u16 and be > 0"@,
            _ => false,
        },
{
    if 0 <= port && port <= 65535 {
        Ok(port as u16)
    } else {
        Err(
            Status {
                code: Code::InvalidArgument,
                message: "primary_port must fit in u16 and be > 0".to_owned(),
            },
        )
    }
}

/// Whether `r` refuses an argument with `message`.
pub open spec fn refuses<T>(r: Result<T, Status>, message: Seq<char>) -> bool {
    r is Err && r->Err_0.code == Code::InvalidArgument && r->Err_0.message@ == message
}

/// Takes a request to configure this node as a standby.
pub fn configure_standby(
    primary_host: String,
    primary_port: i32,
    repl_user: String,
    slot_name: String,
) -> (r: Result<WriteRecoveryConfOpts, Status>)
    ensures
        match port_in(primary_port) {
            None => refuses(r, "primary_port must fit in u16 and be > 0"@),
            Some(port) => {
                let opts = WriteRecoveryConfOpts {
                    primary_host,
                    primary_port: port,
                    repl_user,
                    slot_name,
                };
                match opts.fault() {
                    Some(e) => refuses(r, "invalid configure_standby: "@ + e),
                    None => r == Ok::<WriteRecoveryConfOpts, Status>(opts),
                }
            },
        },
{
    let primary_port = match port_of(primary_port) {
        Ok(p) => p,
        Err(s) => {
            return Err(s);
        },
    };
    let opts = WriteRecoveryConfOpts { primary_host, primary_port, repl_user, slot_name };
    match opts.validate() {
        Ok(()) => Ok(opts),
        Err(e) => Err(
            Status {
                code: Code::InvalidArgument,
                message: text2("invalid configure_standby: ", e.as_str()),
            },
        ),
    }
}

/// Takes a request to copy a primary onto this node.
pub fn basebackup(
    primary_host: String,
    primary_port: i32,
    repl_user: String,
    slot_name: String,
) -> (r: Result<BasebackupOpts, Status>)
    ensures
        match port_in(primary_port) {
            None => refuses(r, "primary_port must fit in u16 and be > 0"@),
            Some(port) => {
                let opts = BasebackupOpts {
                    primary_host,
                    primary_port: port,
                    repl_user,
                    slot_name,
                };
                match opts.fault() {
                    Some(e) => refuses(r, "invalid basebackup: "@ + e),
                    None => r == Ok::<BasebackupOpts, Status>(opts),
                }
            },
        },
{
    let primary_port = match port_of(primary_port) {
        Ok(p) => p,
        Err(s) => {
            return Err(s);
        },
    };
    let opts = BasebackupOpts { primary_host, primary_port, repl_user, slot_name };
    match opts.validate() {
        Ok(()) => Ok(opts),
        Err(e) => Err(
            Status {
                code: Code::InvalidArgument,
                message: text2("invalid basebackup: ", e.as_str()),
            },
        ),
    }
}

/// Takes a request to rewind this node to a primary.
pub fn rewind(primary_host: String, primary_port: i32, repl_user: String) -> (r: Result<
    RewindOpts,
    Status,
>)
    ensures
        match port_in(primary_port) {
            None => refuses(r, "primary_port must fit in u16 and be > 0"@),
            Some(port) => {
                let opts = RewindOpts { primary_host, primary_port: port, repl_user };
                match opts.fault() {
                    Some(e) => refuses(r, "invalid rewind: "@ + e),
                    None => r == Ok::<RewindOpts, Status>(opts),
                }
            },
        },
{
    let primary_port = match port_of(primary_port) {
        Ok(p) => p,
        Err(s) => {
            return Err(s);
        },
    };
    let opts = RewindOpts { primary_host, primary_port, repl_user };
    match opts.validate() {
        Ok(()) => Ok(opts),
        Err(e) => Err(
            Status { code: Code::InvalidArgument, message: text2("invalid rewind: ", e.as_str()) },
        ),
    }
}

/// Options that pass have a port and names that mean nothing to a shell or a
/// connection string.
pub proof fn law_accepted_options_are_sound(opts: BasebackupOpts)
    requires
        opts.fault() is None,
    ensures
        opts.primary_port > 0,
        is_name(opts.slot_name@),
        is_name(opts.repl_user@),
        forall|i: int|
            0 <= i < opts.primary_host@.len() ==> #[trigger] opts.primary_host@[i] != ' '
                && opts.primary_host@[i] != '\'' && opts.primary_host@[i] != '=',
{
}

/// The call that is due before the data directory may be emptied, or how that
/// ended.
pub enum GateStage {
    /// Ask whether PostgreSQL is about to start or to stop.
    AskSettling,
    /// Wait, and ask again.
    Wait,
    /// Ask whether PostgreSQL runs.
    AskRunning,
    /// PostgreSQL did not settle in time.
    Stuck,
    /// PostgreSQL runs.
    Running,
    /// A question was not answered.
    Failed(String),
    /// The data directory may be emptied.
    Clear,
}

/// The check that no PostgreSQL owns the data directory.
pub struct BasebackupGate {
    pub stage: GateStage,
}

impl BasebackupGate {
    /// The check at its start.
    pub fn new() -> (r: BasebackupGate)
        ensures
            r.stage == GateStage::AskSettling,
    {
        BasebackupGate { stage: GateStage::AskSettling }
    }

    /// The stage after `stage` got `reply`, `elapsed_ms` milliseconds after
    /// the start.
    pub open spec fn passed(stage: GateStage, reply: Reply, elapsed_ms: u64) -> GateStage {
        match (stage, reply) {
            (GateStage::AskSettling, Reply::Flag(settling)) => if !settling {
                GateStage::AskRunning
            } else if elapsed_ms >= SETTLE_LIMIT_MS {
                GateStage::Stuck
            } else {
                GateStage::Wait
            },
            (GateStage::AskSettling, Reply::Failed(e)) => GateStage::Failed(e),
            (GateStage::Wait, Reply::Done) => GateStage::AskSettling,
            (GateStage::AskRunning, Reply::Flag(running)) => if running {
                GateStage::Running
            } else {
                GateStage::Clear
            },
            (GateStage::AskRunning, Reply::Failed(e)) => GateStage::Failed(e),
            (s, _) => s,
        }
    }

    /// Takes the reply to the call that was due.
    pub fn step(self, reply: Reply, elapsed_ms: u64) -> (r: Self)
        ensures
            r.stage == BasebackupGate::passed(self.stage, reply, elapsed_ms),
    {
        let stage = match (self.stage, reply) {
            (GateStage::AskSettling, Reply::Flag(settling)) => {
                if !settling {
                    GateStage::AskRunning
                } else if elapsed_ms >= SETTLE_LIMIT_MS {
                    GateStage::Stuck
                } else {
                    GateStage::Wait
                }
            },
            (GateStage::AskSettling, Reply::Failed(e)) => GateStage::Failed(e),
            (GateStage::Wait, Reply::Done) => GateStage::AskSettling,
            (GateStage::AskRunning, Reply::Flag(running)) => {
                if running {
                    GateStage::Running
                } else {
                    GateStage::Clear
                }
            },
            (GateStage::AskRunning, Reply::Failed(e)) => GateStage::Failed(e),
            (s, _) => s,
        };
        BasebackupGate { stage }
    }

    /// The refusal, where there is one.
    pub fn refusal(&self) -> (r: Option<Status>)
        ensures
            match (r, self.stage) {
                (Some(s), GateStage::Stuck) => s.code == Code::FailedPrecondition && s.message@
                    == "refusing to basebackup: postgres unit stuck in a transitional state for 30s (mid-start or mid-shutdown owns $PGDATA)"@,
                (Some(s), GateStage::Running) => s.code == Code::FailedPrecondition && s.message@
                    == "refusing to basebackup while postgres is running"@,
                (Some(s), GateStage::Failed(e)) => s.code == Code::Internal && s.message@ == e@,
                (Some(_), _) => false,
                (None, stage) => !(stage is Stuck || stage is Running || stage is Failed),
            },
    {
        match &self.stage {
            GateStage::Stuck => Some(
                Status {
                    code: Code::FailedPrecondition,
                    message: "refusing to basebackup: postgres unit stuck in a transitional state for 30s (mid-start or mid-shutdown owns $PGDATA)".to_owned(),
                },
            ),
            GateStage::Running => Some(
                Status {
                    code: Code::FailedPrecondition,
                    message: "refusing to basebackup while postgres is running".to_owned(),
                },
            ),
            GateStage::Failed(e) => Some(Status { code: Code::Internal, message: e.clone() }),
            _ => None,
        }
    }
}

/// The data directory may be emptied only where PostgreSQL was just seen not
/// to run.
pub proof fn law_running_data_is_not_emptied(stage: GateStage, reply: Reply, elapsed_ms: u64)
    requires
        !(stage is Clear),
        BasebackupGate::passed(stage, reply, elapsed_ms) is Clear,
    ensures
        stage is AskRunning,
        reply == Reply::Flag(false),
{
}

/// A report of progress.
pub struct OpProgress {
    pub phase: String,
    pub bytes_done: i64,
    pub bytes_total: i64,
    pub message: String,
}

/// Work whose progress is streamed.
#[derive(Clone, Copy, Debug, PartialEq, Eq, Structural)]
pub enum StreamedOp {
    /// The data directory is copied afresh.
    Basebackup,
    /// The data directory is rewound.
    Rewind,
}

impl StreamedOp {
    /// The phase that is reported while the work goes on.
    pub open spec fn phase(self) -> Seq<char> {
        match self {
            StreamedOp::Basebackup => "streaming"@,
            StreamedOp::Rewind => "rewinding"@,
        }
    }

    fn phase_name(self) -> (r: &'static str)
        ensures
            r@ == self.phase(),
    {
        match self {
            StreamedOp::Basebackup => "streaming",
            StreamedOp::Rewind => "rewinding",
        }
    }
}

/// No report on the way reads like the last one.
pub proof fn law_only_the_last_report_is_done(op: StreamedOp)
    ensures
        op.phase() != "done"@,
{
    reveal_strlit("streaming");
    reveal_strlit("rewinding");
    reveal_strlit("done");
    assert("streaming"@.len() == 9);
    assert("rewinding"@.len() == 9);
    assert("done"@.len() == 4);
}

/// A report of progress while the work goes on.
pub fn progress_event(op: StreamedOp, done: i64, total: i64) -> (r: OpProgress)
    ensures
        r.phase@ == op.phase(),
        r.bytes_done == done,
        r.bytes_total == total,
        r.message@ == Seq::<char>::empty(),
{
    OpProgress {
        phase: op.phase_name().to_owned(),
        bytes_done: done,
        bytes_total: total,
        message: String::new(),
    }
}

/// The last report: that the work is done, or the error with which it failed.
pub fn final_event(op: StreamedOp, result: Result<(), String>) -> (r: Result<OpProgress, Status>)
    ensures
        match (r, result) {
            (Ok(p), Ok(())) => p.phase@ == "done"@ && p.bytes_done == 0 && p.bytes_total == 0
                && p.message@ == Seq::<char>::empty(),
            (Err(s), Err(e)) => s.code == Code::Internal && s.message@ == op.phase() + ": "@ + e@,
            _ => false,
        },
{
    match result {
        Ok(()) => Ok(
            OpProgress {
                phase: "done".to_owned(),
                bytes_done: 0,
                bytes_total: 0,
                message: String::new(),
            },
        ),
        Err(e) => Err(
            Status {
                code: Code::Internal,
                message: text3(op.phase_name(), ": ", e.as_str()),
            },
        ),
    }
}

/// Why a segment of WAL could not be opened.
pub enum WalOpenError {
    /// There is no such segment.
    NotFound(String),
    /// The name is none of a segment.
    Invalid { wal_file: String, reason: String },
    /// Something else.
    Other(String),
}

/// Refuses a request for WAL that names no segment.
pub fn fetch_wal(wal_file: &str) -> (r: Result<(), Status>)
    ensures
        match r {
            Ok(()) => wal_file@.len() > 0,
            Err(s) => wal_file@.len() == 0 && s.code == Code::InvalidArgument && s.message@
                == "wal_file is required"@,
        },
{
    if wal_file.is_empty() {
        Err(Status { code: Code::InvalidArgument, message: "wal_file is required".to_owned() })
    } else {
        Ok(())
    }
}

/// The refusal for a segment that could not be opened.
pub fn wal_open_failed(wal_file: &str, e: WalOpenError) -> (r: Status)
    ensures
        match e {
            WalOpenError::NotFound(name) => r.code == Code::NotFound && r.message@
                == "WAL segment not found: "@ + name@,
            WalOpenError::Invalid { wal_file: name, reason } => r.code == Code::InvalidArgument
                && r.message@ == "invalid wal_file "@ + quoted(name@) + ": "@ + reason@,
            WalOpenError::Other(other) => r.code == Code::Internal && r.message@ == "open "@
                + wal_file@ + ": "@ + other@,
        },
{
    match e {
        WalOpenError::NotFound(name) => Status {
            code: Code::NotFound,
            message: text2("WAL segment not found: ", name.as_str()),
        },
        WalOpenError::Invalid { wal_file: name, reason } => Status {
            code: Code::InvalidArgument,
            message: text4(
                "invalid wal_file ",
                debug_text(name.as_str()).as_str(),
                ": ",
                reason.as_str(),
            ),
        },
        WalOpenError::Other(other) => Status {
            code: Code::Internal,
            message: text4("open ", wal_file, ": ", other.as_str()),
        },
    }
}

/// A slot is dropped only where the journal names no owner, or cannot be read,
/// and retained only for an owner that it names.
pub proof fn law_how_a_slot_is_dropped(x: DropSlot, r: Reply)
    ensures
        ({
            let t = x.next(r).stage;
            t == x.stage || match t {
                DropStage::ConsultOwner => false,
                DropStage::Drop => x.stage is ConsultOwner && (r == Reply::Entry(None)
                    || r is Failed),
                DropStage::Retained(op) => x.stage is ConsultOwner && r == Reply::Entry(Some(op)),
                DropStage::Failed(e) => x.stage is Drop && r == Reply::Failed(e),
                DropStage::Dropped => x.stage is Drop && r is Done,
            }
        }),
{
}

/// An answer to the call that is due moves the drop on, and nothing else does;
/// the slot stays.
pub proof fn law_every_reply_to_a_drop_counts(x: DropSlot, r: Reply)
    ensures
        ({
            let answers = match x.stage {
                DropStage::ConsultOwner => r is Entry || r is Failed,
                DropStage::Drop => r is Done || r is Failed,
                _ => false,
            };
            &&& answers ==> x.next(r).stage != x.stage
            &&& !answers ==> x.next(r) == x
            &&& x.next(r) == (DropSlot { stage: x.next(r).stage, ..x })
        }),
{
}

/// The answer is positive exactly where the slot was dropped or is retained,
/// which it then tells with the owner; otherwise it is the error.
pub proof fn law_drops_tell_the_end(x: DropSlot)
    ensures
        match x.outcome() {
            None => x.stage is ConsultOwner || x.stage is Drop,
            Some(Answer::Result { ok, message }) => ok && match x.stage {
                DropStage::Dropped => message.len() == 0,
                DropStage::Retained(op) => holds_text(message, op.id@) && holds_text(
                    message,
                    x.slot_name@,
                ),
                _ => false,
            },
            Some(Answer::Refusal { code, message }) => code == Code::Internal && x.stage is Failed
                && message == x.stage->Failed_0@,
        },
{
    if let DropStage::Retained(op) = x.stage {
        let s = x.outcome()->0->Result_message;
        let a = "slot "@.len() as int;
        assert(s.subrange(a, a + x.slot_name@.len()) =~= x.slot_name@);
        assert(stands_at(s, x.slot_name@, a));
        let b = a + x.slot_name@.len() + " retained: in-flight "@.len() + op.payload.name().len()
            + " (id="@.len();
        assert(s.subrange(b, b + op.id@.len()) =~= op.id@);
        assert(stands_at(s, op.id@, b));
    }
}

/// Behind the primary's backend a backend is attached exactly where it was found
/// down, and it counts as attached only where that succeeded.
pub proof fn law_how_a_backend_is_attached(x: AttachNode, r: Reply)
    ensures
        ({
            let t = x.next(r).stage;
            t == x.stage || match t {
                AttachStage::AttachPrimary => false,
                AttachStage::AttachNode => x.stage is AttachPrimary && r is Done && x.node_down,
                AttachStage::NotDown => x.stage is AttachPrimary && r is Done && !x.node_down,
                AttachStage::PrimaryFailed(e) => x.stage is AttachPrimary && r == Reply::Failed(e),
                AttachStage::NodeFailed(e) => x.stage is AttachNode && r == Reply::Failed(e),
                AttachStage::Attached => x.stage is AttachNode && r is Done,
            }
        }),
{
}

/// An answer to the call that is due moves the attaching on, and nothing else
/// does; the backends stay.
pub proof fn law_every_reply_to_an_attach_counts(x: AttachNode, r: Reply)
    ensures
        ({
            let answers = (x.stage is AttachPrimary || x.stage is AttachNode) && (r is Done
                || r is Failed);
            &&& answers ==> x.next(r).stage != x.stage
            &&& !answers ==> x.next(r) == x
            &&& x.next(r) == (AttachNode { stage: x.next(r).stage, ..x })
        }),
{
}

/// A backend is down exactly where pgpool lists it with a status other than
/// waiting or up.
pub proof fn law_what_pgpool_holds_down(infos: Seq<NodeInfo>, id: i32)
    ensures
        holds_down(infos, id) <==> exists|i: int|
            0 <= i < infos.len() && (#[trigger] infos[i]).id == id && (infos[i].status_code == 0
                || infos[i].status_code >= 3),
{
    if holds_down(infos, id) {
        let i = choose|i: int|
            0 <= i < infos.len() && (#[trigger] infos[i]).id == id && !infos[i].up();
        assert(infos[i].status_code == 0 || infos[i].status_code >= 3);
    }
    if exists|i: int|
        0 <= i < infos.len() && (#[trigger] infos[i]).id == id && (infos[i].status_code == 0
            || infos[i].status_code >= 3) {
        let i = choose|i: int|
            0 <= i < infos.len() && (#[trigger] infos[i]).id == id && (infos[i].status_code == 0
                || infos[i].status_code >= 3);
        assert(!infos[i].up());
    }
}

/// A request starts with the primary's backend where that is another one and
/// down, with the backend itself where only that is down, and with nothing
/// where neither is.
pub proof fn law_where_an_attach_starts(m: AttachNode, infos: Seq<NodeInfo>)
    requires
        attach_starts(m, infos),
    ensures
        m.stage is AttachPrimary <==> m.primary_node_id != m.node_id && holds_down(
            infos,
            m.primary_node_id,
        ),
        !(m.stage is AttachPrimary) ==> (m.stage is AttachNode <==> holds_down(infos, m.node_id)),
        !(m.stage is AttachPrimary || m.stage is AttachNode) ==> m.stage is NotDown,
        m.node_down <==> holds_down(infos, m.node_id),
{
}

/// The answer is positive exactly where the backend was attached or is not
/// down, and otherwise negative, with the error at its end.
pub proof fn law_attaching_tells_the_end(x: AttachNode)
    ensures
        match x.outcome() {
            None => x.stage is AttachPrimary || x.stage is AttachNode,
            Some(Answer::Result { ok, message }) => match x.stage {
                AttachStage::Attached | AttachStage::NotDown => ok,
                AttachStage::PrimaryFailed(e) => !ok && ends_with(message, e@),
                AttachStage::NodeFailed(e) => !ok && ends_with(message, e@),
                _ => false,
            },
            Some(Answer::Refusal { .. }) => false,
        },
{
    match x.stage {
        AttachStage::PrimaryFailed(e) | AttachStage::NodeFailed(e) => {
            let s = x.outcome()->0->Result_message;
            assert(s.skip(s.len() - e@.len()) =~= e@);
        },
        _ => {},
    }
}

/// A port is accepted exactly where it fits in sixteen bits, and kept.
pub proof fn law_ports_that_fit(port: i32)
    ensures
        port_in(port) is Some <==> 0 <= port < 65536,
        port_in(port) is Some ==> port_in(port)->0 == port,
{
}

/// Whether PostgreSQL runs is asked only where it was seen settled; while it is
/// not, it is waited for until thirty seconds have passed, and no longer.
pub proof fn law_how_the_gate_opens(s: GateStage, r: Reply, elapsed_ms: u64)
    ensures
        ({
            let t = BasebackupGate::passed(s, r, elapsed_ms);
            t == s || match t {
                GateStage::AskSettling => s is Wait && r is Done,
                GateStage::Wait => s is AskSettling && r == Reply::Flag(true)
                    && elapsed_ms < 30_000,
                GateStage::Stuck => s is AskSettling && r == Reply::Flag(true) && elapsed_ms
                    >= 30_000,
                GateStage::AskRunning => s is AskSettling && r == Reply::Flag(false),
                GateStage::Running => s is AskRunning && r == Reply::Flag(true),
                GateStage::Clear => s is AskRunning && r == Reply::Flag(false),
                GateStage::Failed(e) => (s is AskSettling || s is AskRunning) && r == Reply::Failed(
                    e,
                ),
            }
        }),
        ({
            let answers = match s {
                GateStage::AskSettling | GateStage::AskRunning => r is Flag || r is Failed,
                GateStage::Wait => r is Done,
                _ => false,
            };
            answers <==> BasebackupGate::passed(s, r, elapsed_ms) != s
        }),
{
}

/// A certificate is let in exactly where it bears the name of a member.
pub proof fn law_who_is_let_in(c: PeerTlsConfig, names: Seq<String>)
    ensures
        c.admits(names) <==> exists|n: Seq<char>|
            #[trigger] views(names).contains(n) && views(c.allowed_peer_sans@).contains(n),
{
    if c.admits(names) {
        let (i, j) = choose|i: int, j: int|
            0 <= i < names.len() && 0 <= j < c.allowed_peer_sans.len() && (
            #[trigger] names[i])@ == (#[trigger] c.allowed_peer_sans@[j])@;
        assert(views(names)[i] == names[i]@);
        assert(views(c.allowed_peer_sans@)[j] == names[i]@);
        assert(views(names).contains(names[i]@));
    }
    if exists|n: Seq<char>|
        #[trigger] views(names).contains(n) && views(c.allowed_peer_sans@).contains(n) {
        let n = choose|n: Seq<char>|
            #[trigger] views(names).contains(n) && views(c.allowed_peer_sans@).contains(n);
        let i = choose|i: int| 0 <= i < views(names).len() && views(names)[i] == n;
        let j = choose|j: int|
            0 <= j < views(c.allowed_peer_sans@).len() && views(c.allowed_peer_sans@)[j] == n;
        assert(names[i]@ == n && c.allowed_peer_sans@[j]@ == n);
    }
}

/// The two kinds of work report different phases.
pub proof fn law_phases_tell_the_work(a: StreamedOp, b: StreamedOp)
    requires
        a.phase() == b.phase(),
    ensures
        a == b,
        a is Rewind ==> a.phase()[0] == 'r',
        a is Basebackup ==> a.phase()[0] == 's',
{
    reveal_strlit("streaming");
    reveal_strlit("rewinding");
    assert("streaming"@[0] == 's');
    assert("rewinding"@[0] == 'r');
}

} // verus!
