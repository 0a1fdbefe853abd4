//! The node pool and the local PostgreSQL settings.
use crate::text::{
    debug_text, dec, int_text, lemma_dec_differs, lemma_split_at_comma, quoted, text2, text3,
};
use vstd::prelude::*;

verus! {

/// The most WAL a handoff target may lack: one segment.
pub const MAX_HANDOFF_LAG_BYTES: u64 = 16_777_216;

/// The PCP port where the configuration names none.
pub const DEFAULT_PCP_PORT: u16 = 9898;

/// The PCP user where the configuration names none.
pub const DEFAULT_PCP_USER: &'static str = "pgpool";

/// One member of the pool.
#[derive(Debug, PartialEq, Eq)]
pub struct NodeConfig {
    pub id: i32,
    pub hostname: String,
}

impl Clone for NodeConfig {
    fn clone(&self) -> (r: Self)
        ensures
            r == *self,
    {
        NodeConfig { id: self.id, hostname: self.hostname.clone() }
    }
}

/// The name of the replication slot that serves node `id`.
pub open spec fn slot_text(id: i32) -> Seq<char> {
    "node"@ + dec(id as int)
}

/// The name of the replication slot that serves node `id`.
pub fn slot_of(id: i32) -> (r: String)
    ensures
        r@ == slot_text(id),
{
    text2("node", int_text(id as i64).as_str())
}

/// No two nodes share a replication slot.
pub proof fn law_slots_differ(a: i32, b: i32)
    requires
        slot_text(a) == slot_text(b),
    ensures
        a == b,
{
    assert(slot_text(a).skip("node"@.len() as int) =~= dec(a as int));
    assert(slot_text(b).skip("node"@.len() as int) =~= dec(b as int));
    lemma_dec_differs(a as int, b as int);
}

/// Keys of two numbers differ where the numbers do.
pub proof fn lemma_pair_keys_differ(
    head: Seq<char>,
    sep: Seq<char>,
    a: int,
    b: int,
    c: int,
    d: int,
)
    requires
        sep.len() > 0,
        sep[0] == ',',
        head + dec(a) + sep + dec(b) == head + dec(c) + sep + dec(d),
    ensures
        a == c,
        b == d,
{
    lemma_dec_differs(a, c);
    lemma_dec_differs(b, d);
    lemma_dec_differs(c, a);
    let n = head.len() as int;
    assert((head + dec(a) + sep + dec(b)).skip(n) =~= dec(a) + (sep + dec(b)));
    assert((head + dec(c) + sep + dec(d)).skip(n) =~= dec(c) + (sep + dec(d)));
    lemma_split_at_comma(dec(a), dec(c), sep + dec(b), sep + dec(d));
    assert((sep + dec(b)).skip(sep.len() as int) =~= dec(b));
    assert((sep + dec(d)).skip(sep.len() as int) =~= dec(d));
}

impl NodeConfig {
    /// The name of the replication slot that serves this node.
    pub fn slot_name(&self) -> (r: String)
        ensures
            r@ == slot_text(self.id),
    {
        slot_of(self.id)
    }
}

/// A node as a request names it.
#[derive(Clone, Debug, PartialEq, Eq)]
pub struct NodeRef {
    pub id: i32,
    pub hostname: String,
    pub pg_port: i32,
    pub pg_data: String,
}

/// The local PostgreSQL settings that a standby needs to reach a primary.
#[derive(Debug, PartialEq, Eq)]
pub struct PostgresRuntime {
    pub port: u16,
    pub data_dir: String,
    pub repl_user: String,
}

/// How to reach the local pgpool's control port.
#[derive(Clone, Debug, PartialEq, Eq)]
pub struct PcpConfig {
    pub user: Option<String>,
    pub port: Option<u16>,
    pub pgpool_service: Option<String>,
}

/// The members of the cluster, and which of them runs here.
#[derive(Debug, PartialEq, Eq)]
pub struct NodePool {
    pub members: Vec<NodeConfig>,
    pub local_node_id: i32,
}

/// The first member with the given id.
pub open spec fn first_with_id(members: Seq<NodeConfig>, id: i32) -> Option<NodeConfig>
    decreases members.len(),
{
    if members.len() == 0 {
        None
    } else if members[0].id == id {
        Some(members[0])
    } else {
        first_with_id(members.drop_first(), id)
    }
}

/// The first member with the given hostname.
pub open spec fn first_with_hostname(members: Seq<NodeConfig>, hostname: Seq<char>) -> Option<
    NodeConfig,
>
    decreases members.len(),
{
    if members.len() == 0 {
        None
    } else if members[0].hostname@ == hostname {
        Some(members[0])
    } else {
        first_with_hostname(members.drop_first(), hostname)
    }
}

/// What is said of an id that no member has.
pub open spec fn unknown_id(id: i32) -> Seq<char> {
    "node id "@ + dec(id as int) + " is not in the pool"@
}

/// What is said of a hostname that no member has.
pub open spec fn unknown_hostname(hostname: Seq<char>) -> Seq<char> {
    "hostname "@ + quoted(hostname) + " is not in the pool"@
}

/// The member that a reference names, or what is wrong with the reference.
pub open spec fn resolved(members: Seq<NodeConfig>, node: NodeRef) -> Result<NodeConfig, Seq<char>> {
    match first_with_id(members, node.id) {
        None => Err(unknown_id(node.id)),
        Some(n) => if n.hostname@ == node.hostname@ {
            Ok(n)
        } else {
            Err(
                "node "@ + dec(node.id as int) + " is "@ + quoted(n.hostname@) + " in the pool, not "@
                    + quoted(node.hostname@),
            )
        },
    }
}

/// The local member that a reference names, or what is wrong with the
/// reference.
pub open spec fn resolved_local(pool: NodePool, node: NodeRef) -> Result<NodeConfig, Seq<char>> {
    match resolved(pool.members@, node) {
        Err(e) => Err(e),
        Ok(n) => if n.id == pool.local_node_id {
            Ok(n)
        } else {
            Err("node "@ + dec(node.id as int) + " is not the local node"@)
        },
    }
}

/// Whether a lookup gave what `want` says.
pub open spec fn found(r: Result<&NodeConfig, String>, want: Result<NodeConfig, Seq<char>>) -> bool {
    match (r, want) {
        (Ok(n), Ok(m)) => *n == m,
        (Err(e), Err(text)) => e@ == text,
        _ => false,
    }
}

impl NodePool {
    /// The first member with the given id.
    pub fn node_by_id(&self, id: i32) -> (r: Result<&NodeConfig, String>)
        ensures
            found(
                r,
                match first_with_id(self.members@, id) {
                    Some(n) => Ok(n),
                    None => Err(unknown_id(id)),
                },
            ),
    {
        let mut i: usize = 0;
        assert(self.members@.skip(0) =~= self.members@);
        while i < self.members.len()
            invariant
                i <= self.members.len(),
                first_with_id(self.members@.skip(i as int), id) == first_with_id(self.members@, id),
            decreases self.members.len() - i,
        {
            proof {
                assert(self.members@.skip(i as int).drop_first() =~= self.members@.skip(i + 1));
            }
            if self.members[i].id == id {
                return Ok(&self.members[i]);
            }
            i = i + 1;
        }
        Err(text3("node id ", int_text(id as i64).as_str(), " is not in the pool"))
    }

    /// The first member with the given hostname.
    pub fn node_by_hostname(&self, hostname: &str) -> (r: Result<&NodeConfig, String>)
        ensures
            found(
                r,
                match first_with_hostname(self.members@, hostname@) {
                    Some(n) => Ok(n),
                    None => Err(unknown_hostname(hostname@)),
                },
            ),
    {
        let mut i: usize = 0;
        assert(self.members@.skip(0) =~= self.members@);
        while i < self.members.len()
            invariant
                i <= self.members.len(),
                first_with_hostname(self.members@.skip(i as int), hostname@) == first_with_hostname(
                    self.members@,
                    hostname@,
                ),
            decreases self.members.len() - i,
        {
            proof {
                assert(self.members@.skip(i as int).drop_first() =~= self.members@.skip(i + 1));
            }
            if crate::text::same(self.members[i].hostname.as_str(), hostname) {
                return Ok(&self.members[i]);
            }
            i = i + 1;
        }
        Err(text3("hostname ", debug_text(hostname).as_str(), " is not in the pool"))
    }

    /// The local member.
    pub fn local_node(&self) -> (r: Result<&NodeConfig, String>)
        ensures
            found(
                r,
                match first_with_id(self.members@, self.local_node_id) {
                    Some(n) => Ok(n),
                    None => Err(unknown_id(self.local_node_id)),
                },
            ),
    {
        self.node_by_id(self.local_node_id)
    }

    /// Whether a node is the local one.
    pub fn is_local(&self, node: &NodeConfig) -> (r: bool)
        ensures
            r == (node.id == self.local_node_id),
    {
        node.id == self.local_node_id
    }

    /// The member that a reference names: both its id and its hostname have
    /// to be those of one member.
    pub fn resolve_node(&self, node: &NodeRef) -> (r: Result<&NodeConfig, String>)
        ensures
            found(r, resolved(self.members@, *node)),
    {
        match self.node_by_id(node.id) {
            Err(e) => Err(e),
            Ok(n) => {
                if n.hostname == node.hostname {
                    Ok(n)
                } else {
                    let mut s = text3(
                        "node ",
                        int_text(node.id as i64).as_str(),
                        " is ",
                    );
                    s.append(debug_text(n.hostname.as_str()).as_str());
                    s.append(" in the pool, not ");
                    s.append(debug_text(node.hostname.as_str()).as_str());
                    Err(s)
                }
            },
        }
    }

    /// The local member, where the reference names it.
    pub fn resolve_local_node(&self, node: &NodeRef) -> (r: Result<&NodeConfig, String>)
        ensures
            found(r, resolved_local(*self, *node)),
    {
        match self.resolve_node(node) {
            Err(e) => Err(e),
            Ok(n) => {
                if self.is_local(n) {
                    Ok(n)
                } else {
                    Err(text3("node ", int_text(node.id as i64).as_str(), " is not the local node"))
                }
            },
        }
    }
}

/// A lookup by id gives a member with that id.
pub proof fn lemma_first_with_id(members: Seq<NodeConfig>, id: i32)
    ensures
        match first_with_id(members, id) {
            Some(n) => members.contains(n) && n.id == id,
            None => forall|i: int| 0 <= i < members.len() ==> (#[trigger] members[i]).id != id,
        },
    decreases members.len(),
{
    if members.len() > 0 {
        let rest = members.drop_first();
        lemma_first_with_id(rest, id);
        match first_with_id(rest, id) {
            Some(n) => {
                let k = choose|k: int| 0 <= k < rest.len() && rest[k] == n;
                assert(members[k + 1] == n);
            },
            None => {
                assert forall|i: int| 1 <= i < members.len() implies (#[trigger] members[i]).id
                    != id by {
                    assert(rest[i - 1] == members[i]);
                }
            },
        }
        assert(members.contains(members[0]));
    }
}

/// A lookup by id gives the first member with that id.
pub proof fn law_first_with_id_is_first(members: Seq<NodeConfig>, id: i32, i: int)
    requires
        0 <= i < members.len(),
        members[i].id == id,
        forall|j: int| 0 <= j < i ==> (#[trigger] members[j]).id != id,
    ensures
        first_with_id(members, id) == Some(members[i]),
    decreases i,
{
    if i > 0 {
        let rest = members.drop_first();
        assert forall|j: int| 0 <= j < i - 1 implies (#[trigger] rest[j]).id != id by {
            assert(rest[j] == members[j + 1]);
        }
        law_first_with_id_is_first(rest, id, i - 1);
    }
}

/// A lookup by hostname gives the first member with that hostname.
pub proof fn law_first_with_hostname_is_first(
    members: Seq<NodeConfig>,
    hostname: Seq<char>,
    i: int,
)
    requires
        0 <= i < members.len(),
        members[i].hostname@ == hostname,
        forall|j: int| 0 <= j < i ==> (#[trigger] members[j]).hostname@ != hostname,
    ensures
        first_with_hostname(members, hostname) == Some(members[i]),
    decreases i,
{
    if i > 0 {
        let rest = members.drop_first();
        assert forall|j: int| 0 <= j < i - 1 implies (#[trigger] rest[j]).hostname@ != hostname by {
            assert(rest[j] == members[j + 1]);
        }
        law_first_with_hostname_is_first(rest, hostname, i - 1);
    }
}

/// A lookup by hostname gives nothing exactly where no member has it.
pub proof fn law_unknown_hostname_is_not_found(members: Seq<NodeConfig>, hostname: Seq<char>)
    ensures
        first_with_hostname(members, hostname) is None <==> forall|i: int|
            0 <= i < members.len() ==> (#[trigger] members[i]).hostname@ != hostname,
        first_with_hostname(members, hostname) is Some ==> members.contains(
            first_with_hostname(members, hostname)->0,
        ) && first_with_hostname(members, hostname)->0.hostname@ == hostname,
    decreases members.len(),
{
    if members.len() > 0 {
        let rest = members.drop_first();
        law_unknown_hostname_is_not_found(rest, hostname);
        assert(members.contains(members[0]));
        match first_with_hostname(rest, hostname) {
            Some(n) => {
                let k = choose|k: int| 0 <= k < rest.len() && rest[k] == n;
                assert(members[k + 1] == n);
            },
            None => {
                assert forall|i: int| 1 <= i < members.len() implies (
                #[trigger] members[i]).hostname@ != hostname by {
                    assert(rest[i - 1] == members[i]);
                }
            },
        }
    }
}

/// A reference names a member exactly where the first member with its id has
/// its hostname too, and it names the local node exactly where it names a
/// member with the local id.
pub proof fn law_references_name_members(pool: NodePool, node: NodeRef, n: NodeConfig)
    ensures
        resolved(pool.members@, node) == Ok::<NodeConfig, Seq<char>>(n) <==> first_with_id(
            pool.members@,
            node.id,
        ) == Some(n) && n.hostname@ == node.hostname@,
        resolved(pool.members@, node) is Ok ==> resolved(pool.members@, node)->Ok_0.id == node.id
            && pool.members@.contains(resolved(pool.members@, node)->Ok_0),
        resolved_local(pool, node) == Ok::<NodeConfig, Seq<char>>(n) <==> resolved(
            pool.members@,
            node,
        ) == Ok::<NodeConfig, Seq<char>>(n) && node.id == pool.local_node_id,
{
    lemma_first_with_id(pool.members@, node.id);
}

} // verus!
