//! Rewards for the operators of network nodes: the administrator reports
//! the packets a node routed, and the node earns one reward unit for each
//! full hundred packets of a report.
use crate::auth::{authorized, Principal};
use vstd::prelude::*;

verus! {

/// A registered node: its operator and what it has routed and earned.
#[derive(Clone, Copy, Debug, PartialEq, Eq, Structural)]
pub struct NetworkNode {
    pub operator: Principal,
    pub packets_routed: u64,
    pub rewards_earned: i128,
}

/// Why an incentive operation was refused.
#[derive(Clone, Copy, Debug, PartialEq, Eq, Structural)]
pub enum IncentiveError {
    /// The caller is not the principal the operation requires.
    Unauthorized,
    /// No node is registered under the given id.
    NodeNotFound,
    /// A packet count or a reward total would not fit its integer type.
    Overflow,
}

/// The registered nodes of one network, each under its own id.
pub struct NetworkIncentives {
    admin: Principal,
    nodes: Vec<(String, NetworkNode)>,
}

/// The nodes of `s` by id, a later entry replacing an earlier one.
pub open spec fn node_map(s: Seq<(String, NetworkNode)>) -> Map<Seq<char>, NetworkNode>
    decreases s.len(),
{
    if s.len() == 0 {
        Map::empty()
    } else {
        node_map(s.drop_last()).insert(s.last().0@, s.last().1)
    }
}

/// No two entries of `s` share an id.
pub open spec fn ids_unique(s: Seq<(String, NetworkNode)>) -> bool {
    forall|i: int, j: int| 0 <= i < s.len() && 0 <= j < s.len() && i != j ==> s[i].0@ != s[j].0@
}

/// `n` after a report of `packets` routed packets.
pub open spec fn reported(n: NetworkNode, packets: u64) -> NetworkNode {
    NetworkNode {
        packets_routed: (n.packets_routed + packets) as u64,
        rewards_earned: (n.rewards_earned + packets / 100) as i128,
        ..n
    }
}

/// What `report_activity` returns.
pub open spec fn report_result(admin: Principal, nodes: Map<Seq<char>, NetworkNode>, caller: Principal, node_id: Seq<char>, packets: u64) -> Result<(), IncentiveError> {
    if caller != admin {
        Err(IncentiveError::Unauthorized)
    } else if !nodes.contains_key(node_id) {
        Err(IncentiveError::NodeNotFound)
    } else if nodes[node_id].packets_routed + packets > u64::MAX || nodes[node_id].rewards_earned + packets / 100 > i128::MAX {
        Err(IncentiveError::Overflow)
    } else {
        Ok(())
    }
}

proof fn lemma_node_map_lookup(s: Seq<(String, NetworkNode)>, i: int)
    requires
        ids_unique(s),
        0 <= i < s.len(),
    ensures
        node_map(s).contains_key(s[i].0@),
        node_map(s)[s[i].0@] == s[i].1,
    decreases s.len(),
{
    if i < s.len() - 1 {
        let t = s.drop_last();
        assert(ids_unique(t)) by {
            assert forall|a: int, b: int| 0 <= a < t.len() && 0 <= b < t.len() && a != b implies t[a].0@ != t[b].0@ by {
                assert(t[a] == s[a] && t[b] == s[b]);
            }
        }
        assert(t[i] == s[i]);
        lemma_node_map_lookup(t, i);
        assert(s.last().0@ != s[i].0@);
    }
}

proof fn lemma_node_map_absent(s: Seq<(String, NetworkNode)>, id: Seq<char>)
    requires
        forall|i: int| 0 <= i < s.len() ==> s[i].0@ != id,
    ensures
        !node_map(s).contains_key(id),
    decreases s.len(),
{
    if s.len() > 0 {
        let t = s.drop_last();
        assert forall|i: int| 0 <= i < t.len() implies t[i].0@ != id by {
            assert(t[i] == s[i]);
        }
        lemma_node_map_absent(t, id);
        assert(s.last() == s[s.len() - 1]);
    }
}

proof fn lemma_node_map_update(s: Seq<(String, NetworkNode)>, i: int, v: NetworkNode)
    requires
        ids_unique(s),
        0 <= i < s.len(),
    ensures
        node_map(s.update(i, (s[i].0, v))) == node_map(s).insert(s[i].0@, v),
    decreases s.len(),
{
    let t = s.update(i, (s[i].0, v));
    let k = s[i].0@;
    if i == s.len() - 1 {
        assert(t.drop_last() =~= s.drop_last());
        assert(node_map(t) =~= node_map(s).insert(k, v));
    } else {
        let d = s.drop_last();
        assert(ids_unique(d)) by {
            assert forall|a: int, b: int| 0 <= a < d.len() && 0 <= b < d.len() && a != b implies d[a].0@ != d[b].0@ by {
                assert(d[a] == s[a] && d[b] == s[b]);
            }
        }
        assert(t.drop_last() =~= d.update(i, (d[i].0, v)));
        lemma_node_map_update(d, i, v);
        assert(s.last().0@ != k);
        assert(node_map(t) =~= node_map(s).insert(k, v));
    }
}

impl NetworkIncentives {
    /// The principal allowed to report activity.
    pub closed spec fn spec_admin(&self) -> Principal {
        self.admin
    }

    /// The registered nodes by id.
    pub closed spec fn spec_nodes(&self) -> Map<Seq<char>, NetworkNode> {
        node_map(self.nodes@)
    }

    /// No two entries share an id.
    pub closed spec fn wf(&self) -> bool {
        ids_unique(self.nodes@)
    }

    /// No nodes yet; `admin` reports activity.
    pub fn initialize(admin: Principal) -> (r: NetworkIncentives)
        ensures
            r.wf(),
            r.spec_admin() == admin,
            r.spec_nodes() == Map::<Seq<char>, NetworkNode>::empty(),
    {
        NetworkIncentives { admin, nodes: Vec::new() }
    }

    /// Where the entry for `node_id` sits, if there is one.
    fn find_node(&self, node_id: &String) -> (r: Option<usize>)
        requires
            self.wf(),
        ensures
            match r {
                Some(i) => i < self.nodes@.len() && self.nodes@[i as int].0@ == node_id@,
                None => forall|j: int| 0 <= j < self.nodes@.len() ==> self.nodes@[j].0@ != node_id@,
            },
    {
        let mut i: usize = 0;
        while i < self.nodes.len()
            invariant
                i <= self.nodes@.len(),
                forall|j: int| 0 <= j < i ==> self.nodes@[j].0@ != node_id@,
            decreases self.nodes@.len() - i,
        {
            if self.nodes[i].0 == *node_id {
                return Some(i);
            }
            i = i + 1;
        }
        None
    }

    /// Registers `operator`'s node under `node_id` with nothing routed or
    /// earned, replacing any node registered under that id. Only the
    /// operator may register its node.
    pub fn register_node(&mut self, caller: Principal, node_id: String, operator: Principal) -> (r: Result<(), IncentiveError>)
        requires
            old(self).wf(),
        ensures
            final(self).wf(),
            final(self).spec_admin() == old(self).spec_admin(),
            r == if caller == operator {
                Ok::<(), IncentiveError>(())
            } else {
                Err(IncentiveError::Unauthorized)
            },
            r is Ok ==> final(self).spec_nodes() == old(self).spec_nodes().insert(
                node_id@,
                NetworkNode { operator, packets_routed: 0, rewards_earned: 0 },
            ),
            r is Err ==> final(self).spec_nodes() == old(self).spec_nodes(),
    {
        if !authorized(caller, operator) {
            return Err(IncentiveError::Unauthorized);
        }
        let node = NetworkNode { operator, packets_routed: 0, rewards_earned: 0 };
        match self.find_node(&node_id) {
            Some(i) => {
                let ghost before = self.nodes@;
                proof {
                    lemma_node_map_update(before, i as int, node);
                }
                self.nodes[i].1 = node;
                assert(self.nodes@ =~= before.update(i as int, (before[i as int].0, node)));
            },
            None => {
                let ghost before = self.nodes@;
                self.nodes.push((node_id, node));
                assert(self.nodes@.drop_last() =~= before);
                assert(ids_unique(self.nodes@)) by {
                    assert forall|a: int, b: int|
                        0 <= a < self.nodes@.len() && 0 <= b < self.nodes@.len() && a != b implies self.nodes@[a].0@
                        != self.nodes@[b].0@ by {
                        if a < before.len() {
                            assert(self.nodes@[a] == before[a]);
                        }
                        if b < before.len() {
                            assert(self.nodes@[b] == before[b]);
                        }
                    }
                }
            },
        }
        Ok(())
    }

    /// Adds a report of `packets` routed packets to the node `node_id`,
    /// with one reward unit for each full hundred. Only the administrator
    /// may report.
    pub fn report_activity(&mut self, caller: Principal, node_id: String, packets: u64) -> (r: Result<(), IncentiveError>)
        requires
            old(self).wf(),
        ensures
            final(self).wf(),
            final(self).spec_admin() == old(self).spec_admin(),
            r == report_result(old(self).spec_admin(), old(self).spec_nodes(), caller, node_id@, packets),
            r is Ok ==> final(self).spec_nodes() == old(self).spec_nodes().insert(
                node_id@,
                reported(old(self).spec_nodes()[node_id@], packets),
            ),
            r is Err ==> final(self).spec_nodes() == old(self).spec_nodes(),
    {
        if !authorized(caller, self.admin) {
            return Err(IncentiveError::Unauthorized);
        }
        let i = match self.find_node(&node_id) {
            Some(i) => i,
            None => {
                proof {
                    lemma_node_map_absent(self.nodes@, node_id@);
                }
                return Err(IncentiveError::NodeNotFound);
            },
        };
        proof {
            lemma_node_map_lookup(self.nodes@, i as int);
        }
        let node = self.nodes[i].1;
        let packets_routed = match node.packets_routed.checked_add(packets) {
            Some(p) => p,
            None => return Err(IncentiveError::Overflow),
        };
        let new_rewards = (packets / 100) as i128;
        let rewards_earned = match node.rewards_earned.checked_add(new_rewards) {
            Some(e) => e,
            None => return Err(IncentiveError::Overflow),
        };
        let updated = NetworkNode { operator: node.operator, packets_routed, rewards_earned };
        let ghost before = self.nodes@;
        proof {
            lemma_node_map_update(before, i as int, updated);
        }
        self.nodes[i].1 = updated;
        assert(self.nodes@ =~= before.update(i as int, (before[i as int].0, updated)));
        Ok(())
    }

    /// The node registered under `node_id`, or `None` where there is none.
    pub fn get_node_info(&self, node_id: String) -> (r: Option<NetworkNode>)
        requires
            self.wf(),
        ensures
            r == if self.spec_nodes().contains_key(node_id@) {
                Some(self.spec_nodes()[node_id@])
            } else {
                None
            },
    {
        match self.find_node(&node_id) {
            Some(i) => {
                proof {
                    lemma_node_map_lookup(self.nodes@, i as int);
                }
                Some(self.nodes[i].1)
            },
            None => {
                proof {
                    lemma_node_map_absent(self.nodes@, node_id@);
                }
                None
            },
        }
    }
}

} // verus!
