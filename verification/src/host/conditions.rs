//! Compiling the conditions of a policy file into the flat node array that
//! policy evaluation walks: each condition becomes nodes appended after the
//! nodes of its operands, and its root is the last node appended.
use vstd::prelude::*;
use crate::controls::ControlType;
use crate::host::{host_error, HostError};
use crate::legacy::policy::{ConditionNode, ConditionOp, ConditionValue, PluginTrustFact, RiskClass};
use crate::legacy::receipt::plugin_trust_fact_spec;
use crate::limits::MAX_CONDITION_NODES;
use crate::model_waist::RuntimeKind;
use crate::receipt_v2::normalize::{
    control_type_from_str, control_type_of, plugin_trust_fact_from_str, plugin_trust_of, risk_class_from_str,
    risk_class_of, runtime_kind_from_str, runtime_kind_of,
};
use crate::receipt_v2::owned_text;

verus! {

/// A condition as a policy file states it.
#[derive(Debug)]
pub enum ConditionFile {
    Always,
    RuntimeKindEquals { value: String },
    RiskClassAtLeast { value: String },
    RiskClassEquals { value: String },
    ProviderFallbacksAllowed { value: bool },
    ControlPresent { value: String },
    ControlAbsent { value: String },
    PluginTrustAtMost { value: String },
    All { conditions: Vec<ConditionFile> },
    Any { conditions: Vec<ConditionFile> },
    Not { condition: Box<ConditionFile> },
}

/// A node that tests `value` with `op` and has no operands.
pub open spec fn leaf(op: ConditionOp, value: ConditionValue) -> ConditionNode {
    ConditionNode { op, left: 0, right: 0, value }
}

/// The test and value of a condition that compiles to one node, where its
/// text names a known value.
pub open spec fn leaf_of(c: ConditionFile) -> Option<(ConditionOp, ConditionValue)> {
    match c {
        ConditionFile::Always => Some((ConditionOp::Always, ConditionValue::Empty)),
        ConditionFile::RuntimeKindEquals { value } => match runtime_kind_of(value@) {
            Some(k) => Some((ConditionOp::RuntimeKindEquals, ConditionValue::RuntimeKind(k))),
            None => None,
        },
        ConditionFile::RiskClassAtLeast { value } => match risk_class_of(value@) {
            Some(k) => Some((ConditionOp::RiskClassAtLeast, ConditionValue::RiskClass(k))),
            None => None,
        },
        ConditionFile::RiskClassEquals { value } => match risk_class_of(value@) {
            Some(k) => Some((ConditionOp::RiskClassEquals, ConditionValue::RiskClass(k))),
            None => None,
        },
        ConditionFile::ProviderFallbacksAllowed { value } => Some(
            (ConditionOp::ProviderFallbacksAllowed, ConditionValue::Bool(value)),
        ),
        ConditionFile::ControlPresent { value } => match control_type_of(value@) {
            Some(t) => Some((ConditionOp::ControlApproved, ConditionValue::ControlType(t))),
            None => None,
        },
        ConditionFile::PluginTrustAtMost { value } => Some(
            (ConditionOp::PluginTrustLevelAtMost, ConditionValue::PluginTrust(plugin_trust_fact_spec(plugin_trust_of(value@)->Some_0))),
        ),
        _ => None,
    }
}

/// Whether a condition compiles: every name it uses is known and no list of
/// conditions is empty.
pub open spec fn condition_ok(c: ConditionFile) -> bool
    decreases c, 0nat,
{
    match c {
        ConditionFile::All { conditions } => conditions@.len() > 0 && chain_ok(conditions@, conditions@.len()),
        ConditionFile::Any { conditions } => conditions@.len() > 0 && chain_ok(conditions@, conditions@.len()),
        ConditionFile::Not { condition } => condition_ok(*condition),
        ConditionFile::ControlAbsent { value } => control_type_of(value@) is Some,
        _ => leaf_of(c) is Some,
    }
}

/// Whether the first `n` conditions of `cs` compile.
pub open spec fn chain_ok(cs: Seq<ConditionFile>, n: nat) -> bool
    decreases cs, n,
{
    if n == 0 || n > cs.len() {
        n == 0
    } else {
        chain_ok(cs, (n - 1) as nat) && condition_ok(cs[n - 1])
    }
}

/// The number of nodes a condition compiles to.
pub open spec fn condition_count(c: ConditionFile) -> nat
    decreases c, 0nat,
{
    match c {
        ConditionFile::All { conditions } => chain_count(conditions@, conditions@.len()),
        ConditionFile::Any { conditions } => chain_count(conditions@, conditions@.len()),
        ConditionFile::Not { condition } => condition_count(*condition) + 1,
        ConditionFile::ControlAbsent { .. } => 2,
        _ => 1,
    }
}

/// The number of nodes the first `n` conditions of `cs` compile to when
/// joined by `n - 1` binary nodes.
pub open spec fn chain_count(cs: Seq<ConditionFile>, n: nat) -> nat
    decreases cs, n,
{
    if n == 0 || n > cs.len() {
        0
    } else if n == 1 {
        condition_count(cs[0])
    } else {
        chain_count(cs, (n - 1) as nat) + condition_count(cs[n - 1]) + 1
    }
}

/// Whether node `i` of `nodes` is the compiled form of `c`: a leaf with the
/// condition's test and value, or a `Not`, `And` or `Or` node whose operands
/// are earlier nodes that are the compiled forms of the condition's parts.
pub open spec fn denotes(nodes: Seq<ConditionNode>, i: int, c: ConditionFile) -> bool
    decreases c, 0nat,
{
    &&& 0 <= i < nodes.len()
    &&& match c {
        ConditionFile::All { conditions } => conditions@.len() > 0
            && chain_denotes(nodes, i, conditions@, conditions@.len(), ConditionOp::And),
        ConditionFile::Any { conditions } => conditions@.len() > 0
            && chain_denotes(nodes, i, conditions@, conditions@.len(), ConditionOp::Or),
        ConditionFile::Not { condition } => {
            &&& nodes[i].op == ConditionOp::Not
            &&& nodes[i].right == 0
            &&& nodes[i].value == ConditionValue::Empty
            &&& nodes[i].left < i
            &&& denotes(nodes, nodes[i].left as int, *condition)
        },
        ConditionFile::ControlAbsent { value } => {
            &&& control_type_of(value@) is Some
            &&& nodes[i].op == ConditionOp::Not
            &&& nodes[i].right == 0
            &&& nodes[i].value == ConditionValue::Empty
            &&& nodes[i].left < i
            &&& nodes[nodes[i].left as int] == leaf(
                ConditionOp::ControlApproved,
                ConditionValue::ControlType(control_type_of(value@)->Some_0),
            )
        },
        _ => leaf_of(c) matches Some((op, value)) && nodes[i] == leaf(op, value),
    }
}

/// Whether node `i` of `nodes` is the compiled form of the first `n`
/// conditions of `cs` joined left to right by `op` nodes.
pub open spec fn chain_denotes(nodes: Seq<ConditionNode>, i: int, cs: Seq<ConditionFile>, n: nat, op: ConditionOp) -> bool
    decreases cs, n,
{
    if n == 0 || n > cs.len() {
        false
    } else if n == 1 {
        denotes(nodes, i, cs[0])
    } else {
        &&& 0 <= i < nodes.len()
        &&& nodes[i].op == op
        &&& nodes[i].value == ConditionValue::Empty
        &&& nodes[i].left < i
        &&& nodes[i].right < i
        &&& chain_denotes(nodes, nodes[i].left as int, cs, (n - 1) as nat, op)
        &&& denotes(nodes, nodes[i].right as int, cs[n - 1])
    }
}

/// The compiled form of a condition stays its compiled form when nodes are
/// appended after it.
pub proof fn lemma_denotes_extends(nodes: Seq<ConditionNode>, longer: Seq<ConditionNode>, i: int, c: ConditionFile)
    requires
        denotes(nodes, i, c),
        nodes.len() <= longer.len(),
        longer.subrange(0, nodes.len() as int) == nodes,
    ensures
        denotes(longer, i, c),
    decreases c, 0nat,
{
    assert(longer[i] == nodes[i]);
    match c {
        ConditionFile::All { conditions } => {
            lemma_chain_denotes_extends(nodes, longer, i, conditions@, conditions@.len(), ConditionOp::And);
        },
        ConditionFile::Any { conditions } => {
            lemma_chain_denotes_extends(nodes, longer, i, conditions@, conditions@.len(), ConditionOp::Or);
        },
        ConditionFile::Not { condition } => {
            lemma_denotes_extends(nodes, longer, nodes[i].left as int, *condition);
        },
        ConditionFile::ControlAbsent { value } => {
            assert(longer[nodes[i].left as int] == nodes[nodes[i].left as int]);
        },
        _ => {},
    }
}

/// The compiled form of a chain of conditions stays its compiled form when
/// nodes are appended after it.
pub proof fn lemma_chain_denotes_extends(
    nodes: Seq<ConditionNode>,
    longer: Seq<ConditionNode>,
    i: int,
    cs: Seq<ConditionFile>,
    n: nat,
    op: ConditionOp,
)
    requires
        chain_denotes(nodes, i, cs, n, op),
        nodes.len() <= longer.len(),
        longer.subrange(0, nodes.len() as int) == nodes,
    ensures
        chain_denotes(longer, i, cs, n, op),
    decreases cs, n,
{
    if n == 1 {
        lemma_denotes_extends(nodes, longer, i, cs[0]);
    } else if 1 < n <= cs.len() {
        assert(longer[i] == nodes[i]);
        lemma_chain_denotes_extends(nodes, longer, nodes[i].left as int, cs, (n - 1) as nat, op);
        lemma_denotes_extends(nodes, longer, nodes[i].right as int, cs[n - 1]);
    }
}

/// A longer prefix of a chain compiles only if a shorter one does, and to at
/// least as many nodes.
proof fn lemma_chain_mono(cs: Seq<ConditionFile>, k: nat, n: nat)
    requires
        1 <= k <= n <= cs.len(),
    ensures
        chain_count(cs, k) <= chain_count(cs, n),
        chain_ok(cs, n) ==> chain_ok(cs, k),
    decreases n,
{
    if k < n {
        lemma_chain_mono(cs, k, (n - 1) as nat);
    }
}

/// Appends `node`; once the array holds `MAX_CONDITION_NODES` nodes, further
/// nodes are refused and the array is left as it was.
fn push_node(nodes: &mut Vec<ConditionNode>, node: ConditionNode) -> (r: Result<u16, HostError>)
    ensures
        old(nodes)@.len() >= MAX_CONDITION_NODES ==> final(nodes)@ == old(nodes)@
            && (r matches Err(HostError::InvalidInput(m)) && m@ == "too many condition nodes"@),
        old(nodes)@.len() < MAX_CONDITION_NODES ==> final(nodes)@ == old(nodes)@.push(node)
            && r == Ok::<u16, HostError>(old(nodes)@.len() as u16),
{
    let index = nodes.len();
    if index >= MAX_CONDITION_NODES {
        return Err(HostError::InvalidInput(owned_text("too many condition nodes")));
    }
    nodes.push(node);
    Ok(index as u16)
}

/// The node of a condition that compiles to one node.
fn compile_leaf(condition: &ConditionFile) -> (r: Result<ConditionNode, HostError>)
    requires
        !(condition is All || condition is Any || condition is Not || condition is ControlAbsent),
    ensures
        leaf_of(*condition) matches Some((op, value)) ==> r == Ok::<ConditionNode, HostError>(leaf(op, value)),
        leaf_of(*condition) is None ==> r matches Err(HostError::InvalidInput(_)),
{
    let (op, value) = match condition {
        ConditionFile::Always => (ConditionOp::Always, ConditionValue::Empty),
        ConditionFile::RuntimeKindEquals { value } => match runtime_kind_from_str(value.as_str()) {
            Ok(k) => (ConditionOp::RuntimeKindEquals, ConditionValue::RuntimeKind(k)),
            Err(e) => return Err(host_error(e)),
        },
        ConditionFile::RiskClassAtLeast { value } => match risk_class_from_str(value.as_str()) {
            Ok(k) => (ConditionOp::RiskClassAtLeast, ConditionValue::RiskClass(k)),
            Err(e) => return Err(host_error(e)),
        },
        ConditionFile::RiskClassEquals { value } => match risk_class_from_str(value.as_str()) {
            Ok(k) => (ConditionOp::RiskClassEquals, ConditionValue::RiskClass(k)),
            Err(e) => return Err(host_error(e)),
        },
        ConditionFile::ProviderFallbacksAllowed { value } => (ConditionOp::ProviderFallbacksAllowed, ConditionValue::Bool(*value)),
        ConditionFile::ControlPresent { value } => match control_type_from_str(value.as_str()) {
            Ok(t) => (ConditionOp::ControlApproved, ConditionValue::ControlType(t)),
            Err(e) => return Err(host_error(e)),
        },
        ConditionFile::PluginTrustAtMost { value } => match plugin_trust_fact_from_str(value.as_str()) {
            Ok(t) => (ConditionOp::PluginTrustLevelAtMost, ConditionValue::PluginTrust(t)),
            Err(e) => return Err(host_error(e)),
        },
        _ => (ConditionOp::Always, ConditionValue::Empty),
    };
    Ok(ConditionNode { op, left: 0, right: 0, value })
}

/// Compiles `condition`, appending its nodes to `nodes`, and returns the index
/// of its root: the last node appended. It fails on an unknown name, an empty
/// list of conditions, or when the nodes would exceed `MAX_CONDITION_NODES`;
/// nodes appended before the failure stay.
pub fn compile_condition(condition: &ConditionFile, nodes: &mut Vec<ConditionNode>) -> (r: Result<u16, HostError>)
    requires
        old(nodes)@.len() <= MAX_CONDITION_NODES,
    ensures
        old(nodes)@.len() <= final(nodes)@.len() <= MAX_CONDITION_NODES,
        final(nodes)@.subrange(0, old(nodes)@.len() as int) == old(nodes)@,
        r is Ok <==> condition_ok(*condition) && old(nodes)@.len() + condition_count(*condition) <= MAX_CONDITION_NODES,
        r matches Ok(root) ==> {
            &&& final(nodes)@.len() == old(nodes)@.len() + condition_count(*condition)
            &&& root == final(nodes)@.len() - 1
            &&& denotes(final(nodes)@, root as int, *condition)
        },
        r matches Err(e) ==> e is InvalidInput,
    decreases condition,
{
    let ghost before = nodes@;
    match condition {
        ConditionFile::All { conditions } => chain_conditions(nodes, conditions.as_slice(), true),
        ConditionFile::Any { conditions } => chain_conditions(nodes, conditions.as_slice(), false),
        ConditionFile::Not { condition: inner_condition } => {
            let inner = compile_condition(inner_condition, nodes)?;
            let ghost middle = nodes@;
            let root = push_node(nodes, ConditionNode { op: ConditionOp::Not, left: inner, right: 0, value: ConditionValue::Empty })?;
            proof {
                assert(nodes@.subrange(0, middle.len() as int) =~= middle);
                lemma_denotes_extends(middle, nodes@, inner as int, **inner_condition);
                assert(nodes@.subrange(0, before.len() as int) =~= before);
            }
            Ok(root)
        },
        ConditionFile::ControlAbsent { value } => {
            let control_type = match control_type_from_str(value.as_str()) {
                Ok(t) => t,
                Err(e) => return Err(host_error(e)),
            };
            let inner = push_node(
                nodes,
                ConditionNode { op: ConditionOp::ControlApproved, left: 0, right: 0, value: ConditionValue::ControlType(control_type) },
            )?;
            let root = push_node(nodes, ConditionNode { op: ConditionOp::Not, left: inner, right: 0, value: ConditionValue::Empty })?;
            proof {
                assert(nodes@.subrange(0, before.len() as int) =~= before);
            }
            Ok(root)
        },
        _ => {
            let node = compile_leaf(condition)?;
            let root = push_node(nodes, node)?;
            proof {
                assert(nodes@.subrange(0, before.len() as int) =~= before);
            }
            Ok(root)
        },
    }
}

/// The operator that joins a chain: `And` for a list that must all hold, `Or`
/// for one of which any may.
pub open spec fn chain_op(all: bool) -> ConditionOp {
    if all { ConditionOp::And } else { ConditionOp::Or }
}

/// Compiles a non-empty list of conditions joined left to right by `And`
/// nodes (`all`) or `Or` nodes, appending to `nodes`, and returns the root.
fn chain_conditions(nodes: &mut Vec<ConditionNode>, conditions: &[ConditionFile], all: bool) -> (r: Result<u16, HostError>)
    requires
        old(nodes)@.len() <= MAX_CONDITION_NODES,
    ensures
        old(nodes)@.len() <= final(nodes)@.len() <= MAX_CONDITION_NODES,
        final(nodes)@.subrange(0, old(nodes)@.len() as int) == old(nodes)@,
        r is Ok <==> conditions@.len() > 0 && chain_ok(conditions@, conditions@.len())
            && old(nodes)@.len() + chain_count(conditions@, conditions@.len()) <= MAX_CONDITION_NODES,
        r matches Ok(root) ==> {
            &&& final(nodes)@.len() == old(nodes)@.len() + chain_count(conditions@, conditions@.len())
            &&& root == final(nodes)@.len() - 1
            &&& chain_denotes(final(nodes)@, root as int, conditions@, conditions@.len(), chain_op(all))
        },
        r matches Err(e) ==> e is InvalidInput,
    decreases conditions@,
{
    let ghost before = nodes@;
    let ghost cs = conditions@;
    let n = conditions.len();
    if n == 0 {
        return Err(HostError::InvalidInput(owned_text("empty condition list")));
    }
    let op = if all { ConditionOp::And } else { ConditionOp::Or };
    let first = compile_condition(&conditions[0], nodes);
    let mut current = match first {
        Ok(root) => root,
        Err(e) => {
            proof {
                if chain_ok(cs, n as nat) {
                    lemma_chain_mono(cs, 1, n as nat);
                }
            }
            return Err(e);
        },
    };
    proof {
        assert(nodes@.subrange(0, before.len() as int) =~= before);
        assert(chain_ok(cs, 1) == (chain_ok(cs, 0) && condition_ok(cs[0])));
        assert(chain_count(cs, 1) == condition_count(cs[0]));
        assert(chain_denotes(nodes@, current as int, cs, 1, op) == denotes(nodes@, current as int, cs[0]));
    }
    let mut k: usize = 1;
    while k < n
        invariant
            cs == conditions@,
            before == old(nodes)@,
            n == cs.len(),
            op == chain_op(all),
            1 <= k <= n,
            before.len() <= MAX_CONDITION_NODES,
            nodes@.len() == before.len() + chain_count(cs, k as nat),
            nodes@.len() <= MAX_CONDITION_NODES,
            nodes@.subrange(0, before.len() as int) == before,
            chain_ok(cs, k as nat),
            current == nodes@.len() - 1,
            chain_denotes(nodes@, current as int, cs, k as nat, op),
        decreases n - k,
    {
        let ghost start = nodes@;
        let next = match compile_condition(&conditions[k], nodes) {
            Ok(v) => v,
            Err(e) => {
                proof {
                    assert(nodes@.subrange(0, before.len() as int) =~= before) by {
                        assert(nodes@.subrange(0, start.len() as int) == start);
                    }
                    if chain_ok(cs, n as nat) && before.len() + chain_count(cs, n as nat) <= MAX_CONDITION_NODES {
                        lemma_chain_mono(cs, (k + 1) as nat, n as nat);
                    }
                }
                return Err(e);
            },
        };
        let ghost middle = nodes@;
        let node = ConditionNode { op, left: current, right: next, value: ConditionValue::Empty };
        let pushed = push_node(nodes, node);
        let root = match pushed {
            Ok(v) => v,
            Err(e) => {
                proof {
                    assert(nodes@.subrange(0, before.len() as int) =~= before) by {
                        assert(middle.subrange(0, start.len() as int) == start);
                    }
                    if chain_ok(cs, n as nat) && before.len() + chain_count(cs, n as nat) <= MAX_CONDITION_NODES {
                        lemma_chain_mono(cs, (k + 1) as nat, n as nat);
                    }
                }
                return Err(e);
            },
        };
        proof {
            assert(middle.subrange(0, start.len() as int) == start);
            assert(nodes@.subrange(0, middle.len() as int) =~= middle);
            assert(nodes@.subrange(0, start.len() as int) =~= start);
            lemma_chain_denotes_extends(start, nodes@, current as int, cs, k as nat, op);
            lemma_denotes_extends(middle, nodes@, next as int, cs[k as int]);
            assert(nodes@.subrange(0, before.len() as int) =~= before);
        }
        current = root;
        k = k + 1;
    }
    Ok(current)
}

} // verus!
