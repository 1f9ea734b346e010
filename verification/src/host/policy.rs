//! Compiling a policy file: its rules in order of descending priority (rules
//! of equal priority in file order), their conditions compiled into one node
//! array, and their decisions and reasons checked.
use vstd::prelude::*;
use vstd::string::StringSliceAdditionalSpecFns;
use crate::crypto::sha256_spec;
use crate::host::conditions::{compile_condition, condition_count, condition_ok, denotes, ConditionFile};
use crate::host::HostError;
use crate::legacy::policy::{CompiledPolicy, CompiledRule, ConditionNode, Decision, RuleEffect};
use crate::limits::{MAX_CONDITION_NODES, MAX_POLICY_ID_LEN, MAX_POLICY_VERSION_LEN, MAX_REASON_CODE_LEN};
use crate::text::concat;
use crate::types::{identifier_error, non_nul_error, BoundedBytes, Sha256Digest};
use crate::receipt_v2::owned_text;

verus! {

/// `ink.policy.v1`
pub const POLICY_SCHEMA_V1: &'static str = "ink.policy.v1";
/// `POLICY_DEFAULT_FAIL`
pub const POLICY_DEFAULT_REASON: &'static str = "POLICY_DEFAULT_FAIL";

/// One rule of a policy file.
#[derive(Debug)]
pub struct PolicyRuleFile {
    pub id: String,
    pub priority: u16,
    pub decision: String,
    pub reason_code: String,
    pub when: ConditionFile,
}

/// A policy file: its schema, identity, default decision and rules.
#[derive(Debug)]
pub struct PolicyFile {
    pub schema: String,
    pub id: String,
    pub version: String,
    pub default_decision: String,
    pub rules: Vec<PolicyRuleFile>,
}

/// The decision a policy names: `pass`, `warn`, or `fail` for blocking.
pub open spec fn policy_decision_of(s: Seq<char>) -> Option<Decision> {
    if s == "pass"@ {
        Some(Decision::Pass)
    } else if s == "warn"@ {
        Some(Decision::Warn)
    } else if s == "fail"@ {
        Some(Decision::Block)
    } else {
        None
    }
}

/// The decision a policy names; other names are refused.
pub fn policy_decision_from_str(value: &str) -> (r: Result<Decision, HostError>)
    ensures
        policy_decision_of(value@) matches Some(d) ==> r == Ok::<Decision, HostError>(d),
        policy_decision_of(value@) is None ==> (r matches Err(HostError::InvalidInput(m))
            && m@ == "unknown policy decision "@ + value@),
{
    if crate::bytes::str_eq(value, "pass") {
        return Ok(Decision::Pass);
    }
    if crate::bytes::str_eq(value, "warn") {
        return Ok(Decision::Warn);
    }
    if crate::bytes::str_eq(value, "fail") {
        return Ok(Decision::Block);
    }
    Err(HostError::InvalidInput(concat("unknown policy decision ", value)))
}

/// The decision a receipt states publicly: `pass`, `warn`, and blocking for
/// any other text.
pub open spec fn public_decision_of(s: Seq<char>) -> Decision {
    if s == "pass"@ {
        Decision::Pass
    } else if s == "warn"@ {
        Decision::Warn
    } else {
        Decision::Block
    }
}

/// The decision a receipt states publicly.
pub fn policy_decision_from_public(value: &str) -> (r: Decision)
    ensures
        r == public_decision_of(value@),
{
    if crate::bytes::str_eq(value, "pass") {
        Decision::Pass
    } else if crate::bytes::str_eq(value, "warn") {
        Decision::Warn
    } else {
        Decision::Block
    }
}

/// The priorities of rules, in file order.
pub open spec fn priorities(rules: Seq<PolicyRuleFile>) -> Seq<u16> {
    rules.map_values(|r: PolicyRuleFile| r.priority)
}

/// The position in `order` of the first rule whose priority is below `p`, or
/// the end.
pub open spec fn first_lower(ps: Seq<u16>, order: Seq<usize>, p: u16) -> nat
    decreases order.len(),
{
    if order.len() == 0 {
        0
    } else if ps[order[0] as int] < p {
        0
    } else {
        1 + first_lower(ps, order.drop_first(), p)
    }
}

/// The order in which the first `n` rules apply: each rule placed after every
/// earlier rule of equal or higher priority and before the lower ones.
pub open spec fn priority_order(ps: Seq<u16>, n: nat) -> Seq<usize>
    decreases n,
{
    if n == 0 || n > ps.len() {
        Seq::empty()
    } else {
        let order = priority_order(ps, (n - 1) as nat);
        order.insert(first_lower(ps, order, ps[n - 1]) as int, (n - 1) as usize)
    }
}

/// Whether `order` lists each of the first `n` rules once, by descending
/// priority, rules of equal priority in file order.
pub open spec fn priority_sorted(ps: Seq<u16>, order: Seq<usize>, n: nat) -> bool {
    &&& order.len() == n
    &&& forall|a: int| 0 <= a < n ==> #[trigger] order[a] < n
    &&& forall|a: int, b: int| 0 <= a < b < n ==> order[a] != order[b]
    &&& forall|a: int, b: int| 0 <= a < b < n ==> ps[order[a] as int] > ps[order[b] as int]
        || (ps[order[a] as int] == ps[order[b] as int] && order[a] < order[b])
}

proof fn lemma_first_lower(ps: Seq<u16>, order: Seq<usize>, p: u16, j: nat)
    requires
        j <= order.len(),
        forall|a: int| 0 <= a < j ==> ps[order[a] as int] >= p,
        j == order.len() || ps[order[j as int] as int] < p,
    ensures
        first_lower(ps, order, p) == j,
    decreases order.len(),
{
    if order.len() > 0 && j > 0 {
        assert forall|a: int| 0 <= a < j - 1 implies ps[order.drop_first()[a] as int] >= p by {
            assert(order.drop_first()[a] == order[a + 1]);
        }
        if j < order.len() {
            assert(order.drop_first()[j - 1] == order[j as int]);
        }
        lemma_first_lower(ps, order.drop_first(), p, (j - 1) as nat);
    }
}

proof fn lemma_first_lower_bounds(ps: Seq<u16>, order: Seq<usize>, p: u16)
    ensures
        first_lower(ps, order, p) <= order.len(),
        forall|a: int| 0 <= a < first_lower(ps, order, p) ==> ps[order[a] as int] >= p,
        first_lower(ps, order, p) < order.len() ==> ps[order[first_lower(ps, order, p) as int] as int] < p,
    decreases order.len(),
{
    if order.len() > 0 && ps[order[0] as int] >= p {
        lemma_first_lower_bounds(ps, order.drop_first(), p);
        let j = first_lower(ps, order, p);
        assert forall|a: int| 0 <= a < j implies ps[order[a] as int] >= p by {
            if a > 0 {
                assert(order.drop_first()[a - 1] == order[a]);
            }
        }
        if j < order.len() {
            assert(order.drop_first()[j - 1] == order[j as int]);
        }
    }
}

/// The rules apply in an order that lists each rule once, by descending
/// priority, and rules of equal priority in the order of the file.
pub proof fn lemma_priority_order_sorted(ps: Seq<u16>, n: nat)
    requires
        n <= ps.len(),
        ps.len() <= usize::MAX,
    ensures
        priority_sorted(ps, priority_order(ps, n), n),
    decreases n,
{
    if n > 0 {
        let m = (n - 1) as nat;
        lemma_priority_order_sorted(ps, m);
        let prev = priority_order(ps, m);
        let p = ps[m as int];
        let j = first_lower(ps, prev, p);
        lemma_first_lower_bounds(ps, prev, p);
        let order = prev.insert(j as int, m as usize);
        assert(order == priority_order(ps, n));
        assert(order[j as int] == m as usize);
        assert forall|a: int| 0 <= a < n implies #[trigger] order[a] < n by {
            if a < j {
                assert(order[a] == prev[a]);
            } else if a > j {
                assert(order[a] == prev[a - 1]);
            }
        }
        assert forall|a: int, b: int| 0 <= a < b < n implies order[a] != order[b] && (ps[order[a] as int] > ps[order[b] as int]
            || (ps[order[a] as int] == ps[order[b] as int] && order[a] < order[b])) by {
            if b < j {
                assert(order[a] == prev[a] && order[b] == prev[b]);
                assert(prev[a] != prev[b]);
            } else if b == j {
                assert(order[a] == prev[a]);
                assert(prev[a] < m);
                assert(ps[prev[a] as int] >= p);
            } else if a < j {
                assert(order[a] == prev[a] && order[b] == prev[b - 1]);
                assert(a < b - 1);
                assert(prev[a] != prev[b - 1]);
            } else if a == j {
                assert(order[b] == prev[b - 1]);
                assert(prev[b - 1] < m);
                assert(ps[prev[j as int] as int] < p);
                if b - 1 > j {
                    assert(prev[j as int] != prev[b - 1]);
                    assert(ps[prev[j as int] as int] >= ps[prev[b - 1] as int]);
                }
                assert(ps[prev[b - 1] as int] < p);
            } else {
                assert(order[a] == prev[a - 1] && order[b] == prev[b - 1]);
                assert(prev[a - 1] != prev[b - 1]);
            }
        }
    }
}

/// The order in which a policy's rules apply.
fn rule_order(rules: &Vec<PolicyRuleFile>) -> (r: Vec<usize>)
    ensures
        r@ == priority_order(priorities(rules@), rules@.len()),
{
    let ghost ps = priorities(rules@);
    let mut order: Vec<usize> = Vec::new();
    let mut i: usize = 0;
    while i < rules.len()
        invariant
            ps == priorities(rules@),
            i <= rules@.len(),
            order@ == priority_order(ps, i as nat),
        decreases rules@.len() - i,
    {
        proof {
            lemma_priority_order_sorted(ps, i as nat);
        }
        assert(order@.len() == i);
        let p = rules[i].priority;
        let mut j: usize = 0;
        while j < order.len() && !(rules[order[j]].priority < p)
            invariant
                ps == priorities(rules@),
                i < rules@.len(),
                p == ps[i as int],
                priority_sorted(ps, order@, i as nat),
                j <= order@.len(),
                forall|a: int| 0 <= a < j ==> ps[order@[a] as int] >= p,
            decreases order@.len() - j,
        {
            j = j + 1;
        }
        proof {
            lemma_first_lower(ps, order@, p, j as nat);
        }
        order.insert(j, i);
        i = i + 1;
    }
    order
}

/// The total number of nodes the conditions of the rules compile to, taken in
/// the given order.
pub open spec fn total_count(rules: Seq<PolicyRuleFile>, order: Seq<usize>) -> nat
    decreases order.len(),
{
    if order.len() == 0 {
        0
    } else {
        total_count(rules, order.drop_last()) + condition_count(rules[order.last() as int].when)
    }
}

/// Whether a rule compiles: its condition, its decision and its reason code.
pub open spec fn rule_ok(rule: PolicyRuleFile) -> bool {
    &&& condition_ok(rule.when)
    &&& policy_decision_of(rule.decision@) is Some
    &&& identifier_error(text_bytes(rule.reason_code@), MAX_REASON_CODE_LEN as nat) is None
}

/// The bytes of text.
pub open spec fn text_bytes(s: Seq<char>) -> Seq<u8> {
    vstd::utf8::encode_utf8(s)
}

/// Whether a policy file compiles: its schema, every rule, the total number of
/// condition nodes, its identity and its default decision.
pub open spec fn policy_ok(file: PolicyFile) -> bool {
    let order = priority_order(priorities(file.rules@), file.rules@.len());
    &&& file.schema@ == POLICY_SCHEMA_V1@
    &&& forall|k: int| 0 <= k < order.len() ==> #[trigger] rule_ok(file.rules@[order[k] as int])
    &&& total_count(file.rules@, order) <= MAX_CONDITION_NODES
    &&& non_nul_error(text_bytes(file.id@), MAX_POLICY_ID_LEN as nat) is None
    &&& non_nul_error(text_bytes(file.version@), MAX_POLICY_VERSION_LEN as nat) is None
    &&& policy_decision_of(file.default_decision@) is Some
}

proof fn lemma_total_count_prefix(rules: Seq<PolicyRuleFile>, order: Seq<usize>, k: int)
    requires
        0 <= k <= order.len(),
    ensures
        total_count(rules, order.take(k)) <= total_count(rules, order),
    decreases order.len(),
{
    if k < order.len() {
        assert(order.drop_last().take(k) =~= order.take(k));
        lemma_total_count_prefix(rules, order.drop_last(), k);
    } else {
        assert(order.take(k) =~= order);
    }
}

proof fn lemma_total_count_step(rules: Seq<PolicyRuleFile>, order: Seq<usize>, k: int)
    requires
        0 <= k < order.len(),
    ensures
        total_count(rules, order.take(k + 1)) == total_count(rules, order.take(k)) + condition_count(rules[order[k] as int].when),
{
    assert(order.take(k + 1).drop_last() =~= order.take(k));
}

/// Whether a compiled rule is the compiled form of `rule` over `nodes`: its
/// priority, the hash of its identifier, its decision and reason, and a root
/// node that is the compiled form of its condition.
pub open spec fn compiled_rule_ok(c: CompiledRule, rule: PolicyRuleFile, nodes: Seq<ConditionNode>) -> bool {
    &&& c.priority == rule.priority
    &&& c.rule_id_hash@ == sha256_spec(text_bytes(rule.id@))
    &&& policy_decision_of(rule.decision@) == Some(c.effect.decision)
    &&& c.effect.reason@ == text_bytes(rule.reason_code@)
    &&& denotes(nodes, c.root as int, rule.when)
}

/// Whether `compiled` is the compiled form of `file`, whose source bytes are
/// `raw`: its rules are the file's in priority order, each compiled over the
/// shared node array, which holds exactly their nodes; its identity, the hash
/// of its source, and its default effect.
pub open spec fn compiled_policy_ok(compiled: CompiledPolicy, file: PolicyFile, raw: Seq<u8>) -> bool {
    let order = priority_order(priorities(file.rules@), file.rules@.len());
    &&& compiled.rules@.len() == order.len()
    &&& forall|k: int| 0 <= k < order.len() ==> #[trigger] compiled_rule_ok(compiled.rules@[k], file.rules@[order[k] as int], compiled.nodes@)
    &&& compiled.nodes@.len() == total_count(file.rules@, order)
    &&& compiled.policy_id@ == text_bytes(file.id@)
    &&& compiled.policy_version@ == text_bytes(file.version@)
    &&& compiled.policy_hash@ == sha256_spec(raw)
    &&& policy_decision_of(file.default_decision@) == Some(compiled.default_effect.decision)
    &&& compiled.default_effect.reason@ == text_bytes(POLICY_DEFAULT_REASON@)
}

fn compile_rule(rule: &PolicyRuleFile, nodes: &mut Vec<ConditionNode>) -> (r: Result<CompiledRule, HostError>)
    requires
        old(nodes)@.len() <= MAX_CONDITION_NODES,
    ensures
        old(nodes)@.len() <= final(nodes)@.len() <= MAX_CONDITION_NODES,
        final(nodes)@.subrange(0, old(nodes)@.len() as int) == old(nodes)@,
        r is Ok <==> rule_ok(*rule) && old(nodes)@.len() + condition_count(rule.when) <= MAX_CONDITION_NODES,
        r matches Ok(c) ==> final(nodes)@.len() == old(nodes)@.len() + condition_count(rule.when)
            && compiled_rule_ok(c, *rule, final(nodes)@),
{
    let root = compile_condition(&rule.when, nodes)?;
    let rule_id_hash = crate::digest::sha256(rule.id.as_str().as_bytes());
    let decision = policy_decision_from_str(rule.decision.as_str())?;
    let reason = match BoundedBytes::<MAX_REASON_CODE_LEN>::new_reason_code(rule.reason_code.as_str().as_bytes()) {
        Ok(b) => crate::bytes::to_vec(b.as_bytes()),
        Err(e) => return Err(HostError::Core(e)),
    };
    Ok(CompiledRule { rule_id_hash, priority: rule.priority, root, effect: RuleEffect { decision, reason } })
}

fn bounded_text<const N: usize>(value: &String) -> (r: Result<Vec<u8>, HostError>)
    ensures
        non_nul_error(text_bytes(value@), N as nat) matches Some(e) ==> r == Err::<Vec<u8>, HostError>(HostError::Core(e)),
        non_nul_error(text_bytes(value@), N as nat) is None ==> (r matches Ok(v) && v@ == text_bytes(value@)),
{
    match BoundedBytes::<N>::new(value.as_str().as_bytes()) {
        Ok(b) => Ok(crate::bytes::to_vec(b.as_bytes())),
        Err(e) => Err(HostError::Core(e)),
    }
}

/// Compiles a policy file whose source bytes are `raw`: the schema must be the
/// policy schema; the rules, in priority order, must each compile, and their
/// conditions fit `MAX_CONDITION_NODES` nodes together; the identity must be
/// within bounds and the default decision known.
pub fn compile_policy(file: &PolicyFile, raw: &[u8]) -> (r: Result<CompiledPolicy, HostError>)
    ensures
        file.schema@ != POLICY_SCHEMA_V1@ ==> (r matches Err(HostError::InvalidInput(m)) && m@ == "expected "@ + POLICY_SCHEMA_V1@),
        r is Ok <==> policy_ok(*file),
        r matches Ok(p) ==> compiled_policy_ok(p, *file, raw@),
{
    if !crate::bytes::str_eq(file.schema.as_str(), POLICY_SCHEMA_V1) {
        return Err(HostError::InvalidInput(concat("expected ", POLICY_SCHEMA_V1)));
    }
    let ghost rules = file.rules@;
    let ghost ps = priorities(rules);
    let order = rule_order(&file.rules);
    let rule_count = file.rules.len();
    assert(rules.len() == rule_count);
    proof {
        assert(ps.len() == rules.len());
        lemma_priority_order_sorted(ps, rules.len());
    }
    let mut nodes: Vec<ConditionNode> = Vec::new();
    let mut compiled: Vec<CompiledRule> = Vec::new();
    let mut k: usize = 0;
    while k < order.len()
        invariant
            rules == file.rules@,
            ps == priorities(rules),
            order@ == priority_order(ps, rules.len()),
            priority_sorted(ps, order@, rules.len()),
            file.schema@ == POLICY_SCHEMA_V1@,
            k <= order@.len(),
            nodes@.len() == total_count(rules, order@.take(k as int)),
            nodes@.len() <= MAX_CONDITION_NODES,
            compiled@.len() == k,
            forall|j: int| 0 <= j < k ==> #[trigger] compiled_rule_ok(compiled@[j], rules[order@[j] as int], nodes@),
            forall|j: int| 0 <= j < k ==> #[trigger] rule_ok(rules[order@[j] as int]),
        decreases order@.len() - k,
    {
        let ghost before = nodes@;
        let index = order[k];
        assert(index < rules.len());
        let rule = compile_rule(&file.rules[index], &mut nodes);
        proof {
            lemma_total_count_step(rules, order@, k as int);
        }
        let c = match rule {
            Ok(c) => c,
            Err(e) => {
                proof {
                    lemma_total_count_prefix(rules, order@, k + 1);
                    assert(!policy_ok(*file)) by {
                        if policy_ok(*file) {
                            assert(rule_ok(rules[order@[k as int] as int]));
                        }
                    }
                }
                return Err(e);
            },
        };
        proof {
            assert forall|j: int| 0 <= j < k implies #[trigger] compiled_rule_ok(compiled@[j], rules[order@[j] as int], nodes@) by {
                assert(compiled_rule_ok(compiled@[j], rules[order@[j] as int], before));
                crate::host::conditions::lemma_denotes_extends(before, nodes@, compiled@[j].root as int, rules[order@[j] as int].when);
            }
        }
        compiled.push(c);
        k = k + 1;
    }
    proof {
        assert(order@.take(order@.len() as int) =~= order@);
    }
    let policy_id = bounded_text::<MAX_POLICY_ID_LEN>(&file.id)?;
    let policy_version = bounded_text::<MAX_POLICY_VERSION_LEN>(&file.version)?;
    let policy_hash = crate::digest::sha256(raw);
    let default_decision = policy_decision_from_str(file.default_decision.as_str())?;
    let default_reason = crate::bytes::to_vec(POLICY_DEFAULT_REASON.as_bytes());
    Ok(CompiledPolicy {
        policy_id,
        policy_version,
        policy_hash,
        nodes,
        rules: compiled,
        default_effect: RuleEffect { decision: default_decision, reason: default_reason },
    })
}

} // verus!
