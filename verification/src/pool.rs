use vstd::prelude::*;
use crate::error::Result;
use crate::legacy::policy::{PluginTrustFact, PolicyFacts, RiskClass};
use crate::legacy::receipt::ReceiptPayload;
use crate::model_waist::{ModelClass, ReplayStrength, RuntimeKind};

verus! {

/// A stack of at most `N` reusable policy fact values.
#[derive(Debug)]
pub struct PolicyFactsPool<const N: usize> {
    items: Vec<PolicyFacts>,
}

impl<const N: usize> View for PolicyFactsPool<N> {
    type V = Seq<PolicyFacts>;

    closed spec fn view(&self) -> Seq<PolicyFacts> {
        self.items@
    }
}

impl<const N: usize> PolicyFactsPool<N> {
    #[verifier::type_invariant]
    closed spec fn inv(self) -> bool {
        self.items@.len() <= N
    }

    /// An empty pool.
    pub fn new() -> (r: Self)
        ensures
            r@ == Seq::<PolicyFacts>::empty(),
    {
        PolicyFactsPool { items: Vec::new() }
    }

    /// The number of pooled values, at most `N`.
    pub fn len(&self) -> (r: usize)
        ensures
            r == self@.len(),
            r <= N,
    {
        proof {
            use_type_invariant(self);
        }
        self.items.len()
    }

    /// Takes the most recently released value, if any.
    pub fn acquire(&mut self) -> (r: Option<PolicyFacts>)
        ensures
            old(self)@.len() == 0 ==> r is None && final(self)@ == old(self)@,
            old(self)@.len() > 0 ==> r == Some(old(self)@.last()) && final(self)@ == old(self)@.drop_last(),
    {
        proof {
            use_type_invariant(&*self);
        }
        let mut items: Vec<_> = Vec::new();
        std::mem::swap(&mut items, &mut self.items);
        let r = items.pop();
        self.items = items;
        r
    }

    /// Returns a value to the pool; when the pool is full the value is dropped.
    pub fn release(&mut self, item: PolicyFacts)
        ensures
            old(self)@.len() < N ==> final(self)@ == old(self)@.push(item),
            old(self)@.len() >= N ==> final(self)@ == old(self)@,
    {
        proof {
            use_type_invariant(&*self);
        }
        if self.items.len() < N {
            let mut items: Vec<_> = Vec::new();
        std::mem::swap(&mut items, &mut self.items);
            items.push(item);
            self.items = items;
        }
    }
}

impl<const N: usize> Default for PolicyFactsPool<N> {
    fn default() -> (r: Self)
        ensures
            r@ == Seq::<PolicyFacts>::empty(),
    {
        PolicyFactsPool::new()
    }
}

/// A stack of at most `N` reusable receipt payloads.
#[derive(Debug)]
pub struct ReceiptPayloadPool<'a, const N: usize> {
    items: Vec<ReceiptPayload<'a>>,
}

impl<'a, const N: usize> View for ReceiptPayloadPool<'a, N> {
    type V = Seq<ReceiptPayload<'a>>;

    closed spec fn view(&self) -> Seq<ReceiptPayload<'a>> {
        self.items@
    }
}

impl<'a, const N: usize> ReceiptPayloadPool<'a, N> {
    #[verifier::type_invariant]
    closed spec fn inv(self) -> bool {
        self.items@.len() <= N
    }

    /// An empty pool.
    pub fn new() -> (r: Self)
        ensures
            r@ == Seq::<ReceiptPayload<'a>>::empty(),
    {
        ReceiptPayloadPool { items: Vec::new() }
    }

    /// Takes the most recently released payload, if any.
    pub fn acquire(&mut self) -> (r: Option<ReceiptPayload<'a>>)
        ensures
            old(self)@.len() == 0 ==> r is None && final(self)@ == old(self)@,
            old(self)@.len() > 0 ==> r == Some(old(self)@.last()) && final(self)@ == old(self)@.drop_last(),
    {
        proof {
            use_type_invariant(&*self);
        }
        let mut items: Vec<_> = Vec::new();
        std::mem::swap(&mut items, &mut self.items);
        let r = items.pop();
        self.items = items;
        r
    }

    /// Returns a payload to the pool; when the pool is full it is dropped.
    pub fn release(&mut self, item: ReceiptPayload<'a>)
        ensures
            old(self)@.len() < N ==> final(self)@ == old(self)@.push(item),
            old(self)@.len() >= N ==> final(self)@ == old(self)@,
    {
        proof {
            use_type_invariant(&*self);
        }
        if self.items.len() < N {
            let mut items: Vec<_> = Vec::new();
        std::mem::swap(&mut items, &mut self.items);
            items.push(item);
            self.items = items;
        }
    }
}

impl<'a, const N: usize> Default for ReceiptPayloadPool<'a, N> {
    fn default() -> (r: Self)
        ensures
            r@ == Seq::<ReceiptPayload<'a>>::empty(),
    {
        ReceiptPayloadPool::new()
    }
}

/// The policy facts a pool is filled with: low risk, no review, no binding
/// effect, no fallbacks, an untrusted plugin, a local open-weight model that
/// is only declared.
pub open spec fn zeroed_facts() -> PolicyFacts {
    PolicyFacts {
        risk_class: RiskClass::Low,
        requires_human_review: false,
        binding_effect_present: false,
        provider_fallbacks_allowed: false,
        plugin_trust_level: PluginTrustFact::Untrusted,
        runtime_kind: RuntimeKind::LocalOpenWeightModel,
        replay_strength: ReplayStrength::DeclaredOnly,
        model_class: ModelClass::OpenWeight,
    }
}

/// The policy facts a pool is filled with.
pub fn zeroed_policy_facts() -> (r: PolicyFacts)
    ensures
        r == zeroed_facts(),
{
    PolicyFacts {
        risk_class: RiskClass::Low,
        requires_human_review: false,
        binding_effect_present: false,
        provider_fallbacks_allowed: false,
        plugin_trust_level: PluginTrustFact::Untrusted,
        runtime_kind: RuntimeKind::LocalOpenWeightModel,
        replay_strength: ReplayStrength::DeclaredOnly,
        model_class: ModelClass::OpenWeight,
    }
}

/// Releases up to `count` fresh values into the pool, stopping when it is full.
pub fn prefill_policy_pool<const N: usize>(pool: &mut PolicyFactsPool<N>, count: usize) -> (r: Result<()>)
    ensures
        r is Ok,
        final(pool)@.len() == if old(pool)@.len() + count <= N { old(pool)@.len() + count } else { N as int },
        final(pool)@.subrange(0, old(pool)@.len() as int) == old(pool)@,
        forall|i: int| old(pool)@.len() <= i < final(pool)@.len() ==> #[trigger] final(pool)@[i] == zeroed_facts(),
{
    let ghost start = pool@;
    let _ = pool.len();
    assert(start.subrange(0, start.len() as int) =~= start);
    let mut k: usize = 0;
    while k < count
        invariant_except_break
            k <= count,
            pool@.len() == start.len() + k,
            pool@.len() <= N,
            pool@.subrange(0, start.len() as int) == start,
            forall|i: int| start.len() <= i < pool@.len() ==> #[trigger] pool@[i] == zeroed_facts(),
        ensures
            pool@.len() == if start.len() + count <= N { start.len() + count } else { N as int },
            pool@.subrange(0, start.len() as int) == start,
            forall|i: int| start.len() <= i < pool@.len() ==> #[trigger] pool@[i] == zeroed_facts(),
        decreases count - k,
    {
        if pool.len() >= N {
            break;
        }
        let ghost before = pool@;
        pool.release(zeroed_policy_facts());
        assert(pool@.subrange(0, start.len() as int) =~= before.subrange(0, start.len() as int));
        k = k + 1;
    }
    Ok(())
}

} // verus!
