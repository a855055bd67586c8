//! The records of every market that was created. There is one market for
//! a target asset and one attribution for a normalized name; no record is
//! ever changed through the registry or removed from it.

use vstd::prelude::*;
use crate::instructions::new_market::{handler, NewMarket};
use crate::state::address::Address;
use crate::state::market::{Curve, Market, MarketAttribution, MarketAttributionView, MarketView};
use crate::token::{planned, Invocation};
use crate::utils::error_code::ErrorCode;
use crate::utils::seed_format::{normalized, to_seed_format};

verus! {

/// The two records that one creation writes.
struct Registration {
    market: Market,
    attribution: MarketAttribution,
}

/// The arguments of one creation.
pub struct Creation {
    pub ctx: NewMarket,
    pub market_bump: u8,
    pub base_treasury_bump: u8,
    pub authority_bump: u8,
    pub name: Seq<char>,
    pub curve: u8,
}

/// What a registry holds: the markets in the order of their creation, and
/// beside each its attribution.
pub struct RegistryView {
    pub markets: Seq<MarketView>,
    pub attributions: Seq<MarketAttributionView>,
}

impl RegistryView {
    /// Each market stands beside its own attribution, no two markets share
    /// a target asset, and no two attributions share a name.
    pub open spec fn wf(self) -> bool {
        &&& self.markets.len() == self.attributions.len()
        &&& forall|i: int|
            0 <= i < self.markets.len() ==> self.attributions[i]
                == #[trigger] self.markets[i].attribution()
        &&& forall|i: int, j: int|
            0 <= i < j < self.markets.len() ==> #[trigger] self.markets[i].target_mint
                != #[trigger] self.markets[j].target_mint
        &&& forall|i: int, j: int|
            0 <= i < j < self.attributions.len() ==> #[trigger] self.attributions[i].name
                != #[trigger] self.attributions[j].name
    }

    /// Whether the target asset has a market.
    pub open spec fn has_market(self, target_mint: Address) -> bool {
        exists|i: int|
            0 <= i < self.markets.len() && #[trigger] self.markets[i].target_mint == target_mint
    }

    /// Whether the normalized name is taken.
    pub open spec fn has_name(self, name: Seq<u8>) -> bool {
        exists|i: int|
            0 <= i < self.attributions.len() && #[trigger] self.attributions[i].name == name
    }

    /// How many attributions hold the normalized name.
    pub open spec fn holders(self, name: Seq<u8>) -> nat {
        self.attributions.filter(|a: MarketAttributionView| a.name == name).len()
    }

    /// The registry after `market` has been entered, or the refusal where
    /// its target asset or its normalized name is already there.
    pub open spec fn enter(self, market: MarketView) -> Result<RegistryView, ErrorCode> {
        if self.has_market(market.target_mint) || self.has_name(market.attribution().name) {
            Err(ErrorCode::AlreadyExists)
        } else {
            Ok(
                RegistryView {
                    markets: self.markets.push(market),
                    attributions: self.attributions.push(market.attribution()),
                },
            )
        }
    }

    /// The registry after a creation, or the refusal: `UnknownCurve` for a
    /// selector that names no curve, whatever else holds, and
    /// `AlreadyExists` for a target asset or a name that is already there.
    pub open spec fn create(self, creation: Creation) -> Result<RegistryView, ErrorCode> {
        match Curve::of_selector(creation.curve) {
            None => Err(ErrorCode::UnknownCurve),
            Some(c) => self.enter(
                creation.ctx.record(
                    creation.market_bump,
                    creation.base_treasury_bump,
                    creation.authority_bump,
                    creation.name,
                    c,
                ),
            ),
        }
    }
}

/// Entering a market keeps the registry well formed.
pub proof fn lemma_enter_preserves_wf(registry: RegistryView, market: MarketView)
    requires
        registry.wf(),
        registry.enter(market) is Ok,
    ensures
        registry.enter(market)->Ok_0.wf(),
{
    let after = registry.enter(market)->Ok_0;
    let n = registry.markets.len() as int;
    assert forall|i: int, j: int|
        0 <= i < j < after.markets.len() implies #[trigger] after.markets[i].target_mint
        != #[trigger] after.markets[j].target_mint by {
        if j == n {
            // the market was entered because none had its target asset
            assert(registry.markets[i].target_mint != market.target_mint);
        }
    }
    assert forall|i: int, j: int|
        0 <= i < j < after.attributions.len() implies #[trigger] after.attributions[i].name
        != #[trigger] after.attributions[j].name by {
        if j == n {
            // and because none held its name
            assert(registry.attributions[i].name != market.attribution().name);
        }
    }
}

/// In a well-formed registry a normalized name has one holder if it is
/// taken, and none if it is not.
pub proof fn lemma_holders(registry: RegistryView, name: Seq<u8>)
    requires
        registry.wf(),
    ensures
        registry.holders(name) == (if registry.has_name(name) {
            1nat
        } else {
            0nat
        }),
    decreases registry.attributions.len(),
{
    reveal(Seq::filter);
    if registry.attributions.len() > 0 {
        let rest = RegistryView {
            markets: registry.markets.drop_last(),
            attributions: registry.attributions.drop_last(),
        };
        let last = registry.attributions.last();
        let n = rest.attributions.len() as int;
        lemma_holders(rest, name);
        if rest.has_name(name) {
            // the holder is among the first; the last holds another name
            let i = choose|i: int| 0 <= i < n && #[trigger] rest.attributions[i].name == name;
            assert(registry.attributions[i].name == name);
            assert(registry.attributions[i].name != registry.attributions[n].name);
        } else if last.name == name {
            // the last is the one holder
            assert(registry.attributions[n].name == name);
        } else if registry.has_name(name) {
            // a holder would be among the first
            let i = choose|i: int|
                0 <= i < n + 1 && #[trigger] registry.attributions[i].name == name;
            assert(rest.attributions[i].name == name);
        }
    }
}

/// Of two creations whose names have one normalized form, the second is
/// refused, and the name is left with exactly one attribution.
pub proof fn lemma_name_is_taken_once(registry: RegistryView, first: Creation, second: Creation)
    requires
        registry.wf(),
        registry.create(first) is Ok,
        normalized(second.name) == normalized(first.name),
    ensures
        registry.create(first)->Ok_0.create(second) == Err::<RegistryView, ErrorCode>(
            (if Curve::of_selector(second.curve) is None {
                ErrorCode::UnknownCurve
            } else {
                ErrorCode::AlreadyExists
            }),
        ),
        registry.create(first)->Ok_0.holders(normalized(first.name)) == 1,
{
    let after = registry.create(first)->Ok_0;
    let curve = Curve::of_selector(first.curve)->Some_0;
    let market = first.ctx.record(
        first.market_bump,
        first.base_treasury_bump,
        first.authority_bump,
        first.name,
        curve,
    );
    lemma_enter_preserves_wf(registry, market);
    // the first creation's attribution holds the name
    let n = registry.attributions.len() as int;
    assert(after.attributions[n].name == normalized(first.name));
    lemma_holders(after, normalized(first.name));
}

/// The markets that were created, with their attributions.
pub struct Registry {
    entries: Vec<Registration>,
}

impl View for Registry {
    type V = RegistryView;

    closed spec fn view(&self) -> RegistryView {
        RegistryView {
            markets: Seq::new(self.entries@.len(), |i: int| self.entries@[i].market@),
            attributions: Seq::new(self.entries@.len(), |i: int| self.entries@[i].attribution@),
        }
    }
}

/// Whether two byte strings are the same.
fn same_bytes(a: &Vec<u8>, b: &Vec<u8>) -> (r: bool)
    ensures
        r == (a@ == b@),
{
    if a.len() != b.len() {
        return false;
    }
    let mut i: usize = 0;
    while i < a.len()
        invariant
            i <= a.len(),
            a.len() == b.len(),
            forall|j: int| 0 <= j < i ==> a@[j] == b@[j],
        decreases a.len() - i,
    {
        if a[i] != b[i] {
            return false;
        }
        i = i + 1;
    }
    assert(a@ =~= b@);
    true
}

impl Registry {
    #[verifier::type_invariant]
    spec fn well_formed(&self) -> bool {
        self@.wf()
    }

    /// A registry without any market.
    pub fn new() -> (registry: Registry)
        ensures
            registry@.markets.len() == 0,
            registry@.attributions.len() == 0,
            registry@.wf(),
    {
        Registry { entries: Vec::new() }
    }

    /// The number of markets.
    pub fn len(&self) -> (n: usize)
        ensures
            n == self@.markets.len(),
            n == self@.attributions.len(),
            self@.wf(),
    {
        proof {
            use_type_invariant(self);
        }
        self.entries.len()
    }

    /// Where the market of a target asset stands, if it has one.
    fn position_of_market(&self, target_mint: &Address) -> (r: Option<usize>)
        ensures
            r is Some <==> self@.has_market(*target_mint),
            r matches Some(i) ==> i < self.entries@.len() && self@.markets[i as int].target_mint
                == *target_mint,
    {
        let mut i: usize = 0;
        while i < self.entries.len()
            invariant
                i <= self.entries.len(),
                forall|j: int| 0 <= j < i ==> self@.markets[j].target_mint != *target_mint,
            decreases self.entries.len() - i,
        {
            if self.entries[i].market.target_mint.equals(target_mint) {
                assert(self@.markets[i as int].target_mint == *target_mint);
                return Some(i);
            }
            i = i + 1;
        }
        None
    }

    /// Where the attribution that holds a normalized name stands, if the
    /// name is taken.
    fn position_of_name(&self, name: &Vec<u8>) -> (r: Option<usize>)
        ensures
            r is Some <==> self@.has_name(name@),
            r matches Some(i) ==> i < self.entries@.len() && self@.attributions[i as int].name
                == name@,
    {
        let mut i: usize = 0;
        while i < self.entries.len()
            invariant
                i <= self.entries.len(),
                forall|j: int| 0 <= j < i ==> self@.attributions[j].name != name@,
            decreases self.entries.len() - i,
        {
            if same_bytes(&self.entries[i].attribution.name, name) {
                assert(self@.attributions[i as int].name == name@);
                return Some(i);
            }
            i = i + 1;
        }
        None
    }

    /// The market of a target asset, if it has one.
    pub fn market(&self, target_mint: &Address) -> (r: Option<&Market>)
        ensures
            self@.wf(),
            r is Some <==> self@.has_market(*target_mint),
            r matches Some(market) ==> market.target_mint == *target_mint && self@.markets.contains(
                market@,
            ),
    {
        proof {
            use_type_invariant(self);
        }
        match self.position_of_market(target_mint) {
            Some(i) => {
                Some(&self.entries[i].market)
            },
            None => None,
        }
    }

    /// The attribution that holds a name, if the name is taken. The name
    /// is compared in its normalized form.
    pub fn attribution(&self, name: &str) -> (r: Option<&MarketAttribution>)
        ensures
            self@.wf(),
            r is Some <==> self@.has_name(normalized(name@)),
            r matches Some(attribution) ==> attribution@.name == normalized(name@)
                && self@.attributions.contains(attribution@),
    {
        proof {
            use_type_invariant(self);
        }
        let key = to_seed_format(name);
        match self.position_of_name(&key) {
            Some(i) => {
                Some(&self.entries[i].attribution)
            },
            None => None,
        }
    }

    /// Creates a market and enters it. It fails with `UnknownCurve` where
    /// the selector names no curve, and with `AlreadyExists` where the
    /// target asset has a market or the normalized name is taken; the
    /// registry is then as it was.
    pub fn new_market(
        &mut self,
        ctx: NewMarket,
        market_bump: u8,
        attribution_bump: u8,
        base_treasury_bump: u8,
        authority_bump: u8,
        name: String,
        curve: u8,
    ) -> (r: Result<Vec<Invocation>, ErrorCode>)
        ensures
            final(self)@.wf(),
            (match old(self)@.create(
                (Creation {
                    ctx,
                    market_bump,
                    base_treasury_bump,
                    authority_bump,
                    name: name@,
                    curve,
                }),
            ) {
                Ok(created) => {
                    &&& planned(r) == Ok::<Seq<Invocation>, ErrorCode>(ctx.plan(base_treasury_bump))
                    &&& final(self)@.markets == created.markets
                    &&& final(self)@.attributions == created.attributions
                },
                Err(e) => {
                    &&& planned(r) == Err::<Seq<Invocation>, ErrorCode>(e)
                    &&& final(self)@ == old(self)@
                },
            }),
    {
        proof {
            use_type_invariant(&*self);
        }
        let mut written = ctx;
        let invocations = handler(
            &mut written,
            market_bump,
            attribution_bump,
            base_treasury_bump,
            authority_bump,
            name,
            curve,
        )?;
        if self.position_of_market(&written.market.target_mint).is_some() {
            return Err(ErrorCode::AlreadyExists);
        }
        if self.position_of_name(&written.attribution.name).is_some() {
            return Err(ErrorCode::AlreadyExists);
        }
        proof {
            lemma_enter_preserves_wf(self@, written.market@);
        }
        let ghost before = self@;
        let ghost market = written.market@;
        let mut taken = Registry::new();
        core::mem::swap(self, &mut taken);
        let mut entries = taken.entries;
        entries.push(Registration { market: written.market, attribution: written.attribution });
        proof {
            let after = (Registry { entries })@;
            assert(after.markets =~= before.markets.push(market));
            assert(after.attributions =~= before.attributions.push(market.attribution()));
        }
        *self = Registry { entries };
        Ok(invocations)
    }
}

} // verus!
