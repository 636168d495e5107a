//! The order/crowdfunding ledger: any party may create an order against a
//! creation fee, third parties may contribute funds toward it, and
//! contributions become refundable once the order is cancelled.
//!
//! The central invariant is that the aggregate recorded for every order
//! equals the sum of the per-contributor entries, after every call.

use vstd::prelude::*;

use crate::types::AccountId;
use crate::types::Balance;
use crate::types::Error;
use crate::types::Event;
use crate::types::OrderId;
use crate::types::OrderRequirements;
use crate::types::ParaId;

verus! {

/// An active order for a region of Coretime.
#[derive(Clone, Copy, PartialEq, Eq, Structural, Debug)]
pub struct Order {
    /// The identifier of the order: sequential, never reused.
    pub id: OrderId,
    /// The account that created the order and may cancel it.
    pub creator: AccountId,
    /// The parachain for which Coretime is procured.
    pub para_id: ParaId,
    /// The requirements of the order.
    pub requirements: OrderRequirements,
}

/// The funds one contributor has locked toward one order.
#[derive(Clone, Copy, PartialEq, Eq, Structural, Debug)]
pub struct ContributionEntry {
    /// The order contributed to.
    pub order_id: OrderId,
    /// The contributing account.
    pub contributor: AccountId,
    /// The contributed amount, held until refunded.
    pub amount: Balance,
}

/// The aggregate contributions recorded for one order.
#[derive(Clone, Copy, PartialEq, Eq, Structural, Debug)]
pub struct TotalEntry {
    /// The order contributed to.
    pub order_id: OrderId,
    /// The sum of all contributions toward the order.
    pub amount: Balance,
}

/// The spendable funds of one account.
#[derive(Clone, Copy, PartialEq, Eq, Structural, Debug)]
pub struct BalanceEntry {
    /// The account.
    pub account: AccountId,
    /// Its spendable balance.
    pub amount: Balance,
}

/// The sum of `weight` over all elements of `s`.
pub open spec fn weighted_sum<T>(s: Seq<T>, weight: spec_fn(T) -> int) -> int
    decreases s.len(),
{
    if s.len() == 0 {
        0
    } else {
        weighted_sum(s.drop_last(), weight) + weight(s.last())
    }
}

/// Appending an element adds its weight to the sum.
pub proof fn lemma_weighted_sum_push<T>(s: Seq<T>, weight: spec_fn(T) -> int, e: T)
    ensures
        weighted_sum(s.push(e), weight) == weighted_sum(s, weight) + weight(e),
{
    assert(s.push(e).drop_last() =~= s);
    assert(s.push(e).last() == e);
}

/// Replacing one element changes the sum by the difference of the weights.
pub proof fn lemma_weighted_sum_update<T>(s: Seq<T>, weight: spec_fn(T) -> int, i: int, e: T)
    requires
        0 <= i < s.len(),
    ensures
        weighted_sum(s.update(i, e), weight) == weighted_sum(s, weight) - weight(s[i]) + weight(e),
    decreases s.len(),
{
    let t = s.update(i, e);
    if i == s.len() - 1 {
        assert(t.drop_last() =~= s.drop_last());
        assert(t.last() == e);
    } else {
        assert(t.drop_last() =~= s.drop_last().update(i, e));
        assert(t.last() == s.last());
        lemma_weighted_sum_update(s.drop_last(), weight, i, e);
        assert(s.drop_last()[i] == s[i]);
    }
}

/// Removing one element subtracts its weight from the sum.
pub proof fn lemma_weighted_sum_remove<T>(s: Seq<T>, weight: spec_fn(T) -> int, i: int)
    requires
        0 <= i < s.len(),
    ensures
        weighted_sum(s.remove(i), weight) == weighted_sum(s, weight) - weight(s[i]),
    decreases s.len(),
{
    let t = s.remove(i);
    if i == s.len() - 1 {
        assert(t =~= s.drop_last());
    } else {
        assert(t.last() == s.last());
        assert(t.drop_last() =~= s.drop_last().remove(i));
        lemma_weighted_sum_remove(s.drop_last(), weight, i);
        assert(s.drop_last()[i] == s[i]);
    }
}

/// A sum over elements of weight zero is zero.
pub proof fn lemma_weighted_sum_zero<T>(s: Seq<T>, weight: spec_fn(T) -> int)
    requires
        forall|j: int| 0 <= j < s.len() ==> #[trigger] weight(s[j]) == 0,
    ensures
        weighted_sum(s, weight) == 0,
    decreases s.len(),
{
    if s.len() > 0 {
        assert forall|j: int| 0 <= j < s.drop_last().len() implies #[trigger] weight(
            s.drop_last()[j],
        ) == 0 by {
            assert(s.drop_last()[j] == s[j]);
        }
        lemma_weighted_sum_zero(s.drop_last(), weight);
        assert(weight(s[s.len() - 1]) == 0);
    }
}

/// When every element but one has weight zero, the sum is that element's
/// weight.
pub proof fn lemma_weighted_sum_single<T>(s: Seq<T>, weight: spec_fn(T) -> int, i: int)
    requires
        0 <= i < s.len(),
        forall|j: int| 0 <= j < s.len() && j != i ==> #[trigger] weight(s[j]) == 0,
    ensures
        weighted_sum(s, weight) == weight(s[i]),
    decreases s.len(),
{
    if i == s.len() - 1 {
        assert forall|j: int| 0 <= j < s.drop_last().len() implies #[trigger] weight(
            s.drop_last()[j],
        ) == 0 by {
            assert(s.drop_last()[j] == s[j]);
        }
        lemma_weighted_sum_zero(s.drop_last(), weight);
    } else {
        assert forall|j: int|
            0 <= j < s.drop_last().len() && j != i implies #[trigger] weight(
            s.drop_last()[j],
        ) == 0 by {
            assert(s.drop_last()[j] == s[j]);
        }
        lemma_weighted_sum_single(s.drop_last(), weight, i);
        assert(s.drop_last()[i] == s[i]);
        assert(weight(s[s.len() - 1]) == 0);
    }
}

/// A pointwise bound on weights bounds the sums.
pub proof fn lemma_weighted_sum_le<T>(s: Seq<T>, lower: spec_fn(T) -> int, upper: spec_fn(T) -> int)
    requires
        forall|j: int| 0 <= j < s.len() ==> #[trigger] lower(s[j]) <= #[trigger] upper(s[j]),
    ensures
        weighted_sum(s, lower) <= weighted_sum(s, upper),
    decreases s.len(),
{
    if s.len() > 0 {
        assert forall|j: int| 0 <= j < s.drop_last().len() implies #[trigger] lower(
            s.drop_last()[j],
        ) <= #[trigger] upper(s.drop_last()[j]) by {
            assert(s.drop_last()[j] == s[j]);
        }
        lemma_weighted_sum_le(s.drop_last(), lower, upper);
        assert(lower(s[s.len() - 1]) <= upper(s[s.len() - 1]));
    }
}

/// A sum of non-negative weights is non-negative.
pub proof fn lemma_weighted_sum_nonneg<T>(s: Seq<T>, weight: spec_fn(T) -> int)
    requires
        forall|j: int| 0 <= j < s.len() ==> #[trigger] weight(s[j]) >= 0,
    ensures
        weighted_sum(s, weight) >= 0,
    decreases s.len(),
{
    if s.len() > 0 {
        assert forall|j: int| 0 <= j < s.drop_last().len() implies #[trigger] weight(
            s.drop_last()[j],
        ) >= 0 by {
            assert(s.drop_last()[j] == s[j]);
        }
        lemma_weighted_sum_nonneg(s.drop_last(), weight);
        assert(weight(s[s.len() - 1]) >= 0);
    }
}

/// The full amount of a contribution entry.
pub open spec fn contribution_full_weight() -> spec_fn(ContributionEntry) -> int {
    |e: ContributionEntry| e.amount as int
}

/// The amount of a contribution entry if it belongs to the given order.
pub open spec fn order_weight(id: OrderId) -> spec_fn(ContributionEntry) -> int {
    |e: ContributionEntry| if e.order_id == id { e.amount as int } else { 0 }
}

/// The amount of a contribution entry if it belongs to the given order and
/// contributor.
pub open spec fn contributor_weight(id: OrderId, who: AccountId) -> spec_fn(
    ContributionEntry,
) -> int {
    |e: ContributionEntry| if e.order_id == id && e.contributor == who { e.amount as int } else { 0 }
}

/// The full amount of a balance entry.
pub open spec fn balance_full_weight() -> spec_fn(BalanceEntry) -> int {
    |e: BalanceEntry| e.amount as int
}

/// The amount of a balance entry if it belongs to the given account.
pub open spec fn account_weight(who: AccountId) -> spec_fn(BalanceEntry) -> int {
    |e: BalanceEntry| if e.account == who { e.amount as int } else { 0 }
}

/// The amount of an aggregate entry if it belongs to the given order.
pub open spec fn total_weight(id: OrderId) -> spec_fn(TotalEntry) -> int {
    |e: TotalEntry| if e.order_id == id { e.amount as int } else { 0 }
}

/// The sum of all recorded contributions, over all orders.
pub open spec fn sum_contributions(s: Seq<ContributionEntry>) -> int {
    weighted_sum(s, contribution_full_weight())
}

/// The sum of the contributions recorded for one order.
pub open spec fn sum_contributions_for(s: Seq<ContributionEntry>, id: OrderId) -> int {
    weighted_sum(s, order_weight(id))
}

/// The contribution recorded for one order and contributor; zero when none
/// is recorded.
pub open spec fn contribution_amount(s: Seq<ContributionEntry>, id: OrderId, who: AccountId) -> int {
    weighted_sum(s, contributor_weight(id, who))
}

/// The sum of all spendable balances.
pub open spec fn sum_balances(s: Seq<BalanceEntry>) -> int {
    weighted_sum(s, balance_full_weight())
}

/// The spendable balance of one account; zero when none is recorded.
pub open spec fn balance_amount(s: Seq<BalanceEntry>, who: AccountId) -> int {
    weighted_sum(s, account_weight(who))
}

/// The aggregate recorded for one order; zero when none is recorded.
pub open spec fn total_amount(s: Seq<TotalEntry>, id: OrderId) -> int {
    weighted_sum(s, total_weight(id))
}

/// Whether an active order has the given identifier.
pub open spec fn order_exists(s: Seq<Order>, id: OrderId) -> bool {
    exists|i: int| 0 <= i < s.len() && (#[trigger] s[i]).id == id
}

/// Whether an active order has the given identifier and creator.
pub open spec fn is_order_creator(s: Seq<Order>, id: OrderId, who: AccountId) -> bool {
    exists|i: int| 0 <= i < s.len() && (#[trigger] s[i]).id == id && s[i].creator == who
}

/// No two active orders share an identifier.
pub open spec fn unique_order_ids(s: Seq<Order>) -> bool {
    forall|i: int, j: int|
        0 <= i < s.len() && 0 <= j < s.len() && i != j ==> (#[trigger] s[i]).id != (
        #[trigger] s[j]).id
}

/// Every active order's identifier lies below the given bound.
pub open spec fn order_ids_below(s: Seq<Order>, bound: OrderId) -> bool {
    forall|i: int| 0 <= i < s.len() ==> (#[trigger] s[i]).id < bound
}

/// No two contribution entries share order and contributor.
pub open spec fn unique_contribution_keys(s: Seq<ContributionEntry>) -> bool {
    forall|i: int, j: int|
        0 <= i < s.len() && 0 <= j < s.len() && i != j ==> !((#[trigger] s[i]).order_id == (
        #[trigger] s[j]).order_id && s[i].contributor == s[j].contributor)
}

/// No two aggregate entries share an order.
pub open spec fn unique_total_ids(s: Seq<TotalEntry>) -> bool {
    forall|i: int, j: int|
        0 <= i < s.len() && 0 <= j < s.len() && i != j ==> (#[trigger] s[i]).order_id != (
        #[trigger] s[j]).order_id
}

/// No two balance entries share an account.
pub open spec fn unique_accounts(s: Seq<BalanceEntry>) -> bool {
    forall|i: int, j: int|
        0 <= i < s.len() && 0 <= j < s.len() && i != j ==> (#[trigger] s[i]).account != (
        #[trigger] s[j]).account
}

/// An account's balance is non-negative and never exceeds the sum of all
/// balances.
pub proof fn lemma_balance_le_sum(s: Seq<BalanceEntry>, who: AccountId)
    ensures
        0 <= balance_amount(s, who) <= sum_balances(s),
{
    assert forall|j: int| 0 <= j < s.len() implies #[trigger] account_weight(who)(s[j]) >= 0 by {}
    assert forall|j: int|
        0 <= j < s.len() implies #[trigger] account_weight(who)(s[j]) <= #[trigger] balance_full_weight()(
        s[j],
    ) by {}
    lemma_weighted_sum_nonneg(s, account_weight(who));
    lemma_weighted_sum_le(s, account_weight(who), balance_full_weight());
}

/// With unique accounts, an account's balance is its entry's amount.
pub proof fn lemma_balance_entry(s: Seq<BalanceEntry>, i: int)
    requires
        unique_accounts(s),
        0 <= i < s.len(),
    ensures
        balance_amount(s, s[i].account) == s[i].amount,
{
    let who = s[i].account;
    assert forall|j: int| 0 <= j < s.len() && j != i implies #[trigger] account_weight(who)(
        s[j],
    ) == 0 by {}
    lemma_weighted_sum_single(s, account_weight(who), i);
}

/// An account without an entry has balance zero.
pub proof fn lemma_balance_absent(s: Seq<BalanceEntry>, who: AccountId)
    requires
        forall|j: int| 0 <= j < s.len() ==> (#[trigger] s[j]).account != who,
    ensures
        balance_amount(s, who) == 0,
{
    assert forall|j: int| 0 <= j < s.len() implies #[trigger] account_weight(who)(s[j]) == 0 by {}
    lemma_weighted_sum_zero(s, account_weight(who));
}

/// A single contribution is non-negative and never exceeds the sum of all
/// contributions.
pub proof fn lemma_contribution_le_sum(s: Seq<ContributionEntry>, id: OrderId, who: AccountId)
    ensures
        0 <= contribution_amount(s, id, who) <= sum_contributions(s),
{
    assert forall|j: int| 0 <= j < s.len() implies #[trigger] contributor_weight(id, who)(
        s[j],
    ) >= 0 by {}
    assert forall|j: int|
        0 <= j < s.len() implies #[trigger] contributor_weight(id, who)(s[j])
            <= #[trigger] contribution_full_weight()(s[j]) by {}
    lemma_weighted_sum_nonneg(s, contributor_weight(id, who));
    lemma_weighted_sum_le(s, contributor_weight(id, who), contribution_full_weight());
}

/// An order's contributions are non-negative and never exceed the sum of
/// all contributions.
pub proof fn lemma_order_sum_le_sum(s: Seq<ContributionEntry>, id: OrderId)
    ensures
        0 <= sum_contributions_for(s, id) <= sum_contributions(s),
{
    assert forall|j: int| 0 <= j < s.len() implies #[trigger] order_weight(id)(s[j]) >= 0 by {}
    assert forall|j: int|
        0 <= j < s.len() implies #[trigger] order_weight(id)(s[j])
            <= #[trigger] contribution_full_weight()(s[j]) by {}
    lemma_weighted_sum_nonneg(s, order_weight(id));
    lemma_weighted_sum_le(s, order_weight(id), contribution_full_weight());
}

/// The sum of all recorded contributions is non-negative.
pub proof fn lemma_sum_contributions_nonneg(s: Seq<ContributionEntry>)
    ensures
        sum_contributions(s) >= 0,
{
    assert forall|j: int| 0 <= j < s.len() implies #[trigger] contribution_full_weight()(
        s[j],
    ) >= 0 by {}
    lemma_weighted_sum_nonneg(s, contribution_full_weight());
}

/// A single contribution never exceeds the sum of its order's
/// contributions.
pub proof fn lemma_contribution_le_order_sum(s: Seq<ContributionEntry>, id: OrderId, who: AccountId)
    ensures
        contribution_amount(s, id, who) <= sum_contributions_for(s, id),
{
    assert forall|j: int|
        0 <= j < s.len() implies #[trigger] contributor_weight(id, who)(s[j])
            <= #[trigger] order_weight(id)(s[j]) by {}
    lemma_weighted_sum_le(s, contributor_weight(id, who), order_weight(id));
}

/// With unique keys, the contribution for an entry's order and contributor
/// is that entry's amount.
pub proof fn lemma_contribution_entry(s: Seq<ContributionEntry>, i: int)
    requires
        unique_contribution_keys(s),
        0 <= i < s.len(),
    ensures
        contribution_amount(s, s[i].order_id, s[i].contributor) == s[i].amount,
{
    let id = s[i].order_id;
    let who = s[i].contributor;
    assert forall|j: int| 0 <= j < s.len() && j != i implies #[trigger] contributor_weight(id, who)(
        s[j],
    ) == 0 by {}
    lemma_weighted_sum_single(s, contributor_weight(id, who), i);
}

/// An order and contributor without an entry have contribution zero.
pub proof fn lemma_contribution_absent(s: Seq<ContributionEntry>, id: OrderId, who: AccountId)
    requires
        forall|j: int|
            0 <= j < s.len() ==> !((#[trigger] s[j]).order_id == id && s[j].contributor == who),
    ensures
        contribution_amount(s, id, who) == 0,
{
    assert forall|j: int| 0 <= j < s.len() implies #[trigger] contributor_weight(id, who)(
        s[j],
    ) == 0 by {}
    lemma_weighted_sum_zero(s, contributor_weight(id, who));
}

/// With unique order identifiers, the aggregate for an entry's order is
/// that entry's amount.
pub proof fn lemma_total_entry(s: Seq<TotalEntry>, i: int)
    requires
        unique_total_ids(s),
        0 <= i < s.len(),
    ensures
        total_amount(s, s[i].order_id) == s[i].amount,
{
    let id = s[i].order_id;
    assert forall|j: int| 0 <= j < s.len() && j != i implies #[trigger] total_weight(id)(
        s[j],
    ) == 0 by {}
    lemma_weighted_sum_single(s, total_weight(id), i);
}

/// An order without an aggregate entry has aggregate zero.
pub proof fn lemma_total_absent(s: Seq<TotalEntry>, id: OrderId)
    requires
        forall|j: int| 0 <= j < s.len() ==> (#[trigger] s[j]).order_id != id,
    ensures
        total_amount(s, id) == 0,
{
    assert forall|j: int| 0 <= j < s.len() implies #[trigger] total_weight(id)(s[j]) == 0 by {}
    lemma_weighted_sum_zero(s, total_weight(id));
}

/// Finds the position of the order with the given identifier.
fn find_order_index(orders: &Vec<Order>, id: OrderId) -> (r: Option<usize>)
    ensures
        r matches Some(i) ==> i < orders@.len() && orders@[i as int].id == id,
        r is None ==> !order_exists(orders@, id),
{
    let mut k: usize = 0;
    while k < orders.len()
        invariant
            k <= orders@.len(),
            forall|j: int| 0 <= j < k ==> (#[trigger] orders@[j]).id != id,
        decreases orders@.len() - k,
    {
        if orders[k].id == id {
            return Some(k);
        }
        k = k + 1;
    }
    None
}

/// Finds the position of the contribution entry with the given order and
/// contributor.
fn find_contribution_index(
    contributions: &Vec<ContributionEntry>,
    id: OrderId,
    who: AccountId,
) -> (r: Option<usize>)
    ensures
        r matches Some(i) ==> i < contributions@.len() && contributions@[i as int].order_id == id
            && contributions@[i as int].contributor == who,
        r is None ==> forall|j: int|
            0 <= j < contributions@.len() ==> !((#[trigger] contributions@[j]).order_id == id
                && contributions@[j].contributor == who),
{
    let mut k: usize = 0;
    while k < contributions.len()
        invariant
            k <= contributions@.len(),
            forall|j: int|
                0 <= j < k ==> !((#[trigger] contributions@[j]).order_id == id
                    && contributions@[j].contributor == who),
        decreases contributions@.len() - k,
    {
        if contributions[k].order_id == id && contributions[k].contributor == who {
            return Some(k);
        }
        k = k + 1;
    }
    None
}

/// Finds the position of the aggregate entry for the given order.
fn find_total_index(totals: &Vec<TotalEntry>, id: OrderId) -> (r: Option<usize>)
    ensures
        r matches Some(i) ==> i < totals@.len() && totals@[i as int].order_id == id,
        r is None ==> forall|j: int| 0 <= j < totals@.len() ==> (#[trigger] totals@[j]).order_id != id,
{
    let mut k: usize = 0;
    while k < totals.len()
        invariant
            k <= totals@.len(),
            forall|j: int| 0 <= j < k ==> (#[trigger] totals@[j]).order_id != id,
        decreases totals@.len() - k,
    {
        if totals[k].order_id == id {
            return Some(k);
        }
        k = k + 1;
    }
    None
}

/// Finds the position of the balance entry for the given account.
fn find_balance_index(balances: &Vec<BalanceEntry>, who: AccountId) -> (r: Option<usize>)
    ensures
        r matches Some(i) ==> i < balances@.len() && balances@[i as int].account == who,
        r is None ==> forall|j: int| 0 <= j < balances@.len() ==> (#[trigger] balances@[j]).account
            != who,
{
    let mut k: usize = 0;
    while k < balances.len()
        invariant
            k <= balances@.len(),
            forall|j: int| 0 <= j < k ==> (#[trigger] balances@[j]).account != who,
        decreases balances@.len() - k,
    {
        if balances[k].account == who {
            return Some(k);
        }
        k = k + 1;
    }
    None
}

/// Adds `amount` to an account's spendable balance.
fn deposit(balances: &mut Vec<BalanceEntry>, who: AccountId, amount: Balance)
    requires
        unique_accounts(old(balances)@),
        sum_balances(old(balances)@) + amount <= u128::MAX,
    ensures
        unique_accounts(final(balances)@),
        balance_amount(final(balances)@, who) == balance_amount(old(balances)@, who) + amount,
        forall|other: AccountId|
            other != who ==> balance_amount(final(balances)@, other) == balance_amount(
                old(balances)@,
                other,
            ),
        sum_balances(final(balances)@) == sum_balances(old(balances)@) + amount,
{
    let ghost s = balances@;
    match find_balance_index(balances, who) {
        Some(i) => {
            let entry = balances[i];
            proof {
                lemma_balance_entry(s, i as int);
                lemma_balance_le_sum(s, who);
            }
            let updated = BalanceEntry { account: who, amount: entry.amount + amount };
            balances.set(i, updated);
            proof {
                assert forall|other: AccountId|
                    balance_amount(balances@, other) == balance_amount(s, other) - (account_weight(
                        other,
                    )(s[i as int])) + (account_weight(other)(updated)) by {
                    lemma_weighted_sum_update(s, account_weight(other), i as int, updated);
                }
                lemma_weighted_sum_update(s, balance_full_weight(), i as int, updated);
                assert forall|a: int, b: int|
                    0 <= a < balances@.len() && 0 <= b < balances@.len() && a != b implies (
                #[trigger] balances@[a]).account != (#[trigger] balances@[b]).account by {
                    assert(s[a].account == balances@[a].account);
                    assert(s[b].account == balances@[b].account);
                }
            }
        },
        None => {
            proof {
                lemma_balance_absent(s, who);
            }
            let entry = BalanceEntry { account: who, amount };
            balances.push(entry);
            proof {
                assert forall|other: AccountId|
                    balance_amount(balances@, other) == balance_amount(s, other) + (account_weight(
                        other,
                    )(entry)) by {
                    lemma_weighted_sum_push(s, account_weight(other), entry);
                }
                lemma_weighted_sum_push(s, balance_full_weight(), entry);
                assert forall|a: int, b: int|
                    0 <= a < balances@.len() && 0 <= b < balances@.len() && a != b implies (
                #[trigger] balances@[a]).account != (#[trigger] balances@[b]).account by {}
            }
        },
    }
}

/// Removes `amount` from an account's spendable balance, if it is covered.
fn withdraw(balances: &mut Vec<BalanceEntry>, who: AccountId, amount: Balance) -> (r: bool)
    requires
        unique_accounts(old(balances)@),
    ensures
        unique_accounts(final(balances)@),
        r <==> balance_amount(old(balances)@, who) >= amount,
        !r ==> *final(balances) == *old(balances),
        r ==> balance_amount(final(balances)@, who) == balance_amount(old(balances)@, who)
            - amount,
        r ==> forall|other: AccountId|
            other != who ==> balance_amount(final(balances)@, other) == balance_amount(
                old(balances)@,
                other,
            ),
        r ==> sum_balances(final(balances)@) == sum_balances(old(balances)@) - amount,
{
    let ghost s = balances@;
    match find_balance_index(balances, who) {
        Some(i) => {
            let entry = balances[i];
            proof {
                lemma_balance_entry(s, i as int);
            }
            if entry.amount < amount {
                return false;
            }
            let updated = BalanceEntry { account: who, amount: entry.amount - amount };
            balances.set(i, updated);
            proof {
                assert forall|other: AccountId|
                    balance_amount(balances@, other) == balance_amount(s, other) - (account_weight(
                        other,
                    )(s[i as int])) + (account_weight(other)(updated)) by {
                    lemma_weighted_sum_update(s, account_weight(other), i as int, updated);
                }
                lemma_weighted_sum_update(s, balance_full_weight(), i as int, updated);
                assert forall|a: int, b: int|
                    0 <= a < balances@.len() && 0 <= b < balances@.len() && a != b implies (
                #[trigger] balances@[a]).account != (#[trigger] balances@[b]).account by {
                    assert(s[a].account == balances@[a].account);
                    assert(s[b].account == balances@[b].account);
                }
            }
            true
        },
        None => {
            proof {
                lemma_balance_absent(s, who);
            }
            amount == 0
        },
    }
}

/// The order/crowdfunding ledger. It owns its keyed collections and a
/// simple single-currency balance store from which contributions are
/// reserved and creation fees are charged.
pub struct Ledger {
    /// The identifier the next created order will receive.
    pub next_order_id: OrderId,
    /// The active orders.
    pub orders: Vec<Order>,
    /// The per-contributor holdings, keyed by order and contributor.
    pub contributions: Vec<ContributionEntry>,
    /// The per-order aggregates, keyed by order.
    pub total_contributions: Vec<TotalEntry>,
    /// The spendable balances, keyed by account.
    pub balances: Vec<BalanceEntry>,
    /// The smallest amount accepted by `contribute`.
    pub minimum_contribution: Balance,
    /// The fee charged by `create_order`.
    pub order_creation_cost: Balance,
    /// Every event emitted so far, oldest first.
    pub events: Vec<Event>,
}

impl Ledger {
    /// The crowdfunding invariant: for every order identifier, the
    /// recorded aggregate equals the sum of the per-contributor entries.
    pub open spec fn aggregates_match(self) -> bool {
        forall|id: OrderId|
            #![trigger total_amount(self.total_contributions@, id)]
            #![trigger sum_contributions_for(self.contributions@, id)]
            total_amount(self.total_contributions@, id) == sum_contributions_for(
                self.contributions@,
                id,
            )
    }

    /// All keys are unique, identifiers are never reused, the crowdfunding
    /// invariant holds, and all funds together fit the balance type.
    pub open spec fn well_formed(self) -> bool {
        &&& unique_order_ids(self.orders@)
        &&& order_ids_below(self.orders@, self.next_order_id)
        &&& unique_contribution_keys(self.contributions@)
        &&& unique_total_ids(self.total_contributions@)
        &&& unique_accounts(self.balances@)
        &&& self.aggregates_match()
        &&& sum_balances(self.balances@) + sum_contributions(self.contributions@) <= u128::MAX
    }

    /// An empty ledger with the given minimum contribution and order
    /// creation fee.
    pub fn new(minimum_contribution: Balance, order_creation_cost: Balance) -> (ledger: Ledger)
        ensures
            ledger.well_formed(),
            ledger.next_order_id == 0,
            ledger.orders@.len() == 0,
            ledger.contributions@.len() == 0,
            ledger.total_contributions@.len() == 0,
            ledger.balances@.len() == 0,
            ledger.minimum_contribution == minimum_contribution,
            ledger.order_creation_cost == order_creation_cost,
            ledger.events@.len() == 0,
    {
        let ledger = Ledger {
            next_order_id: 0,
            orders: Vec::new(),
            contributions: Vec::new(),
            total_contributions: Vec::new(),
            balances: Vec::new(),
            minimum_contribution,
            order_creation_cost,
            events: Vec::new(),
        };
        ledger
    }

    /// All funds known to the ledger: the spendable balances and the held
    /// contributions together.
    pub open spec fn issuance(self) -> int {
        sum_balances(self.balances@) + sum_contributions(self.contributions@)
    }

    /// Adds spendable funds to an account.
    pub fn endow(&mut self, who: AccountId, amount: Balance)
        requires
            old(self).well_formed(),
            old(self).issuance() + amount <= u128::MAX,
        ensures
            final(self).well_formed(),
            balance_amount(final(self).balances@, who) == balance_amount(
                old(self).balances@,
                who,
            ) + amount,
            forall|other: AccountId|
                other != who ==> balance_amount(final(self).balances@, other) == balance_amount(
                    old(self).balances@,
                    other,
                ),
            final(self).issuance() == old(self).issuance() + amount,
            final(self).next_order_id == old(self).next_order_id,
            final(self).orders == old(self).orders,
            final(self).contributions == old(self).contributions,
            final(self).total_contributions == old(self).total_contributions,
            final(self).minimum_contribution == old(self).minimum_contribution,
            final(self).order_creation_cost == old(self).order_creation_cost,
            final(self).events == old(self).events,
    {
        proof {
            lemma_sum_contributions_nonneg(self.contributions@);
        }
        deposit(&mut self.balances, who, amount);
    }

    /// Create an order for a parachain, charging the creator the fixed
    /// creation fee. The order receives the next sequential identifier;
    /// identifiers are never reused.
    pub fn create_order(
        &mut self,
        who: AccountId,
        para_id: ParaId,
        requirements: OrderRequirements,
    ) -> (r: Result<OrderId, Error>)
        requires
            old(self).well_formed(),
            old(self).next_order_id < OrderId::MAX,
        ensures
            final(self).well_formed(),
            r is Ok <==> balance_amount(old(self).balances@, who) >= old(self).order_creation_cost,
            r is Err ==> r == Err::<OrderId, Error>(Error::InvalidAmount) && *final(self) == *old(self),
            r is Ok ==> r == Ok::<OrderId, Error>(old(self).next_order_id),
            r is Ok ==> final(self).orders@ == old(self).orders@.push(
                (Order { id: old(self).next_order_id, creator: who, para_id, requirements }),
            ),
            r is Ok ==> final(self).next_order_id == old(self).next_order_id + 1,
            r is Ok ==> balance_amount(final(self).balances@, who) == balance_amount(
                old(self).balances@,
                who,
            ) - old(self).order_creation_cost,
            r is Ok ==> forall|other: AccountId|
                other != who ==> balance_amount(final(self).balances@, other) == balance_amount(
                    old(self).balances@,
                    other,
                ),
            r is Ok ==> final(self).contributions == old(self).contributions && final(self).total_contributions
                == old(self).total_contributions,
            r is Ok ==> final(self).events@ == old(self).events@.push(
                (Event::OrderCreated {
                    order_id: old(self).next_order_id,
                    creator: who,
                    para_id,
                    requirements,
                }),
            ),
            final(self).minimum_contribution == old(self).minimum_contribution,
            final(self).order_creation_cost == old(self).order_creation_cost,
    {
        let cost = self.order_creation_cost;
        if !withdraw(&mut self.balances, who, cost) {
            return Err(Error::InvalidAmount);
        }
        let order_id = self.next_order_id;
        let order = Order { id: order_id, creator: who, para_id, requirements };
        let ghost orders_before = self.orders@;
        self.orders.push(order);
        self.next_order_id = order_id + 1;
        self.events.push(Event::OrderCreated { order_id, creator: who, para_id, requirements });
        proof {
            assert forall|a: int, b: int|
                0 <= a < self.orders@.len() && 0 <= b < self.orders@.len() && a != b implies (
            #[trigger] self.orders@[a]).id != (#[trigger] self.orders@[b]).id by {
                if a < orders_before.len() {
                    assert(self.orders@[a] == orders_before[a]);
                }
                if b < orders_before.len() {
                    assert(self.orders@[b] == orders_before[b]);
                }
            }
        }
        Ok(order_id)
    }

    /// Cancel an order: only its creator may do so. The order leaves the
    /// active set entirely; outstanding contributions are not refunded
    /// here, but become eligible for `remove_contribution`.
    pub fn cancel_order(&mut self, who: AccountId, order_id: OrderId) -> (r: Result<(), Error>)
        requires
            old(self).well_formed(),
        ensures
            final(self).well_formed(),
            r == Err::<(), Error>(Error::InvalidOrderId) <==> !order_exists(
                old(self).orders@,
                order_id,
            ),
            r == Err::<(), Error>(Error::NotAllowed) <==> order_exists(old(self).orders@, order_id)
                && !is_order_creator(old(self).orders@, order_id, who),
            r is Ok <==> is_order_creator(old(self).orders@, order_id, who),
            r is Err ==> *final(self) == *old(self),
            r is Ok ==> !order_exists(final(self).orders@, order_id),
            r is Ok ==> forall|other: OrderId|
                other != order_id ==> (order_exists(final(self).orders@, other) <==> order_exists(
                    old(self).orders@,
                    other,
                )),
            r is Ok ==> exists|i: int|
                0 <= i < old(self).orders@.len() && (#[trigger] old(self).orders@[i]).id == order_id
                    && final(self).orders@ == old(self).orders@.remove(i),
            r is Ok ==> final(self).events@ == old(self).events@.push(
                (Event::OrderRemoved { order_id }),
            ),
            r is Ok ==> final(self).next_order_id == old(self).next_order_id && final(self).contributions
                == old(self).contributions && final(self).total_contributions == old(self).total_contributions
                && final(self).balances == old(self).balances,
            final(self).minimum_contribution == old(self).minimum_contribution,
            final(self).order_creation_cost == old(self).order_creation_cost,
    {
        let ghost s = self.orders@;
        let i = match find_order_index(&self.orders, order_id) {
            Some(i) => i,
            None => {
                return Err(Error::InvalidOrderId);
            },
        };
        let order = self.orders[i];
        if order.creator != who {
            proof {
                assert forall|j: int|
                    0 <= j < s.len() && (#[trigger] s[j]).id == order_id implies s[j].creator
                    != who by {
                    assert(s[j].id == s[i as int].id);
                }
            }
            return Err(Error::NotAllowed);
        }
        self.orders.remove(i);
        self.events.push(Event::OrderRemoved { order_id });
        proof {
            let t = self.orders@;
            assert(t == s.remove(i as int));
            assert forall|j: int| 0 <= j < t.len() implies #[trigger] t[j] == if j < i as int {
                s[j]
            } else {
                s[j + 1]
            } by {}
            assert forall|a: int, b: int|
                0 <= a < t.len() && 0 <= b < t.len() && a != b implies (#[trigger] t[a]).id != (
            #[trigger] t[b]).id by {}
            assert forall|j: int| 0 <= j < t.len() implies (#[trigger] t[j]).id < self.next_order_id by {}
            assert(!order_exists(t, order_id));
            assert forall|other: OrderId|
                other != order_id && order_exists(s, other) implies order_exists(t, other) by {
                let j = choose|j: int| 0 <= j < s.len() && (#[trigger] s[j]).id == other;
                if j < i as int {
                    assert(t[j] == s[j]);
                } else {
                    assert(t[j - 1] == s[j]);
                }
            }
        }
        Ok(())
    }

    /// Contribute toward an active order. The amount is reserved from the
    /// contributor's spendable balance and held until refunded; the
    /// per-contributor entry and the per-order aggregate are updated
    /// together, all-or-nothing.
    pub fn contribute(&mut self, who: AccountId, order_id: OrderId, amount: Balance) -> (r: Result<
        (),
        Error,
    >)
        requires
            old(self).well_formed(),
        ensures
            final(self).well_formed(),
            r == Err::<(), Error>(Error::InvalidOrderId) <==> !order_exists(
                old(self).orders@,
                order_id,
            ),
            r == Err::<(), Error>(Error::InvalidAmount) <==> order_exists(
                old(self).orders@,
                order_id,
            ) && (amount < old(self).minimum_contribution || balance_amount(
                old(self).balances@,
                who,
            ) < amount),
            r is Ok <==> order_exists(old(self).orders@, order_id) && amount >= old(
                self,
            ).minimum_contribution && balance_amount(old(self).balances@, who) >= amount,
            r is Err ==> *final(self) == *old(self),
            r is Ok ==> contribution_amount(final(self).contributions@, order_id, who)
                == contribution_amount(old(self).contributions@, order_id, who) + amount,
            r is Ok ==> forall|other_id: OrderId, other: AccountId|
                !(other_id == order_id && other == who) ==> contribution_amount(
                    final(self).contributions@,
                    other_id,
                    other,
                ) == contribution_amount(old(self).contributions@, other_id, other),
            r is Ok ==> total_amount(final(self).total_contributions@, order_id) == total_amount(
                old(self).total_contributions@,
                order_id,
            ) + amount,
            r is Ok ==> forall|other_id: OrderId|
                other_id != order_id ==> total_amount(final(self).total_contributions@, other_id)
                    == total_amount(old(self).total_contributions@, other_id),
            r is Ok ==> balance_amount(final(self).balances@, who) == balance_amount(
                old(self).balances@,
                who,
            ) - amount,
            r is Ok ==> forall|other: AccountId|
                other != who ==> balance_amount(final(self).balances@, other) == balance_amount(
                    old(self).balances@,
                    other,
                ),
            r is Ok ==> final(self).issuance() == old(self).issuance(),
            r is Ok ==> final(self).orders == old(self).orders && final(self).next_order_id == old(
                self,
            ).next_order_id,
            r is Ok ==> final(self).events@ == old(self).events@.push(
                (Event::Contributed { order_id, who, amount }),
            ),
            final(self).minimum_contribution == old(self).minimum_contribution,
            final(self).order_creation_cost == old(self).order_creation_cost,
    {
        if find_order_index(&self.orders, order_id).is_none() {
            return Err(Error::InvalidOrderId);
        }
        if amount < self.minimum_contribution {
            return Err(Error::InvalidAmount);
        }
        let ghost bs = self.balances@;
        let ghost cs = self.contributions@;
        let ghost ts = self.total_contributions@;
        proof {
            lemma_balance_le_sum(bs, who);
            lemma_contribution_le_sum(cs, order_id, who);
            lemma_order_sum_le_sum(cs, order_id);
        }
        if !withdraw(&mut self.balances, who, amount) {
            return Err(Error::InvalidAmount);
        }
        match find_contribution_index(&self.contributions, order_id, who) {
            Some(ci) => {
                let entry = self.contributions[ci];
                proof {
                    lemma_contribution_entry(cs, ci as int);
                }
                let updated = ContributionEntry {
                    order_id,
                    contributor: who,
                    amount: entry.amount + amount,
                };
                self.contributions.set(ci, updated);
                proof {
                    assert forall|other_id: OrderId, other: AccountId|
                        contribution_amount(self.contributions@, other_id, other)
                            == contribution_amount(cs, other_id, other) - (contributor_weight(
                            other_id,
                            other,
                        )(cs[ci as int])) + (contributor_weight(other_id, other)(updated)) by {
                        lemma_weighted_sum_update(
                            cs,
                            contributor_weight(other_id, other),
                            ci as int,
                            updated,
                        );
                    }
                    assert forall|any_id: OrderId|
                        sum_contributions_for(self.contributions@, any_id) == sum_contributions_for(
                            cs,
                            any_id,
                        ) - (order_weight(any_id)(cs[ci as int])) + (order_weight(any_id)(
                            updated,
                        )) by {
                        lemma_weighted_sum_update(cs, order_weight(any_id), ci as int, updated);
                    }
                    lemma_weighted_sum_update(cs, contribution_full_weight(), ci as int, updated);
                    assert forall|a: int, b: int|
                        0 <= a < self.contributions@.len() && 0 <= b < self.contributions@.len()
                            && a != b implies !((#[trigger] self.contributions@[a]).order_id == (
                        #[trigger] self.contributions@[b]).order_id
                            && self.contributions@[a].contributor
                            == self.contributions@[b].contributor) by {
                        assert(cs[a].order_id == self.contributions@[a].order_id || a == ci as int);
                        assert(cs[b].order_id == self.contributions@[b].order_id || b == ci as int);
                    }
                }
            },
            None => {
                proof {
                    lemma_contribution_absent(cs, order_id, who);
                }
                let entry = ContributionEntry { order_id, contributor: who, amount };
                self.contributions.push(entry);
                proof {
                    assert forall|other_id: OrderId, other: AccountId|
                        contribution_amount(self.contributions@, other_id, other)
                            == contribution_amount(cs, other_id, other) + (contributor_weight(
                            other_id,
                            other,
                        )(entry)) by {
                        lemma_weighted_sum_push(cs, contributor_weight(other_id, other), entry);
                    }
                    assert forall|any_id: OrderId|
                        sum_contributions_for(self.contributions@, any_id) == sum_contributions_for(
                            cs,
                            any_id,
                        ) + (order_weight(any_id)(entry)) by {
                        lemma_weighted_sum_push(cs, order_weight(any_id), entry);
                    }
                    lemma_weighted_sum_push(cs, contribution_full_weight(), entry);
                    assert forall|a: int, b: int|
                        0 <= a < self.contributions@.len() && 0 <= b < self.contributions@.len()
                            && a != b implies !((#[trigger] self.contributions@[a]).order_id == (
                        #[trigger] self.contributions@[b]).order_id
                            && self.contributions@[a].contributor
                            == self.contributions@[b].contributor) by {}
                }
            },
        }
        match find_total_index(&self.total_contributions, order_id) {
            Some(ti) => {
                let entry = self.total_contributions[ti];
                proof {
                    lemma_total_entry(ts, ti as int);
                }
                let updated = TotalEntry { order_id, amount: entry.amount + amount };
                self.total_contributions.set(ti, updated);
                proof {
                    assert forall|any_id: OrderId|
                        total_amount(self.total_contributions@, any_id) == total_amount(ts, any_id)
                            - (total_weight(any_id)(ts[ti as int])) + (total_weight(any_id)(
                            updated,
                        )) by {
                        lemma_weighted_sum_update(ts, total_weight(any_id), ti as int, updated);
                    }
                    assert forall|a: int, b: int|
                        0 <= a < self.total_contributions@.len() && 0 <= b
                            < self.total_contributions@.len() && a != b implies (
                    #[trigger] self.total_contributions@[a]).order_id != (
                    #[trigger] self.total_contributions@[b]).order_id by {
                        assert(ts[a].order_id == self.total_contributions@[a].order_id || a == ti as int);
                        assert(ts[b].order_id == self.total_contributions@[b].order_id || b == ti as int);
                    }
                }
            },
            None => {
                proof {
                    lemma_total_absent(ts, order_id);
                }
                let entry = TotalEntry { order_id, amount };
                self.total_contributions.push(entry);
                proof {
                    assert forall|any_id: OrderId|
                        total_amount(self.total_contributions@, any_id) == total_amount(ts, any_id)
                            + (total_weight(any_id)(entry)) by {
                        lemma_weighted_sum_push(ts, total_weight(any_id), entry);
                    }
                    assert forall|a: int, b: int|
                        0 <= a < self.total_contributions@.len() && 0 <= b
                            < self.total_contributions@.len() && a != b implies (
                    #[trigger] self.total_contributions@[a]).order_id != (
                    #[trigger] self.total_contributions@[b]).order_id by {}
                }
            },
        }
        self.events.push(Event::Contributed { order_id, who, amount });
        Ok(())
    }

    /// Refund a contribution. Only permitted once the order no longer
    /// exists; releases the held amount back to the contributor, deletes
    /// the per-contributor entry and subtracts it from the per-order
    /// aggregate, saturating at zero.
    pub fn remove_contribution(&mut self, who: AccountId, order_id: OrderId) -> (r: Result<
        (),
        Error,
    >)
        requires
            old(self).well_formed(),
        ensures
            final(self).well_formed(),
            r == Err::<(), Error>(Error::OrderNotCancelled) <==> order_exists(
                old(self).orders@,
                order_id,
            ),
            r == Err::<(), Error>(Error::NoContribution) <==> !order_exists(
                old(self).orders@,
                order_id,
            ) && contribution_amount(old(self).contributions@, order_id, who) == 0,
            r is Ok <==> !order_exists(old(self).orders@, order_id) && contribution_amount(
                old(self).contributions@,
                order_id,
                who,
            ) > 0,
            r is Err ==> *final(self) == *old(self),
            r is Ok ==> contribution_amount(final(self).contributions@, order_id, who) == 0,
            r is Ok ==> forall|other_id: OrderId, other: AccountId|
                !(other_id == order_id && other == who) ==> contribution_amount(
                    final(self).contributions@,
                    other_id,
                    other,
                ) == contribution_amount(old(self).contributions@, other_id, other),
            r is Ok ==> total_amount(final(self).total_contributions@, order_id) == total_amount(
                old(self).total_contributions@,
                order_id,
            ) - contribution_amount(old(self).contributions@, order_id, who),
            r is Ok ==> forall|other_id: OrderId|
                other_id != order_id ==> total_amount(final(self).total_contributions@, other_id)
                    == total_amount(old(self).total_contributions@, other_id),
            r is Ok ==> balance_amount(final(self).balances@, who) == balance_amount(
                old(self).balances@,
                who,
            ) + contribution_amount(old(self).contributions@, order_id, who),
            r is Ok ==> forall|other: AccountId|
                other != who ==> balance_amount(final(self).balances@, other) == balance_amount(
                    old(self).balances@,
                    other,
                ),
            r is Ok ==> final(self).issuance() == old(self).issuance(),
            r is Ok ==> final(self).orders == old(self).orders && final(self).next_order_id == old(
                self,
            ).next_order_id,
            r is Ok ==> final(self).events@ == old(self).events@.push(
                (Event::ContributionRemoved {
                    order_id,
                    who,
                    amount: contribution_amount(old(self).contributions@, order_id, who) as Balance,
                }),
            ),
            final(self).minimum_contribution == old(self).minimum_contribution,
            final(self).order_creation_cost == old(self).order_creation_cost,
    {
        if find_order_index(&self.orders, order_id).is_some() {
            return Err(Error::OrderNotCancelled);
        }
        let ghost bs = self.balances@;
        let ghost cs = self.contributions@;
        let ghost ts = self.total_contributions@;
        let ci = match find_contribution_index(&self.contributions, order_id, who) {
            Some(ci) => ci,
            None => {
                proof {
                    lemma_contribution_absent(cs, order_id, who);
                }
                return Err(Error::NoContribution);
            },
        };
        let entry = self.contributions[ci];
        proof {
            lemma_contribution_entry(cs, ci as int);
        }
        if entry.amount == 0 {
            return Err(Error::NoContribution);
        }
        let amount = entry.amount;
        proof {
            lemma_balance_le_sum(bs, who);
            lemma_contribution_le_sum(cs, order_id, who);
            lemma_contribution_le_order_sum(cs, order_id, who);
            lemma_order_sum_le_sum(cs, order_id);
        }
        self.contributions.remove(ci);
        proof {
            let t = self.contributions@;
            assert(t == cs.remove(ci as int));
            assert forall|j: int| 0 <= j < t.len() implies #[trigger] t[j] == if j < ci as int {
                cs[j]
            } else {
                cs[j + 1]
            } by {}
            assert forall|other_id: OrderId, other: AccountId|
                contribution_amount(t, other_id, other) == contribution_amount(cs, other_id, other)
                    - (contributor_weight(other_id, other)(entry)) by {
                lemma_weighted_sum_remove(cs, contributor_weight(other_id, other), ci as int);
            }
            assert forall|any_id: OrderId|
                sum_contributions_for(t, any_id) == sum_contributions_for(cs, any_id) - (
                order_weight(any_id)(entry)) by {
                lemma_weighted_sum_remove(cs, order_weight(any_id), ci as int);
            }
            lemma_weighted_sum_remove(cs, contribution_full_weight(), ci as int);
            assert forall|a: int, b: int|
                0 <= a < t.len() && 0 <= b < t.len() && a != b implies !((
            #[trigger] t[a]).order_id == (#[trigger] t[b]).order_id && t[a].contributor
                == t[b].contributor) by {}
        }
        match find_total_index(&self.total_contributions, order_id) {
            Some(ti) => {
                let total_entry = self.total_contributions[ti];
                proof {
                    lemma_total_entry(ts, ti as int);
                }
                let updated = TotalEntry {
                    order_id,
                    amount: total_entry.amount.saturating_sub(amount),
                };
                self.total_contributions.set(ti, updated);
                proof {
                    assert forall|any_id: OrderId|
                        total_amount(self.total_contributions@, any_id) == total_amount(ts, any_id)
                            - (total_weight(any_id)(ts[ti as int])) + (total_weight(any_id)(
                            updated,
                        )) by {
                        lemma_weighted_sum_update(ts, total_weight(any_id), ti as int, updated);
                    }
                    assert forall|a: int, b: int|
                        0 <= a < self.total_contributions@.len() && 0 <= b
                            < self.total_contributions@.len() && a != b implies (
                    #[trigger] self.total_contributions@[a]).order_id != (
                    #[trigger] self.total_contributions@[b]).order_id by {
                        assert(ts[a].order_id == self.total_contributions@[a].order_id || a == ti as int);
                        assert(ts[b].order_id == self.total_contributions@[b].order_id || b == ti as int);
                    }
                }
            },
            None => {
                proof {
                    lemma_total_absent(ts, order_id);
                    assert(false);
                }
            },
        }
        proof {
            lemma_contribution_le_sum(self.contributions@, order_id, who);
        }
        deposit(&mut self.balances, who, amount);
        self.events.push(Event::ContributionRemoved { order_id, who, amount });
        Ok(())
    }
}

/// Identifiers are never reused: `create_order` always assigns
/// `next_order_id`, and every identifier that has ever named an order lies
/// below it, so an identifier that is absent — a cancelled one in
/// particular — can never name an active order again.
pub proof fn lemma_cancelled_id_stays_absent(ledger: Ledger, id: OrderId, created: Order)
    requires
        ledger.well_formed(),
        !order_exists(ledger.orders@, id),
        id < ledger.next_order_id,
        created.id == ledger.next_order_id,
    ensures
        !order_exists(ledger.orders@.push(created), id),
{
    let s = ledger.orders@;
    if order_exists(s.push(created), id) {
        let i = choose|i: int| 0 <= i < s.push(created).len() && (#[trigger] s.push(created)[i]).id == id;
        if i < s.len() {
            assert(s[i].id == id);
        } else {
            assert(s.push(created)[i] == created);
        }
        assert(false);
    }
}

/// The crowdfunding invariant, stated on its own: in a well-formed ledger
/// — as `new` establishes and every operation preserves — the aggregate
/// recorded for any order equals the sum of the per-contributor entries
/// for that order. Any sequence of `contribute` and `remove_contribution`
/// calls therefore keeps aggregate and parts in agreement.
pub proof fn lemma_aggregate_matches_contributions(ledger: Ledger, order_id: OrderId)
    requires
        ledger.well_formed(),
    ensures
        total_amount(ledger.total_contributions@, order_id) == sum_contributions_for(
            ledger.contributions@,
            order_id,
        ),
{
}

} // verus!
