use crate::items::{
    clone_items, find_index, lemma_unique_update, lemma_upsert_absent, lemma_upsert_at,
    unique_ids, upsert, Item, ItemId,
};
use crate::money::Gold;
use crate::shop::{spec_buy, spec_check_price, Error, Shop};
use vstd::prelude::*;

verus! {

/// Identifier of a buyer actor.
#[derive(Debug, Clone, Copy, PartialEq, Eq, Hash, Structural)]
pub struct PlayerId(pub u64);

impl PlayerId {
    pub fn new(value: u64) -> (id: PlayerId)
        ensures
            id.0 == value,
    {
        PlayerId(value)
    }
}

/// Everything a buyer operation can fail with. The last two variants stand
/// for mailbox failures on the buyer's side: its mailbox has no live
/// receiver, or it accepted the request but never answered.
#[derive(Debug, Clone, Copy, PartialEq, Eq, Structural)]
pub enum PlayerError {
    ItemNotAvailableToBuy,
    NotEnoughGold { available: Gold, price: Gold },
    SendError,
    ReceiveError,
}

/// Steps one to three of the purchase protocol, as a transition on the
/// buyer's balance: react to the seller's quote. A failed probe fails the
/// purchase and changes nothing; a price above the balance fails with both
/// amounts and changes nothing; otherwise the balance is optimistically
/// debited by the quoted price.
pub open spec fn begin_step(wallet: u64, quote: Result<Gold, Error>) -> (u64, Result<
    Gold,
    PlayerError,
>) {
    match quote {
        Err(_) => (wallet, Err(PlayerError::ItemNotAvailableToBuy)),
        Ok(price) => if wallet < price.0 {
            (wallet, Err(PlayerError::NotEnoughGold { available: Gold(wallet), price }))
        } else {
            ((wallet - price.0) as u64, Ok(price))
        },
    }
}

/// Step four of the purchase protocol: react to the seller's answer to the
/// sale itself. On failure the debited price is credited back — the
/// compensating action — and the purchase fails; on success the debit stands
/// and the delivered item joins the buyer's inventory.
pub open spec fn finish_step(
    wallet: u64,
    inv: Seq<Item>,
    price: Gold,
    delivery: Result<Item, Error>,
) -> (u64, Seq<Item>, Result<Item, PlayerError>) {
    match delivery {
        Err(_) => ((wallet + price.0) as u64, inv, Err(PlayerError::ItemNotAvailableToBuy)),
        Ok(item) => (wallet, upsert(inv, item), Ok(item)),
    }
}

/// The whole protocol against a seller reached directly: quote, decide,
/// debit, sale, and compensation where the sale fails. Yields the buyer's
/// new balance and inventory, the seller's new inventory, and the reply.
pub open spec fn buy_step(wallet: u64, binv: Seq<Item>, sinv: Seq<Item>, id: ItemId) -> (
    u64,
    Seq<Item>,
    Seq<Item>,
    Result<Item, PlayerError>,
) {
    let quote = spec_check_price(sinv, id);
    let (w1, r1) = begin_step(wallet, quote);
    match r1 {
        Err(e) => (wallet, binv, sinv, Err(e)),
        Ok(price) => {
            let (sinv2, delivery) = spec_buy(sinv, id, price);
            let (w2, binv2, r2) = finish_step(w1, binv, price, delivery);
            (w2, binv2, sinv2, r2)
        },
    }
}

/// A buyer: exclusively owned state, mutated one request at a time by the
/// mailbox loop that drives these methods.
#[derive(Debug)]
pub struct Player {
    pub id: PlayerId,
    pub wallet: Gold,
    pub inventory: Vec<Item>,
}

impl Player {
    /// A buyer holding the given balance and goods. Goods carry
    /// process-unique identifiers, so the initial inventory never repeats
    /// one.
    pub fn new(id: PlayerId, gold: Gold, items: Vec<Item>) -> (player: Player)
        requires
            unique_ids(items@),
        ensures
            player.id == id,
            player.wallet == gold,
            player.inventory@ == items@,
    {
        Player { id, wallet: gold, inventory: items }
    }

    /// Unconditionally add income to the balance; the caller must have ruled
    /// out overflow.
    pub fn receive_gold(&mut self, amount: Gold)
        requires
            old(self).wallet.0 + amount.0 <= u64::MAX,
        ensures
            final(self).id == old(self).id,
            final(self).wallet.0 == old(self).wallet.0 + amount.0,
            final(self).inventory == old(self).inventory,
    {
        self.wallet = self.wallet.add(amount);
    }

    /// A snapshot of the balance and the owned goods; the buyer itself is
    /// untouched.
    pub fn info(&self) -> (r: (Gold, Vec<Item>))
        ensures
            r.0 == self.wallet,
            r.1@ == self.inventory@,
    {
        (self.wallet, clone_items(&self.inventory))
    }

    /// Steps one to three of the purchase protocol, on this buyer's state;
    /// `quote` is what the seller's price probe answered. On success the
    /// balance holds the debit and the quoted price is handed back for the
    /// sale call.
    pub fn begin_purchase(&mut self, quote: Result<Gold, Error>) -> (r: Result<Gold, PlayerError>)
        ensures
            final(self).id == old(self).id,
            final(self).inventory == old(self).inventory,
            ({
                let (w1, res) = begin_step(old(self).wallet.0, quote);
                final(self).wallet.0 == w1 && r == res
            }),
    {
        match quote {
            Err(_) => Err(PlayerError::ItemNotAvailableToBuy),
            Ok(price) => {
                if self.wallet.lt(price) {
                    Err(PlayerError::NotEnoughGold { available: self.wallet, price })
                } else {
                    self.wallet = self.wallet.sub(price);
                    Ok(price)
                }
            },
        }
    }

    /// Step four of the purchase protocol, on this buyer's state; `price` is
    /// the amount debited by `begin_purchase` and `delivery` what the
    /// seller's sale call answered. The precondition holds whenever `price`
    /// was really debited from this balance, since the sum then restores the
    /// earlier balance.
    pub fn finish_purchase(&mut self, price: Gold, delivery: Result<Item, Error>) -> (r: Result<
        Item,
        PlayerError,
    >)
        requires
            old(self).wallet.0 + price.0 <= u64::MAX,
        ensures
            final(self).id == old(self).id,
            ({
                let (w2, inv2, res) = finish_step(
                    old(self).wallet.0,
                    old(self).inventory@,
                    price,
                    delivery,
                );
                final(self).wallet.0 == w2 && final(self).inventory@ == inv2 && r == res
            }),
            unique_ids(old(self).inventory@) ==> unique_ids(final(self).inventory@),
    {
        match delivery {
            Err(_) => {
                self.wallet = self.wallet.add(price);
                Err(PlayerError::ItemNotAvailableToBuy)
            },
            Ok(item) => {
                let kept = item.duplicate();
                self.insert_item(item);
                Ok(kept)
            },
        }
    }

    /// Put one item into the buyer's inventory, replacing any entry that
    /// already carries its identifier.
    fn insert_item(&mut self, item: Item)
        ensures
            final(self).id == old(self).id,
            final(self).wallet == old(self).wallet,
            final(self).inventory@ == upsert(old(self).inventory@, item),
            unique_ids(old(self).inventory@) ==> unique_ids(final(self).inventory@),
    {
        match find_index(&self.inventory, item.id) {
            Some(i) => {
                let _ = self.inventory.remove(i);
                self.inventory.insert(i, item);
                proof {
                    lemma_upsert_at(old(self).inventory@, item, i as int);
                    assert(old(self).inventory@.remove(i as int).insert(i as int, item)
                        =~= old(self).inventory@.update(i as int, item));
                    if unique_ids(old(self).inventory@) {
                        lemma_unique_update(old(self).inventory@, item, i as int);
                    }
                }
            },
            None => {
                self.inventory.push(item);
                proof {
                    lemma_upsert_absent(old(self).inventory@, item);
                    if unique_ids(old(self).inventory@) {
                        let s = old(self).inventory@;
                        assert forall|k: int, l: int|
                            0 <= k < l < s.push(item).len() implies s.push(item)[k].id != s.push(
                            item,
                        )[l].id by {
                            if l < s.len() {
                                assert(s.push(item)[k] == s[k]);
                                assert(s.push(item)[l] == s[l]);
                            } else {
                                assert(s.push(item)[k] == s[k]);
                                assert(s.push(item)[l] == item);
                            }
                        }
                    }
                }
            },
        }
    }

    /// The purchase protocol against a seller reached directly, one
    /// serialized handler turn on each side: probe the price, decide, debit,
    /// call the sale, and compensate where the sale fails.
    pub fn buy(&mut self, shop: &mut Shop, item_id: ItemId) -> (r: Result<Item, PlayerError>)
        ensures
            final(self).id == old(self).id,
            final(shop).id == old(shop).id,
            ({
                let (w2, binv2, sinv2, res) = buy_step(
                    old(self).wallet.0,
                    old(self).inventory@,
                    old(shop).inventory@,
                    item_id,
                );
                final(self).wallet.0 == w2 && final(self).inventory@ == binv2
                    && final(shop).inventory@ == sinv2 && r == res
            }),
            r is Err ==> final(self).wallet == old(self).wallet
                && final(self).inventory@ == old(self).inventory@,
            r matches Ok(item) ==> spec_check_price(old(shop).inventory@, item_id) == Ok::<
                Gold,
                Error,
            >(item.price) && final(self).wallet.0 + item.price.0 == old(self).wallet.0,
            unique_ids(old(self).inventory@) ==> unique_ids(final(self).inventory@),
            unique_ids(old(shop).inventory@) ==> unique_ids(final(shop).inventory@),
            unique_ids(old(shop).inventory@) && r is Ok ==> crate::items::find_item(
                final(shop).inventory@,
                item_id,
            ) is None,
    {
        let quote = shop.check_price(item_id);
        match self.begin_purchase(quote) {
            Err(e) => Err(e),
            Ok(price) => {
                let delivery = shop.buy_item(item_id, price);
                self.finish_purchase(price, delivery)
            },
        }
    }
}

/// Balance invariant: over one whole purchase attempt the buyer's balance
/// never decreases except by exactly the price quoted by the seller and
/// successfully paid for a delivered item; every failed attempt leaves the
/// balance exactly as it was. (The balance can never go negative: it is an
/// unsigned quantity, and the only debit is bounded by the balance.)
pub proof fn lemma_balance_invariant(wallet: u64, binv: Seq<Item>, sinv: Seq<Item>, id: ItemId)
    ensures
        ({
            let (w2, binv2, sinv2, res) = buy_step(wallet, binv, sinv, id);
            &&& (res matches Ok(item) ==> spec_check_price(sinv, id) == Ok::<Gold, Error>(
                item.price,
            ) && item.price.0 <= wallet && w2 == wallet - item.price.0)
            &&& (res is Err ==> w2 == wallet)
        }),
{
}

/// Compensation correctness: when the sale call fails after the optimistic
/// debit, the credit-back restores the balance to exactly its value from
/// before the debit, and the inventory is untouched.
pub proof fn lemma_compensation(
    wallet: u64,
    inv: Seq<Item>,
    quote: Result<Gold, Error>,
    delivery: Result<Item, Error>,
)
    requires
        begin_step(wallet, quote).1 is Ok,
        delivery is Err,
    ensures
        ({
            let (w1, r1) = begin_step(wallet, quote);
            let (w2, inv2, r2) = finish_step(w1, inv, r1->Ok_0, delivery);
            w2 == wallet && inv2 == inv && r2 == Err::<Item, PlayerError>(
                PlayerError::ItemNotAvailableToBuy,
            )
        }),
{
}

} // verus!
