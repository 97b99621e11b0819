use crate::items::{
    find_index, find_item, lemma_find_after_remove, lemma_find_item_index, lemma_remove_id_at,
    lemma_unique_remove, remove_id, unique_ids, Item, ItemId,
};
use crate::money::Gold;
use vstd::prelude::*;

verus! {

/// Identifier of a seller actor.
#[derive(Debug, Clone, Copy, PartialEq, Eq, Hash, Structural)]
pub struct ShopId(pub u64);

impl ShopId {
    pub fn new(value: u64) -> (id: ShopId)
        ensures
            id.0 == value,
    {
        ShopId(value)
    }
}

/// Everything a call into a shop can fail with. The last two variants stand
/// for mailbox failures: the shop's mailbox has no live receiver, or the shop
/// accepted the request but never answered.
#[derive(Debug, Clone, Copy, PartialEq, Eq, Structural)]
pub enum Error {
    ItemNotAvailable,
    NotEnoughGold { payment: Gold, price: Gold },
    ShopClosed,
    NoResponse,
}

/// What a price probe returns: the price of the first item carrying the
/// identifier, or `ItemNotAvailable`.
pub open spec fn spec_check_price(inv: Seq<Item>, id: ItemId) -> Result<Gold, Error> {
    match find_item(inv, id) {
        Some(item) => Ok(item.price),
        None => Err(Error::ItemNotAvailable),
    }
}

/// One sale, as a transition on the inventory: the new inventory and the
/// reply. An unknown identifier changes nothing; an insufficient payment
/// changes nothing and reports both amounts; otherwise the item leaves the
/// inventory and is handed to the buyer.
pub open spec fn spec_buy(inv: Seq<Item>, id: ItemId, payment: Gold) -> (Seq<Item>, Result<
    Item,
    Error,
>) {
    match find_item(inv, id) {
        None => (inv, Err(Error::ItemNotAvailable)),
        Some(item) => if payment.0 < item.price.0 {
            (inv, Err(Error::NotEnoughGold { payment, price: item.price }))
        } else {
            (remove_id(inv, id), Ok(item))
        },
    }
}

/// What one request does to the inventory: reads leave it alone, a sale
/// transitions it as `spec_buy` says.
pub open spec fn spec_step_inventory(inv: Seq<Item>, message: ShopMessage) -> Seq<Item> {
    match message {
        ShopMessage::ListItems => inv,
        ShopMessage::CheckPrice { .. } => inv,
        ShopMessage::BuyItem { item_id, payment } => spec_buy(inv, item_id, payment).0,
    }
}

/// The inventory after a stretch of the mailbox has been processed in
/// arrival order.
pub open spec fn run_messages(inv: Seq<Item>, messages: Seq<ShopMessage>) -> Seq<Item>
    decreases messages.len(),
{
    if messages.len() == 0 {
        inv
    } else {
        run_messages(spec_step_inventory(inv, messages[0]), messages.drop_first())
    }
}

/// A seller: exclusively owned state, mutated one request at a time by the
/// mailbox loop that drives `handle`.
#[derive(Debug)]
pub struct Shop {
    pub id: ShopId,
    pub inventory: Vec<Item>,
}

/// A request to the seller, as plain data. The mailbox wrapping (reply
/// channels, send order) lives outside the library.
#[derive(Debug)]
pub enum ShopMessage {
    ListItems,
    CheckPrice { item_id: ItemId },
    BuyItem { item_id: ItemId, payment: Gold },
}

/// The seller's answer to one request.
#[derive(Debug)]
pub enum ShopReply {
    Items(Vec<Item>),
    Price(Result<Gold, Error>),
    Purchase(Result<Item, Error>),
}

impl Shop {
    /// A shop holding the given goods. Goods carry process-unique
    /// identifiers, so the initial inventory never repeats one.
    pub fn new(id: ShopId, items: Vec<Item>) -> (shop: Shop)
        requires
            unique_ids(items@),
        ensures
            shop.id == id,
            shop.inventory@ == items@,
    {
        Shop { id, inventory: items }
    }

    /// A snapshot copy of the inventory; the shop itself is untouched.
    pub fn list_items(&self) -> (r: Vec<Item>)
        ensures
            r@ == self.inventory@,
    {
        crate::items::clone_items(&self.inventory)
    }

    /// A read-only price probe; the shop itself is untouched.
    pub fn check_price(&self, item_id: ItemId) -> (r: Result<Gold, Error>)
        ensures
            r == spec_check_price(self.inventory@, item_id),
    {
        match find_index(&self.inventory, item_id) {
            Some(i) => Ok(self.inventory[i].price),
            None => Err(Error::ItemNotAvailable),
        }
    }

    /// One sale. The item is removed before the payment is validated and put
    /// back when the payment falls short, so that within this one serialized
    /// call the good can go to at most one buyer.
    pub fn buy_item(&mut self, item_id: ItemId, payment: Gold) -> (r: Result<Item, Error>)
        ensures
            final(self).id == old(self).id,
            ({
                let (inv2, res) = spec_buy(old(self).inventory@, item_id, payment);
                final(self).inventory@ == inv2 && r == res
            }),
            unique_ids(old(self).inventory@) ==> unique_ids(final(self).inventory@),
            unique_ids(old(self).inventory@) && r is Ok ==> find_item(
                final(self).inventory@,
                item_id,
            ) is None,
    {
        let Some(i) = find_index(&self.inventory, item_id) else {
            return Err(Error::ItemNotAvailable);
        };
        let item = self.inventory.remove(i);
        if payment.lt(item.price) {
            let price = item.price;
            self.inventory.insert(i, item);
            proof {
                assert(old(self).inventory@.remove(i as int).insert(
                    i as int,
                    old(self).inventory@[i as int],
                ) =~= old(self).inventory@);
            }
            Err(Error::NotEnoughGold { payment, price })
        } else {
            proof {
                lemma_remove_id_at(old(self).inventory@, item_id, i as int);
                if unique_ids(old(self).inventory@) {
                    lemma_unique_remove(old(self).inventory@, i as int);
                    lemma_find_after_remove(old(self).inventory@, item_id, i as int);
                }
            }
            Ok(item)
        }
    }

    /// One turn of the seller's mailbox loop: dispatch one request, mutate
    /// the state accordingly, and produce the reply to send back.
    pub fn handle(&mut self, message: ShopMessage) -> (reply: ShopReply)
        ensures
            final(self).id == old(self).id,
            final(self).inventory@ == spec_step_inventory(old(self).inventory@, message),
            match message {
                ShopMessage::ListItems => (reply matches ShopReply::Items(items) && items@ == old(
                    self,
                ).inventory@),
                ShopMessage::CheckPrice { item_id } => reply == ShopReply::Price(
                    spec_check_price(old(self).inventory@, item_id),
                ),
                ShopMessage::BuyItem { item_id, payment } => reply == ShopReply::Purchase(
                    spec_buy(old(self).inventory@, item_id, payment).1,
                ),
            },
    {
        match message {
            ShopMessage::ListItems => ShopReply::Items(self.list_items()),
            ShopMessage::CheckPrice { item_id } => ShopReply::Price(self.check_price(item_id)),
            ShopMessage::BuyItem { item_id, payment } => ShopReply::Purchase(
                self.buy_item(item_id, payment),
            ),
        }
    }
}

/// No double sale: once a sale of `id` has succeeded, a second attempt on the
/// resulting inventory reports `ItemNotAvailable` and changes nothing,
/// whatever the second payment. The seller's mailbox serializes concurrent
/// attempts into exactly such a succession of transitions.
pub proof fn lemma_no_double_sale(inv: Seq<Item>, id: ItemId, pay1: Gold, pay2: Gold)
    requires
        unique_ids(inv),
        spec_buy(inv, id, pay1).1 is Ok,
    ensures
        ({
            let inv1 = spec_buy(inv, id, pay1).0;
            spec_buy(inv1, id, pay2) == (inv1, Err::<Item, Error>(Error::ItemNotAvailable))
        }),
{
    let i = lemma_find_item_index(inv, id);
    lemma_remove_id_at(inv, id, i);
    lemma_find_after_remove(inv, id, i);
}

/// Read requests are idempotent: a stretch of the mailbox holding only
/// price probes and listings leaves the seller state untouched, so — with no
/// intervening sale — every one of them is answered from the same inventory
/// and any number of repetitions answers alike. (`check_price` and
/// `list_items` take the shop by shared reference, so no single read can
/// mutate it either.)
pub proof fn lemma_reads_idempotent(inv: Seq<Item>, messages: Seq<ShopMessage>)
    requires
        forall|i: int| 0 <= i < messages.len() ==> !(messages[i] is BuyItem),
    ensures
        run_messages(inv, messages) == inv,
    decreases messages.len(),
{
    if messages.len() > 0 {
        assert(spec_step_inventory(inv, messages[0]) == inv);
        assert forall|i: int| 0 <= i < messages.drop_first().len() implies !(messages.drop_first()[i]
            is BuyItem) by {
            assert(messages.drop_first()[i] == messages[i + 1]);
        }
        lemma_reads_idempotent(inv, messages.drop_first());
    }
}

} // verus!
