use gold_market::items::{Item, ItemId};
use gold_market::money::Gold;
use gold_market::player::{Player, PlayerError, PlayerId};
use gold_market::shop::{Error, Shop, ShopId, ShopMessage, ShopReply};

fn sword() -> Item {
    Item::new(ItemId::new(1), "Sword", Gold::new(100))
}

fn shield() -> Item {
    Item::new(ItemId::new(2), "Shield", Gold::new(150))
}

fn shop_with(items: Vec<Item>) -> Shop {
    Shop::new(ShopId::new(10), items)
}

#[test]
fn gold_arithmetic() {
    assert_eq!(Gold::new(5).value(), 5);
    assert_eq!(Gold::new(5).add(Gold::new(7)), Gold::new(12));
    assert_eq!(Gold::new(12).sub(Gold::new(7)), Gold::new(5));
    assert!(Gold::new(5).lt(Gold::new(7)));
    assert!(!Gold::new(7).lt(Gold::new(7)));
}

#[test]
fn item_construction() {
    let it = sword();
    assert_eq!(it.id, ItemId::new(1));
    assert_eq!(it.name, "Sword");
    assert_eq!(it.price, Gold::new(100));
    let copy = it.duplicate();
    assert_eq!(copy.id, it.id);
    assert_eq!(copy.name, it.name);
    assert_eq!(copy.price, it.price);
}

#[test]
fn successful_purchase() {
    // Seller holds Sword(price=100); buyer has balance 1000.
    let mut shop = shop_with(vec![sword(), shield()]);
    let mut player = Player::new(PlayerId::new(1), Gold::new(1000), Vec::new());
    let bought = player.buy(&mut shop, ItemId::new(1)).expect("purchase should succeed");
    assert_eq!(bought.id, ItemId::new(1));
    assert_eq!(bought.price, Gold::new(100));
    // Balance became 900 and the buyer owns the sword.
    let (balance, owned) = player.info();
    assert_eq!(balance, Gold::new(900));
    assert_eq!(owned.len(), 1);
    assert_eq!(owned[0].id, ItemId::new(1));
    // The seller no longer offers it.
    assert_eq!(shop.check_price(ItemId::new(1)), Err(Error::ItemNotAvailable));
    let left = shop.list_items();
    assert_eq!(left.len(), 1);
    assert_eq!(left[0].id, ItemId::new(2));
}

#[test]
fn insufficient_funds() {
    // Buyer has balance 50; good price 100.
    let mut shop = shop_with(vec![sword()]);
    let mut player = Player::new(PlayerId::new(1), Gold::new(50), Vec::new());
    let r = player.buy(&mut shop, ItemId::new(1));
    match r {
        Err(PlayerError::NotEnoughGold { available, price }) => {
            assert_eq!(available, Gold::new(50));
            assert_eq!(price, Gold::new(100));
        }
        _ => panic!("a short balance must report both amounts"),
    }
    // Balance remains 50 and nothing was sold.
    assert_eq!(player.info().0, Gold::new(50));
    assert_eq!(shop.list_items().len(), 1);
}

#[test]
fn no_double_sale() {
    // Two buyers go for the same good; the seller serializes the attempts.
    let mut shop = shop_with(vec![sword()]);
    let mut a = Player::new(PlayerId::new(1), Gold::new(500), Vec::new());
    let mut b = Player::new(PlayerId::new(2), Gold::new(500), Vec::new());
    let first = a.buy(&mut shop, ItemId::new(1));
    let second = b.buy(&mut shop, ItemId::new(1));
    assert!(first.is_ok());
    assert!(matches!(second, Err(PlayerError::ItemNotAvailableToBuy)));
    // The losing buyer's balance is unchanged.
    assert_eq!(b.info().0, Gold::new(500));
    assert_eq!(a.info().0, Gold::new(400));
}

#[test]
fn unknown_good() {
    let mut shop = shop_with(vec![sword()]);
    let mut player = Player::new(PlayerId::new(1), Gold::new(500), Vec::new());
    let r = player.buy(&mut shop, ItemId::new(99));
    assert!(matches!(r, Err(PlayerError::ItemNotAvailableToBuy)));
    // No state mutation on either actor.
    assert_eq!(player.info().0, Gold::new(500));
    assert_eq!(player.info().1.len(), 0);
    assert_eq!(shop.list_items().len(), 1);
}

#[test]
fn reads_are_idempotent() {
    let shop = shop_with(vec![sword(), shield()]);
    let p1 = shop.check_price(ItemId::new(2));
    let p2 = shop.check_price(ItemId::new(2));
    assert_eq!(p1, Ok(Gold::new(150)));
    assert_eq!(p1, p2);
    let l1 = shop.list_items();
    let l2 = shop.list_items();
    assert_eq!(l1.len(), l2.len());
    for (x, y) in l1.iter().zip(l2.iter()) {
        assert_eq!(x.id, y.id);
        assert_eq!(x.name, y.name);
        assert_eq!(x.price, y.price);
    }
}

#[test]
fn compensation_restores_balance() {
    // The sale call fails after the optimistic debit: the debit is credited
    // back exactly.
    let mut player = Player::new(PlayerId::new(1), Gold::new(300), Vec::new());
    let price = player
        .begin_purchase(Ok(Gold::new(120)))
        .expect("quote within balance should pass");
    assert_eq!(price, Gold::new(120));
    assert_eq!(player.info().0, Gold::new(180));
    let r = player.finish_purchase(price, Err(Error::ItemNotAvailable));
    assert!(matches!(r, Err(PlayerError::ItemNotAvailableToBuy)));
    assert_eq!(player.info().0, Gold::new(300));
    assert_eq!(player.info().1.len(), 0);
}

#[test]
fn unreachable_seller_fails_cleanly() {
    // A dead mailbox surfaces as ShopClosed; the protocol reports the item
    // as unavailable and changes nothing.
    let mut player = Player::new(PlayerId::new(1), Gold::new(300), Vec::new());
    let r = player.begin_purchase(Err(Error::ShopClosed));
    assert_eq!(r, Err(PlayerError::ItemNotAvailableToBuy));
    assert_eq!(player.info().0, Gold::new(300));
}

#[test]
fn direct_sale_with_short_payment() {
    // Bypassing the buyer protocol: the seller reports both amounts and
    // restores the good.
    let mut shop = shop_with(vec![sword()]);
    let r = shop.buy_item(ItemId::new(1), Gold::new(40));
    match r {
        Err(Error::NotEnoughGold { payment, price }) => {
            assert_eq!(payment, Gold::new(40));
            assert_eq!(price, Gold::new(100));
        }
        _ => panic!("a short payment must report both amounts"),
    }
    assert_eq!(shop.check_price(ItemId::new(1)), Ok(Gold::new(100)));
    assert_eq!(shop.list_items().len(), 1);
}

#[test]
fn direct_sale_with_exact_payment() {
    let mut shop = shop_with(vec![sword()]);
    let r = shop.buy_item(ItemId::new(1), Gold::new(100)).expect("exact payment buys");
    assert_eq!(r.id, ItemId::new(1));
    assert_eq!(shop.list_items().len(), 0);
    // A second attempt finds nothing and pays nothing.
    let again = shop.buy_item(ItemId::new(1), Gold::new(100));
    assert!(matches!(again, Err(Error::ItemNotAvailable)));
}

#[test]
fn handle_dispatches_requests() {
    let mut shop = shop_with(vec![sword(), shield()]);
    match shop.handle(ShopMessage::ListItems) {
        ShopReply::Items(items) => assert_eq!(items.len(), 2),
        _ => panic!("list request must yield items"),
    }
    match shop.handle(ShopMessage::CheckPrice { item_id: ItemId::new(1) }) {
        ShopReply::Price(p) => assert_eq!(p, Ok(Gold::new(100))),
        _ => panic!("price request must yield a price"),
    }
    match shop.handle(ShopMessage::BuyItem { item_id: ItemId::new(1), payment: Gold::new(100) }) {
        ShopReply::Purchase(r) => assert_eq!(r.expect("payment covers price").id, ItemId::new(1)),
        _ => panic!("buy request must yield a purchase result"),
    }
    assert_eq!(shop.list_items().len(), 1);
}

#[test]
fn receive_gold_accumulates() {
    let mut player = Player::new(PlayerId::new(1), Gold::new(10), Vec::new());
    player.receive_gold(Gold::new(15));
    player.receive_gold(Gold::new(5));
    assert_eq!(player.info().0, Gold::new(30));
}

#[test]
fn balance_moves_only_by_accepted_prices() {
    // A run of operations: income, two failed attempts, one success. The
    // balance changes only by the income and the price actually accepted.
    let mut shop = shop_with(vec![sword()]);
    let mut player = Player::new(PlayerId::new(1), Gold::new(60), Vec::new());
    player.receive_gold(Gold::new(40));
    assert!(matches!(player.buy(&mut shop, ItemId::new(5)), Err(PlayerError::ItemNotAvailableToBuy)));
    assert_eq!(player.info().0, Gold::new(100));
    let r = player.buy(&mut shop, ItemId::new(1));
    assert!(r.is_ok());
    assert_eq!(player.info().0, Gold::new(0));
    assert!(matches!(player.buy(&mut shop, ItemId::new(1)), Err(PlayerError::ItemNotAvailableToBuy)));
    assert_eq!(player.info().0, Gold::new(0));
}

#[test]
fn delivered_item_replaces_same_identifier() {
    // Inventories key goods by identifier: a delivery carrying an already
    // owned identifier replaces that entry instead of duplicating it.
    let owned = Item::new(ItemId::new(1), "Old Sword", Gold::new(10));
    let mut player = Player::new(PlayerId::new(1), Gold::new(100), vec![owned]);
    let delivered = Item::new(ItemId::new(1), "Sword", Gold::new(100));
    let r = player.finish_purchase(Gold::new(0), Ok(delivered));
    assert!(r.is_ok());
    let (_, inv) = player.info();
    assert_eq!(inv.len(), 1);
    assert_eq!(inv[0].name, "Sword");
}

#[test]
fn empty_shop_lists_nothing() {
    let shop = shop_with(Vec::new());
    assert!(shop.list_items().is_empty());
    assert_eq!(shop.check_price(ItemId::new(1)), Err(Error::ItemNotAvailable));
}

#[test]
fn info_is_a_snapshot() {
    let it = sword();
    let player = Player::new(PlayerId::new(4), Gold::new(77), vec![it]);
    let (balance, inv) = player.info();
    assert_eq!(balance, Gold::new(77));
    assert_eq!(inv.len(), 1);
    assert_eq!(inv[0].id, ItemId::new(1));
    assert_eq!(inv[0].name, "Sword");
    // Asking again answers alike.
    let (balance2, inv2) = player.info();
    assert_eq!(balance2, balance);
    assert_eq!(inv2.len(), inv.len());
}
