use buddy_core::AppState;
use buddy_core::buddy::{Side, Slot};
use buddy_core::fixed::Vec2Fx;
use buddy_core::buddy::BuddyTemplate;
use buddy_core::shop::{
    battle_button, buy_buddy, enter_shop, find_open_slot, spawn_shop_base, BuddyListing,
    ButtonColor, Interaction, Price,
};

fn listing(side: Side, slot: usize, x: i64, y: i64, price: usize) -> BuddyListing {
    BuddyListing {
        transform: Vec2Fx::new(x, y),
        slot: Slot::new(slot),
        side,
        price: Price(price),
    }
}

#[test]
fn a_purchase_takes_the_lowest_free_slot() {
    // left slots 0 and 2 taken: a successful purchase must land in slot 1
    let mut buddies = vec![
        listing(Side::Left, 0, -1_800_000, 0, 9),
        listing(Side::Left, 2, -5_400_000, 0, 9),
        listing(Side::Shop, 0, 0, -2_000_000, 2),
    ];
    let mut coins: i64 = 10;
    let bought = buy_buddy(Vec2Fx::new(0, -2_000_000), &mut buddies, &mut coins);
    assert_eq!(bought, Some(2));
    assert!(buddies[2].side == Side::Left);
    assert_eq!(buddies[2].slot.current, 1);
    assert_eq!(buddies[2].slot.base, 1);
    assert_eq!(coins, 8);
    // the other listings are untouched
    assert!(buddies[0].side == Side::Left);
    assert_eq!(buddies[0].slot.current, 0);
    assert!(buddies[1].side == Side::Left);
    assert_eq!(buddies[1].slot.current, 2);
}

#[test]
fn a_full_side_fails_the_purchase_silently() {
    let mut buddies = vec![
        listing(Side::Left, 0, 0, 0, 9),
        listing(Side::Left, 1, 0, 0, 9),
        listing(Side::Left, 2, 0, 0, 9),
        listing(Side::Shop, 0, 0, -2_000_000, 2),
    ];
    let before = buddies.clone();
    let mut coins: i64 = 10;
    let bought = buy_buddy(Vec2Fx::new(0, -2_000_000), &mut buddies, &mut coins);
    assert_eq!(bought, None);
    assert_eq!(coins, 10);
    assert_eq!(buddies, before);
}

#[test]
fn a_missed_press_buys_nothing() {
    let mut buddies = vec![listing(Side::Shop, 0, 0, 0, 2)];
    let before = buddies.clone();
    let mut coins: i64 = 10;
    // just outside the hit-box on the x axis: the bound is strict
    let bought = buy_buddy(Vec2Fx::new(650_000, 0), &mut buddies, &mut coins);
    assert_eq!(bought, None);
    assert_eq!(coins, 10);
    assert_eq!(buddies, before);
}

#[test]
fn only_shop_buddies_can_be_bought() {
    let mut buddies = vec![listing(Side::Left, 0, 0, 0, 9)];
    let mut coins: i64 = 10;
    let bought = buy_buddy(Vec2Fx::new(0, 0), &mut buddies, &mut coins);
    assert_eq!(bought, None);
    assert_eq!(coins, 10);
}

#[test]
fn the_first_hit_in_list_order_wins() {
    // two overlapping shop offers: list order decides, mirroring the
    // host's arbitrary entity iteration order
    let mut buddies = vec![
        listing(Side::Shop, 0, 0, 0, 2),
        listing(Side::Shop, 1, 100, 100, 3),
    ];
    let mut coins: i64 = 10;
    let bought = buy_buddy(Vec2Fx::new(50, 50), &mut buddies, &mut coins);
    assert_eq!(bought, Some(0));
    assert_eq!(coins, 8);
    assert!(buddies[1].side == Side::Shop);
}

#[test]
fn open_slots_fill_lowest_first() {
    assert_eq!(find_open_slot(&vec![]), Some(0));
    assert_eq!(find_open_slot(&vec![0, 2]), Some(1));
    assert_eq!(find_open_slot(&vec![1, 2]), Some(0));
    assert_eq!(find_open_slot(&vec![0, 1]), Some(2));
    assert_eq!(find_open_slot(&vec![0, 1, 2]), None);
    // duplicates change nothing
    assert_eq!(find_open_slot(&vec![0, 0, 1]), Some(2));
}

#[test]
fn entering_the_shop_restocks_three_priced_offers() {
    let keep_left = BuddyTemplate::random_for_round(0).spawn(0, Side::Left, Vec2Fx::new(0, 0));
    let old_offer = BuddyTemplate::random_for_round(0).spawn(1, Side::Shop, Vec2Fx::new(0, 0));
    let keep_right = BuddyTemplate::random_for_round(0).spawn(2, Side::Right, Vec2Fx::new(0, 0));
    let mut buddies = vec![keep_left, old_offer, keep_right];

    let spawned = enter_shop(&mut buddies);

    // the stale shop offers are gone, everyone else kept in order
    assert_eq!(buddies.len(), 2);
    assert!(buddies[0].side == Side::Left);
    assert!(buddies[1].side == Side::Right);

    assert_eq!(spawned.len(), 3);
    for (i, (offer, price)) in spawned.iter().enumerate() {
        assert!(offer.side == Side::Shop);
        assert_eq!(offer.slot.current, i);
        assert_eq!(offer.slot.base, i);
        assert_eq!(price.0, 2);
        assert!(offer.buddy.alive);
        assert_eq!(offer.health.0.base, 1);
        assert_eq!(offer.strength.0.base, 1);
    }
}

#[test]
fn the_battle_button_only_acts_on_a_click() {
    assert_eq!(
        battle_button(&Interaction::Clicked),
        (Some(AppState::Battle), None)
    );
    assert_eq!(
        battle_button(&Interaction::Hovered),
        (None, Some(ButtonColor::Hovered))
    );
    assert_eq!(
        battle_button(&Interaction::Idle),
        (None, Some(ButtonColor::Normal))
    );
}

#[test]
fn the_shop_base_is_one_pad_per_offer() {
    let pads = spawn_shop_base();
    assert_eq!(pads.len(), 3);
    for (i, p) in pads.iter().enumerate() {
        assert!(p.side == Side::Shop);
        assert_eq!(p.slot.current, i);
    }
}
