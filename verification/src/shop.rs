//! The shop: restocking shop-side buddies on entry, the battle button's
//! decision, and the buy resolver that hit-tests a press against shop
//! buddies and assigns the first free left-side slot.

use vstd::prelude::*;
use crate::AppState;
use crate::buddy::{Attribute, Buddy, BuddyBlink, BuddyBundle, BuddyColor, BuddyFace, Health,
    MAX_PER_SIDE, Offset, Side, Slot, Strength};
use crate::fixed::{Vec2Fx, pos_bounded};
use crate::pad::{PadBundle, spawn_pad};

verus! {

/// Number of buddies offered in the shop row.
pub const SHOP_BUDDY_SLOTS: usize = 3;

/// What every fresh shop offer costs.
pub const SHOP_PRICE: usize = 2;

/// Largest accepted price.
pub const PRICE_MAX: usize = 1_000_000;

/// Largest accepted magnitude of the player's balance.
pub const COINS_MAX: i64 = 1_000_000_000_000;

/// Half-extent of a buddy's square hit-box, fixed point (65 world units).
pub const BUDDY_EXTENTS: i64 = 650_000;

/// Marker for the shop row's pads.
#[derive(Clone, Copy, PartialEq, Eq, Structural, Debug)]
pub struct ShopPad;

/// Marker for the battle button entity.
#[derive(Clone, Copy, PartialEq, Eq, Structural, Debug)]
pub struct BattleButton;

/// What the shop phase keeps while it is open: the handle of the battle
/// button entity it spawned.
#[derive(Clone, Copy, PartialEq, Eq, Structural, Debug)]
pub struct ShopState {
    pub battle_button: u64,
}

/// What a shop offer costs.
#[derive(Clone, Copy, PartialEq, Eq, Structural, Debug)]
pub struct Price(pub usize);

/// Build the shop row's pads, one per shop slot.
pub fn spawn_shop_base() -> (r: Vec<PadBundle>)
    ensures
        r@.len() == SHOP_BUDDY_SLOTS,
        forall|i: int| 0 <= i < r@.len() ==> {
            &&& (#[trigger] r@[i]).side == Side::Shop
            &&& r@[i].slot.current == i && r@[i].slot.base == i
            &&& r@[i].pad.wf()
            &&& r@[i].pad.has_default_ranges()
        },
{
    let mut r: Vec<PadBundle> = Vec::new();
    let mut i: usize = 0;
    while i < SHOP_BUDDY_SLOTS
        invariant
            i <= SHOP_BUDDY_SLOTS,
            r@.len() == i,
            forall|j: int| 0 <= j < r@.len() ==> {
                &&& (#[trigger] r@[j]).side == Side::Shop
                &&& r@[j].slot.current == j && r@[j].slot.base == j
                &&& r@[j].pad.wf()
                &&& r@[j].pad.has_default_ranges()
            },
        decreases SHOP_BUDDY_SLOTS - i,
    {
        r.push(spawn_pad(Side::Shop, Slot::new(i)));
        i = i + 1;
    }
    r
}

/// The buddy list with the shop-side entries removed, order kept.
pub open spec fn without_shop_buddies(s: Seq<BuddyBundle>) -> Seq<BuddyBundle>
    decreases s.len(),
{
    if s.len() == 0 {
        Seq::empty()
    } else {
        let rest = without_shop_buddies(s.drop_last());
        if s.last().side != Side::Shop {
            rest.push(s.last())
        } else {
            rest
        }
    }
}

/// A fresh shop offer: shop side, the given slot, unit stats, the fixed
/// price, resting at the origin.
pub open spec fn is_fresh_offer(b: BuddyBundle, p: Price, slot: int) -> bool {
    &&& b.side == Side::Shop
    &&& b.slot.current == slot && b.slot.base == slot
    &&& b.buddy.alive
    &&& b.health.0.base == 1 && b.health.0.value == 1
    &&& b.strength.0.base == 1 && b.strength.0.value == 1
    &&& b.color.in_palette()
    &&& b.transform.x == 0 && b.transform.y == 0
    &&& b.position_offset.0.x == 0 && b.position_offset.0.y == 0
    &&& p.0 == SHOP_PRICE
}

/// Re-enter the shop phase: clear the old shop-side buddies out of the
/// list and return a fresh batch of priced shop offers, one per shop slot,
/// with random face and tint.
pub fn enter_shop(buddies: &mut Vec<BuddyBundle>) -> (spawned: Vec<(BuddyBundle, Price)>)
    ensures
        final(buddies)@ == without_shop_buddies(old(buddies)@),
        spawned@.len() == SHOP_BUDDY_SLOTS,
        forall|i: int| 0 <= i < spawned@.len()
            ==> is_fresh_offer((#[trigger] spawned@[i]).0, spawned@[i].1, i),
{
    let ghost orig = buddies@;
    let mut kept: Vec<BuddyBundle> = Vec::new();
    let mut i: usize = 0;
    while i < buddies.len()
        invariant
            i <= buddies.len(),
            buddies@ == orig,
            kept@ == without_shop_buddies(orig.take(i as int)),
        decreases buddies.len() - i,
    {
        proof {
            assert(orig.take(i + 1).drop_last() =~= orig.take(i as int));
            assert(orig.take(i + 1).last() == orig[i as int]);
        }
        if !(buddies[i].side == Side::Shop) {
            kept.push(buddies[i]);
        }
        i = i + 1;
    }
    proof {
        assert(orig.take(orig.len() as int) =~= orig);
    }
    *buddies = kept;

    let mut spawned: Vec<(BuddyBundle, Price)> = Vec::new();
    let mut k: usize = 0;
    while k < SHOP_BUDDY_SLOTS
        invariant
            k <= SHOP_BUDDY_SLOTS,
            spawned@.len() == k,
            forall|j: int| 0 <= j < spawned@.len()
                ==> is_fresh_offer((#[trigger] spawned@[j]).0, spawned@[j].1, j),
        decreases SHOP_BUDDY_SLOTS - k,
    {
        let offer = BuddyBundle {
            buddy: Buddy { alive: true },
            health: Health(Attribute::new(1)),
            strength: Strength(Attribute::new(1)),
            face: BuddyFace::random(),
            blink: BuddyBlink::new(false),
            position_offset: Offset(Vec2Fx { x: 0, y: 0 }),
            slot: Slot::new(k),
            color: BuddyColor::random(),
            side: Side::Shop,
            transform: Vec2Fx { x: 0, y: 0 },
        };
        spawned.push((offer, Price(SHOP_PRICE)));
        k = k + 1;
    }
    spawned
}

/// How a pointer interacts with the battle button this tick.
#[derive(Clone, Copy, PartialEq, Eq, Structural, Debug)]
pub enum Interaction {
    Clicked,
    Hovered,
    Idle,
}

/// The tint the battle button shows.
#[derive(Clone, Copy, PartialEq, Eq, Structural, Debug)]
pub enum ButtonColor {
    Normal,
    Hovered,
}

/// The battle button's decision: a click requests the battle state; a
/// hover or an idle pointer only re-tints the button.
pub fn battle_button(interaction: &Interaction) -> (r: (Option<AppState>, Option<ButtonColor>))
    ensures
        *interaction == Interaction::Clicked
            ==> r == (Some(AppState::Battle), Option::<ButtonColor>::None),
        *interaction == Interaction::Hovered
            ==> r == (Option::<AppState>::None, Some(ButtonColor::Hovered)),
        *interaction == Interaction::Idle
            ==> r == (Option::<AppState>::None, Some(ButtonColor::Normal)),
{
    match interaction {
        Interaction::Clicked => (Some(AppState::Battle), None),
        Interaction::Hovered => (None, Some(ButtonColor::Hovered)),
        Interaction::Idle => (None, Some(ButtonColor::Normal)),
    }
}

/// The slice of a buddy's state that the buy resolver reads and writes.
#[derive(Clone, Copy, PartialEq, Eq, Structural, Debug)]
pub struct BuddyListing {
    pub transform: Vec2Fx,
    pub slot: Slot,
    pub side: Side,
    pub price: Price,
}

/// The cursor lies inside the square hit-box centred on `pos`.
pub open spec fn cursor_hits(pos: Vec2Fx, cursor: Vec2Fx) -> bool {
    &&& cursor.x < pos.x + BUDDY_EXTENTS
    &&& cursor.x > pos.x - BUDDY_EXTENTS
    &&& cursor.y < pos.y + BUDDY_EXTENTS
    &&& cursor.y > pos.y - BUDDY_EXTENTS
}

/// The entry is a shop offer under the cursor.
pub open spec fn shop_hit(b: BuddyListing, cursor: Vec2Fx) -> bool {
    b.side == Side::Shop && cursor_hits(b.transform, cursor)
}

/// Some left-side buddy currently sits in slot `s`.
pub open spec fn left_slot_occupied(buddies: Seq<BuddyListing>, s: int) -> bool {
    exists|j: int| 0 <= j < buddies.len()
        && (#[trigger] buddies[j]).side == Side::Left && buddies[j].slot.current == s
}

/// Some left-side buddy among the first `n` sits in slot `s`.
pub open spec fn left_occupied_upto(buddies: Seq<BuddyListing>, n: int, s: int) -> bool {
    exists|j: int| 0 <= j < n
        && (#[trigger] buddies[j]).side == Side::Left && buddies[j].slot.current == s
}

/// Collect the slot indices of the left-side buddies.
fn occupied_left_slots(buddies: &Vec<BuddyListing>) -> (r: Vec<usize>)
    ensures
        forall|s: usize| #[trigger] r@.contains(s) <==> left_slot_occupied(buddies@, s as int),
{
    let mut r: Vec<usize> = Vec::new();
    let mut i: usize = 0;
    while i < buddies.len()
        invariant
            i <= buddies.len(),
            forall|s: usize| #[trigger] r@.contains(s)
                <==> left_occupied_upto(buddies@, i as int, s as int),
        decreases buddies.len() - i,
    {
        let ghost pre = r@;
        if buddies[i].side == Side::Left {
            let cur = buddies[i].slot.current;
            r.push(cur);
            proof {
                assert forall|s: usize| #[trigger] r@.contains(s) implies left_occupied_upto(
                    buddies@,
                    i + 1,
                    s as int,
                ) by {
                    let k = choose|k: int| 0 <= k < r@.len() && r@[k] == s;
                    if k < pre.len() {
                        assert(pre[k] == s);
                        assert(pre.contains(s));
                        let j = choose|j: int| 0 <= j < i
                            && (#[trigger] buddies@[j]).side == Side::Left
                            && buddies@[j].slot.current == s;
                        assert(0 <= j < i + 1 && buddies@[j].side == Side::Left
                            && buddies@[j].slot.current == s);
                    } else {
                        assert(buddies@[i as int].side == Side::Left
                            && buddies@[i as int].slot.current == s);
                    }
                }
                assert forall|s: usize| left_occupied_upto(buddies@, i + 1, s as int)
                    implies #[trigger] r@.contains(s) by {
                    let j = choose|j: int| 0 <= j < i + 1
                        && (#[trigger] buddies@[j]).side == Side::Left
                        && buddies@[j].slot.current == s;
                    if j < i {
                        assert(left_occupied_upto(buddies@, i as int, s as int));
                        assert(pre.contains(s));
                        let k = choose|k: int| 0 <= k < pre.len() && pre[k] == s;
                        assert(r@[k] == s);
                    } else {
                        assert(r@[pre.len() as int] == s);
                    }
                }
            }
        } else {
            proof {
                assert forall|s: usize| left_occupied_upto(buddies@, i + 1, s as int)
                    implies left_occupied_upto(buddies@, i as int, s as int) by {
                    let j = choose|j: int| 0 <= j < i + 1
                        && (#[trigger] buddies@[j]).side == Side::Left
                        && buddies@[j].slot.current == s;
                    assert(j != i);
                }
                assert forall|s: usize| left_occupied_upto(buddies@, i as int, s as int)
                    implies left_occupied_upto(buddies@, i + 1, s as int) by {
                    let j = choose|j: int| 0 <= j < i
                        && (#[trigger] buddies@[j]).side == Side::Left
                        && buddies@[j].slot.current == s;
                    assert(0 <= j < i + 1 && buddies@[j].side == Side::Left
                        && buddies@[j].slot.current == s);
                }
            }
        }
        i = i + 1;
    }
    r
}

/// Whether the list holds this slot index.
fn contains_slot(v: &Vec<usize>, s: usize) -> (r: bool)
    ensures
        r == v@.contains(s),
{
    let mut i: usize = 0;
    while i < v.len()
        invariant
            i <= v.len(),
            forall|j: int| 0 <= j < i ==> v@[j] != s,
        decreases v.len() - i,
    {
        if v[i] == s {
            return true;
        }
        i = i + 1;
    }
    false
}

/// Find the lowest slot index not yet occupied, if any.
pub fn find_open_slot(occupied: &Vec<usize>) -> (r: Option<usize>)
    ensures
        match r {
            Some(f) => f < MAX_PER_SIDE && !occupied@.contains(f)
                && forall|j: usize| j < f ==> occupied@.contains(j),
            None => forall|j: usize| j < MAX_PER_SIDE ==> occupied@.contains(j),
        },
{
    let mut i: usize = 0;
    while i < MAX_PER_SIDE
        invariant
            i <= MAX_PER_SIDE,
            forall|j: usize| j < i ==> occupied@.contains(j),
        decreases MAX_PER_SIDE - i,
    {
        if !contains_slot(occupied, i) {
            return Some(i);
        }
        i = i + 1;
    }
    None
}

/// Resolve one press of the pointer at `cursor_world`: the first shop
/// buddy whose hit-box contains the cursor is bought, taking the lowest
/// free left-side slot and its price out of the balance. The purchase
/// fails silently when every left slot is taken; the press is consumed by
/// the first hit either way. Which buddy is "first" follows the list's
/// order, which mirrors the arbitrary entity iteration order of the host.
/// Returns the index of the bought buddy.
pub fn buy_buddy(cursor_world: Vec2Fx, buddies: &mut Vec<BuddyListing>, coins: &mut i64)
    -> (r: Option<usize>)
    requires
        forall|j: int| 0 <= j < old(buddies)@.len() ==> pos_bounded(
            (#[trigger] old(buddies)@[j]).transform.x as int,
            old(buddies)@[j].transform.y as int,
        ),
        forall|j: int| 0 <= j < old(buddies)@.len()
            ==> (#[trigger] old(buddies)@[j]).price.0 <= PRICE_MAX,
        -COINS_MAX <= *old(coins) <= COINS_MAX,
    ensures
        match r {
            Some(i) => {
                &&& 0 <= i < old(buddies)@.len()
                &&& shop_hit(old(buddies)@[i as int], cursor_world)
                &&& forall|j: int| 0 <= j < i
                    ==> !shop_hit(#[trigger] old(buddies)@[j], cursor_world)
                &&& exists|f: usize| {
                    &&& f < MAX_PER_SIDE
                    &&& !left_slot_occupied(old(buddies)@, f as int)
                    &&& (forall|g: int| 0 <= g < f
                        ==> left_slot_occupied(old(buddies)@, g))
                    &&& final(buddies)@ == old(buddies)@.update(i as int, BuddyListing {
                        side: Side::Left,
                        slot: (Slot { current: f, base: f }),
                        ..old(buddies)@[i as int]
                    })
                }
                &&& *final(coins) == *old(coins) - old(buddies)@[i as int].price.0
            },
            None => {
                &&& final(buddies)@ == old(buddies)@
                &&& *final(coins) == *old(coins)
                &&& (exists|i: int| 0 <= i < old(buddies)@.len()
                    && shop_hit(#[trigger] old(buddies)@[i], cursor_world))
                    ==> forall|s: int| 0 <= s < MAX_PER_SIDE
                        ==> left_slot_occupied(old(buddies)@, s)
            },
        },
{
    let occupied = occupied_left_slots(buddies);
    let mut i: usize = 0;
    while i < buddies.len()
        invariant
            i <= buddies.len(),
            buddies@ == old(buddies)@,
            *coins == *old(coins),
            forall|j: int| 0 <= j < i ==> !shop_hit(#[trigger] buddies@[j], cursor_world),
            forall|s: usize| #[trigger] occupied@.contains(s)
                <==> left_slot_occupied(buddies@, s as int),
            forall|j: int| 0 <= j < buddies@.len()
                ==> (#[trigger] buddies@[j]).price.0 <= PRICE_MAX,
            forall|j: int| 0 <= j < buddies@.len() ==> pos_bounded(
                (#[trigger] buddies@[j]).transform.x as int,
                buddies@[j].transform.y as int,
            ),
            -COINS_MAX <= *coins <= COINS_MAX,
        decreases buddies.len() - i,
    {
        let b = buddies[i];
        if b.side == Side::Shop && cursor_world.x < b.transform.x + BUDDY_EXTENTS
            && cursor_world.x > b.transform.x - BUDDY_EXTENTS
            && cursor_world.y < b.transform.y + BUDDY_EXTENTS
            && cursor_world.y > b.transform.y - BUDDY_EXTENTS {
            match find_open_slot(&occupied) {
                Some(open_slot) => {
                    let mut updated = b;
                    updated.side = Side::Left;
                    updated.slot = Slot { current: open_slot, base: open_slot };
                    buddies[i] = updated;
                    *coins = *coins - (b.price.0 as i64);
                    proof {
                        assert forall|g: int| 0 <= g < open_slot implies left_slot_occupied(
                            old(buddies)@,
                            g,
                        ) by {
                            assert(occupied@.contains(g as usize));
                        }
                    }
                    return Some(i);
                },
                None => {
                    proof {
                        assert forall|s: int| 0 <= s < MAX_PER_SIDE implies left_slot_occupied(
                            old(buddies)@,
                            s,
                        ) by {
                            assert(occupied@.contains(s as usize));
                        }
                    }
                    return None;
                },
            }
        }
        i = i + 1;
    }
    None
}

} // verus!
