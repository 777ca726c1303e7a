//! What happens on a floor from one frame to the next: bugs draining health,
//! items being picked up, people being talked to, the display being updated
//! and the floor being filled at the start.
use vstd::prelude::*;

use crate::components::{
    BugType, Enemy, Item, ItemKind, Npc, NpcRole, Player, item_kind_name, npc_role_name,
};

verus! {

/// Health lost for each bug close enough in one frame.
pub const CONTACT_DAMAGE: i32 = 1;

/// Health a cookie gives back.
pub const COOKIE_HEALTH: i32 = 5;

/// Health of the player when a floor starts.
pub const PLAYER_START_HEALTH: i32 = 100;

/// Number of bugs on the first floor.
pub const FIRST_FLOOR_ENEMIES: usize = 5;

/// Number of wall blocks on the first floor.
pub const FIRST_FLOOR_WALLS: usize = 30;

/// Health of a fresh bug.
pub const ENEMY_HEALTH: i32 = 30;

/// Damage figure of a fresh bug.
pub const ENEMY_DAMAGE: i32 = 10;

// ---------------------------------------------------------------- bug contact

/// How many of the first `n` flags are set: the bugs in contact among the
/// first `n` ones.
pub open spec fn contact_count(in_range: Seq<bool>, n: int) -> nat
    decreases n,
{
    if n <= 0 {
        0
    } else {
        contact_count(in_range, n - 1) + if in_range[n - 1] {
            1nat
        } else {
            0nat
        }
    }
}

/// Counting more flags never gives fewer contacts.
pub proof fn lemma_contact_count_monotone(in_range: Seq<bool>, a: int, b: int)
    requires
        0 <= a <= b,
    ensures
        contact_count(in_range, a) <= contact_count(in_range, b),
    decreases b,
{
    if a < b {
        lemma_contact_count_monotone(in_range, a, b - 1);
    }
}

/// No contact is counted among the first `n` bugs exactly when none of them
/// is in range, and never more contacts than bugs.
pub proof fn lemma_contact_count_bounds(in_range: Seq<bool>, n: int)
    requires
        0 <= n <= in_range.len(),
    ensures
        contact_count(in_range, n) <= n,
        contact_count(in_range, n) == 0 <==> forall|i: int| 0 <= i < n ==> !#[trigger] in_range[i],
    decreases n,
{
    if n > 0 {
        lemma_contact_count_bounds(in_range, n - 1);
        if contact_count(in_range, n - 1) != 0 {
            let k = choose|i: int| 0 <= i < n - 1 && #[trigger] in_range[i];
            assert(0 <= k < n && in_range[k]);
        }
    }
}

/// A frame of bug contact only ever lowers the player's health, by at most
/// one point per bug, leaves everything else as it was, and changes nothing
/// at all (and never ends the game) when no bug is in range.
pub proof fn lemma_contact_only_lowers_health(in_range: Seq<bool>, health: int)
    ensures
        health - in_range.len() <= health - contact_count(in_range, in_range.len() as int)
            <= health,
        (forall|i: int| 0 <= i < in_range.len() ==> !#[trigger] in_range[i]) ==> health
            - contact_count(in_range, in_range.len() as int) == health && !(contact_count(
            in_range,
            in_range.len() as int,
        ) > 0),
{
    lemma_contact_count_bounds(in_range, in_range.len() as int);
}

/// The contacts among the first `n` bugs are exactly the set flags among
/// them, counted as a bag, so without regard to their order.
pub proof fn lemma_contact_count_counts_contacts(in_range: Seq<bool>, n: int)
    requires
        0 <= n <= in_range.len(),
    ensures
        contact_count(in_range, n) == in_range.take(n).to_multiset().count(true),
    decreases n,
{
    broadcast use {vstd::seq_lib::group_to_multiset_ensures, vstd::multiset::group_multiset_axioms};

    if n == 0 {
        assert(in_range.take(0) =~= Seq::<bool>::empty());
        assert(Seq::<bool>::empty().to_multiset().len() == 0);
    } else {
        lemma_contact_count_counts_contacts(in_range, n - 1);
        assert(in_range.take(n) =~= in_range.take(n - 1).push(in_range[n - 1]));
    }
}

/// The health a frame of contact takes is the number of bugs in range, and
/// so does not depend on the order in which the bugs are listed.
pub proof fn lemma_contact_loss_ignores_order(a: Seq<bool>, b: Seq<bool>)
    requires
        a.to_multiset() == b.to_multiset(),
    ensures
        contact_count(a, a.len() as int) == a.to_multiset().count(true),
        contact_count(a, a.len() as int) == contact_count(b, b.len() as int),
{
    lemma_contact_count_counts_contacts(a, a.len() as int);
    lemma_contact_count_counts_contacts(b, b.len() as int);
    assert(a.take(a.len() as int) =~= a);
    assert(b.take(b.len() as int) =~= b);
}

/// Every bug counts on its own: bringing one more bug into range, wherever
/// it stands in the list, costs exactly one more health point.
pub proof fn lemma_each_contact_costs_one(in_range: Seq<bool>, i: int, n: int)
    requires
        0 <= i < n <= in_range.len(),
        !in_range[i],
    ensures
        contact_count(in_range.update(i, true), n) == contact_count(in_range, n) + 1,
    decreases n,
{
    if n - 1 > i {
        lemma_each_contact_costs_one(in_range, i, n - 1);
    } else {
        assert(contact_count(in_range.update(i, true), i) == contact_count(in_range, i)) by {
            lemma_prefix_unchanged(in_range, in_range.update(i, true), i);
        }
    }
}

/// Two flag lists that agree on their first `n` entries count the same
/// contacts among them.
pub proof fn lemma_prefix_unchanged(a: Seq<bool>, b: Seq<bool>, n: int)
    requires
        0 <= n <= a.len(),
        n <= b.len(),
        forall|j: int| 0 <= j < n ==> a[j] == b[j],
    ensures
        contact_count(a, n) == contact_count(b, n),
    decreases n,
{
    if n > 0 {
        lemma_prefix_unchanged(a, b, n - 1);
    }
}

/// One frame of bugs attacking the player. `in_range[i]` says whether the
/// `i`-th bug is close enough to touch the player. Each such bug takes one
/// health point; the game is lost (the result is `true`) as soon as a hit
/// leaves the player with no health.
pub fn enemy_attack(player: &mut Player, in_range: &Vec<bool>) -> (game_over: bool)
    requires
        old(player).health - contact_count(in_range@, in_range@.len() as int) >= i32::MIN,
    ensures
        final(player).health == old(player).health - contact_count(
            in_range@,
            in_range@.len() as int,
        ),
        final(player).inventory@ == old(player).inventory@,
        game_over == (contact_count(in_range@, in_range@.len() as int) > 0
            && final(player).health <= 0),
        final(player).health <= old(player).health,
        final(player).health == old(player).health - in_range@.to_multiset().count(true),
        (forall|i: int| 0 <= i < in_range@.len() ==> !#[trigger] in_range@[i])
            ==> (final(player).health == old(player).health && !game_over),
{
    proof {
        lemma_contact_only_lowers_health(in_range@, old(player).health as int);
        lemma_contact_loss_ignores_order(in_range@, in_range@);
    }
    let mut game_over = false;
    let mut i: usize = 0;
    while i < in_range.len()
        invariant
            i <= in_range@.len(),
            player.health == old(player).health - contact_count(in_range@, i as int),
            player.inventory@ == old(player).inventory@,
            old(player).health - contact_count(in_range@, in_range@.len() as int) >= i32::MIN,
            game_over == (contact_count(in_range@, i as int) > 0 && player.health <= 0),
        decreases in_range@.len() - i,
    {
        proof {
            lemma_contact_count_monotone(in_range@, i + 1, in_range@.len() as int);
        }
        if in_range[i] {
            player.health = player.health - CONTACT_DAMAGE;
            if player.health <= 0 {
                game_over = true;
            }
        }
        i = i + 1;
    }
    game_over
}

// ---------------------------------------------------------------- pickups

/// What picking up one item does, beyond the player's health and inventory.
#[derive(Clone, Copy, PartialEq, Eq, Debug)]
pub enum PickupAction {
    /// Not picked up.
    Untouched,
    /// A cookie was eaten; the player's health is now `health_after`. The
    /// cookie stays on the floor and is pushed away.
    EatCookie { health_after: i32 },
    /// A coffee was drunk: the player walks faster, the coffee is gone.
    DrinkCoffee,
    /// A USB key went into the inventory and is gone from the floor.
    TakeKey,
}

/// How many items of `kind` among the first `n` are within reach.
pub open spec fn reached_count(
    items: Seq<ItemKind>,
    in_reach: Seq<bool>,
    kind: ItemKind,
    n: int,
) -> nat
    decreases n,
{
    if n <= 0 {
        0
    } else {
        reached_count(items, in_reach, kind, n - 1) + if in_reach[n - 1] && items[n - 1]
            == kind {
            1nat
        } else {
            0nat
        }
    }
}

/// Counting more items never gives fewer.
pub proof fn lemma_reached_count_monotone(
    items: Seq<ItemKind>,
    in_reach: Seq<bool>,
    kind: ItemKind,
    a: int,
    b: int,
)
    requires
        0 <= a <= b,
    ensures
        reached_count(items, in_reach, kind, a) <= reached_count(items, in_reach, kind, b),
    decreases b,
{
    if a < b {
        lemma_reached_count_monotone(items, in_reach, kind, a, b - 1);
    }
}

/// `count` USB keys.
pub open spec fn keys(count: nat) -> Seq<ItemKind> {
    Seq::new(count, |_i: int| ItemKind::USBKey)
}

/// The action taken on item `i` when the player starts with `health`.
pub open spec fn pickup_action(
    pressed: bool,
    items: Seq<ItemKind>,
    in_reach: Seq<bool>,
    health: int,
    i: int,
) -> PickupAction {
    if !pressed || !in_reach[i] {
        PickupAction::Untouched
    } else {
        match items[i] {
            ItemKind::Cookie => PickupAction::EatCookie {
                health_after: (health + COOKIE_HEALTH * reached_count(
                    items,
                    in_reach,
                    ItemKind::Cookie,
                    i + 1,
                )) as i32,
            },
            ItemKind::Coffee => PickupAction::DrinkCoffee,
            ItemKind::USBKey => PickupAction::TakeKey,
        }
    }
}

/// The items of `kind` within reach among the first `n` are exactly those
/// whose flag is set in the list "within reach and of this kind", counted
/// as a bag.
pub proof fn lemma_reached_count_counts(
    items: Seq<ItemKind>,
    in_reach: Seq<bool>,
    kind: ItemKind,
    n: int,
)
    requires
        0 <= n,
    ensures
        reached_count(items, in_reach, kind, n) == Seq::new(
            n as nat,
            |j: int| in_reach[j] && items[j] == kind,
        ).to_multiset().count(true),
    decreases n,
{
    broadcast use {vstd::seq_lib::group_to_multiset_ensures, vstd::multiset::group_multiset_axioms};

    let f = |j: int| in_reach[j] && items[j] == kind;
    if n == 0 {
        assert(Seq::new(0, f).to_multiset().len() == 0);
    } else {
        lemma_reached_count_counts(items, in_reach, kind, n - 1);
        assert(Seq::new(n as nat, f) =~= Seq::new((n - 1) as nat, f).push(f(n - 1)));
    }
}

/// What pressing the key does to one item: nothing to an item out of reach
/// or when the key is not pressed, whatever its kind; otherwise a coffee is
/// drunk, a key is taken, and a cookie is eaten, reporting the starting
/// health plus five points for every cookie within reach up to and
/// including this one.
pub proof fn lemma_pickup_action_law(
    pressed: bool,
    items: Seq<ItemKind>,
    in_reach: Seq<bool>,
    health: int,
    i: int,
)
    requires
        0 <= i < items.len(),
        items.len() == in_reach.len(),
    ensures
        (pickup_action(pressed, items, in_reach, health, i) == PickupAction::Untouched) == !(
        pressed && in_reach[i]),
        pressed && in_reach[i] && items[i] == ItemKind::Coffee ==> pickup_action(
            pressed,
            items,
            in_reach,
            health,
            i,
        ) == PickupAction::DrinkCoffee,
        pressed && in_reach[i] && items[i] == ItemKind::USBKey ==> pickup_action(
            pressed,
            items,
            in_reach,
            health,
            i,
        ) == PickupAction::TakeKey,
        pressed && in_reach[i] && items[i] == ItemKind::Cookie ==> pickup_action(
            pressed,
            items,
            in_reach,
            health,
            i,
        ) == (PickupAction::EatCookie {
            health_after: (health + 5 * Seq::new(
                (i + 1) as nat,
                |j: int| in_reach[j] && items[j] == ItemKind::Cookie,
            ).to_multiset().count(true)) as i32,
        }),
{
    lemma_reached_count_counts(items, in_reach, ItemKind::Cookie, i + 1);
}

/// The player presses the pick-up key (`pressed`) with items around;
/// `in_reach[i]` says whether `items[i]` is close enough. Nothing happens
/// unless the key was pressed. Otherwise each item within reach is picked up
/// in turn: a cookie gives five health points, a USB key goes to the end of
/// the inventory, and the action on each item is returned.
pub fn pickup_items(
    player: &mut Player,
    pressed: bool,
    items: &Vec<ItemKind>,
    in_reach: &Vec<bool>,
) -> (actions: Vec<PickupAction>)
    requires
        items@.len() == in_reach@.len(),
        pressed ==> old(player).health + COOKIE_HEALTH * reached_count(
            items@,
            in_reach@,
            ItemKind::Cookie,
            items@.len() as int,
        ) <= i32::MAX,
    ensures
        actions@.len() == items@.len(),
        forall|i: int|
            0 <= i < items@.len() ==> #[trigger] actions@[i] == pickup_action(
                pressed,
                items@,
                in_reach@,
                old(player).health as int,
                i,
            ),
        pressed ==> final(player).health == old(player).health + COOKIE_HEALTH * reached_count(
            items@,
            in_reach@,
            ItemKind::Cookie,
            items@.len() as int,
        ),
        pressed ==> final(player).inventory@ == old(player).inventory@ + keys(
            reached_count(items@, in_reach@, ItemKind::USBKey, items@.len() as int),
        ),
        !pressed ==> final(player).health == old(player).health,
        !pressed ==> final(player).inventory@ == old(player).inventory@,
        forall|i: int|
            0 <= i < items@.len() ==> (#[trigger] actions@[i] == PickupAction::Untouched) == !(
            pressed && in_reach@[i]),
        pressed ==> final(player).health == old(player).health + 5 * Seq::new(
            items@.len(),
            |j: int| in_reach@[j] && items@[j] == ItemKind::Cookie,
        ).to_multiset().count(true),
        pressed ==> final(player).inventory@ == old(player).inventory@ + Seq::new(
            Seq::new(items@.len(), |j: int| in_reach@[j] && items@[j] == ItemKind::USBKey)
                .to_multiset().count(true),
            |_j: int| ItemKind::USBKey,
        ),
{
    let ghost start = old(player).health as int;
    let ghost start_inventory = old(player).inventory@;
    let ghost len = items@.len() as int;
    let mut actions: Vec<PickupAction> = Vec::new();
    let mut i: usize = 0;
    while i < items.len()
        invariant
            items@.len() == in_reach@.len(),
            len == items@.len(),
            start == old(player).health,
            start_inventory == old(player).inventory@,
            pressed ==> start + COOKIE_HEALTH * reached_count(
                items@,
                in_reach@,
                ItemKind::Cookie,
                len,
            ) <= i32::MAX,
            i <= len,
            actions@.len() == i,
            forall|j: int|
                0 <= j < i ==> #[trigger] actions@[j] == pickup_action(
                    pressed,
                    items@,
                    in_reach@,
                    start,
                    j,
                ),
            pressed ==> player.health == start + COOKIE_HEALTH * reached_count(
                items@,
                in_reach@,
                ItemKind::Cookie,
                i as int,
            ),
            pressed ==> player.inventory@ == start_inventory + keys(
                reached_count(items@, in_reach@, ItemKind::USBKey, i as int),
            ),
            !pressed ==> player.health == start,
            !pressed ==> player.inventory@ == start_inventory,
        decreases len - i,
    {
        proof {
            lemma_reached_count_monotone(items@, in_reach@, ItemKind::Cookie, i + 1, len);
        }
        if pressed && in_reach[i] {
            match items[i] {
                ItemKind::Cookie => {
                    player.health = player.health + COOKIE_HEALTH;
                    actions.push(PickupAction::EatCookie { health_after: player.health });
                },
                ItemKind::Coffee => {
                    actions.push(PickupAction::DrinkCoffee);
                },
                ItemKind::USBKey => {
                    player.inventory.push(ItemKind::USBKey);
                    proof {
                        let c = reached_count(items@, in_reach@, ItemKind::USBKey, i as int);
                        assert(keys(c).push(ItemKind::USBKey) =~= keys(c + 1));
                        assert((start_inventory + keys(c)).push(ItemKind::USBKey)
                            =~= start_inventory + keys(c).push(ItemKind::USBKey));
                    }
                    actions.push(PickupAction::TakeKey);
                },
            }
        } else {
            actions.push(PickupAction::Untouched);
        }
        i = i + 1;
    }
    proof {
        assert forall|k: int| 0 <= k < items@.len() implies (#[trigger] actions@[k]
            == PickupAction::Untouched) == !(pressed && in_reach@[k]) by {
            lemma_pickup_action_law(pressed, items@, in_reach@, start, k);
        }
        lemma_reached_count_counts(items@, in_reach@, ItemKind::Cookie, len);
        lemma_reached_count_counts(items@, in_reach@, ItemKind::USBKey, len);
    }
    actions
}

// ---------------------------------------------------------------- talking

/// What a person says when spoken to: their role, a colon, and their first
/// line.
pub open spec fn npc_line(npc: Npc) -> Seq<char> {
    npc_role_name(npc.role) + ": "@ + npc.dialog@[0]@
}

/// The lines said by the people within reach among the first `n`, in order.
pub open spec fn talk_lines(npcs: Seq<Npc>, in_reach: Seq<bool>, n: int) -> Seq<Seq<char>>
    decreases n,
{
    if n <= 0 {
        seq![]
    } else if in_reach[n - 1] {
        talk_lines(npcs, in_reach, n - 1).push(npc_line(npcs[n - 1]))
    } else {
        talk_lines(npcs, in_reach, n - 1)
    }
}

/// The lines said by the first `n` people: one per person within reach, and
/// the person at `i`, when within reach, says their role, a colon and their
/// first line at the position given by the number of people within reach
/// before them.
pub proof fn lemma_talk_lines_shape(npcs: Seq<Npc>, in_reach: Seq<bool>, n: int)
    requires
        0 <= n <= in_reach.len(),
        npcs.len() == in_reach.len(),
    ensures
        talk_lines(npcs, in_reach, n).len() == contact_count(in_reach, n),
        forall|i: int|
            #![trigger in_reach[i]]
            0 <= i < n && in_reach[i] ==> talk_lines(npcs, in_reach, n)[contact_count(
                in_reach,
                i,
            ) as int] == npc_role_name(npcs[i].role) + ": "@ + npcs[i].dialog@[0]@,
    decreases n,
{
    if n > 0 {
        lemma_talk_lines_shape(npcs, in_reach, n - 1);
        let prev = talk_lines(npcs, in_reach, n - 1);
        assert forall|i: int|
            #![trigger in_reach[i]]
            0 <= i < n && in_reach[i] implies talk_lines(npcs, in_reach, n)[contact_count(
                in_reach,
                i,
            ) as int] == npc_role_name(npcs[i].role) + ": "@ + npcs[i].dialog@[0]@ by {
            if i < n - 1 {
                lemma_contact_count_monotone(in_reach, i + 1, n - 1);
                assert(contact_count(in_reach, i + 1) == contact_count(in_reach, i) + 1);
            }
        }
    }
}

/// When the talk key is pressed, exactly the people within reach speak, one
/// line each and in the order they are listed: as many lines as people in
/// reach, and the line of each such person is their role, a colon and their
/// first line, placed after the lines of the people in reach before them.
pub proof fn lemma_talk_one_line_per_person_in_reach(npcs: Seq<Npc>, in_reach: Seq<bool>)
    requires
        npcs.len() == in_reach.len(),
    ensures
        talk_lines(npcs, in_reach, in_reach.len() as int).len() == in_reach.to_multiset().count(
            true,
        ),
        forall|i: int|
            #![trigger in_reach[i]]
            0 <= i < in_reach.len() && in_reach[i] ==> talk_lines(
                npcs,
                in_reach,
                in_reach.len() as int,
            )[in_reach.take(i).to_multiset().count(true) as int] == npc_role_name(npcs[i].role)
                + ": "@ + npcs[i].dialog@[0]@,
{
    lemma_talk_lines_shape(npcs, in_reach, in_reach.len() as int);
    lemma_contact_loss_ignores_order(in_reach, in_reach);
    assert forall|i: int|
        #![trigger in_reach[i]]
        0 <= i < in_reach.len() && in_reach[i] implies contact_count(in_reach, i)
        == in_reach.take(i).to_multiset().count(true) by {
        lemma_contact_count_counts_contacts(in_reach, i);
    }
}

/// The player presses the talk key (`pressed`); `in_reach[i]` says whether
/// `npcs[i]` stands close enough. Every person within reach says their first
/// line; nothing is said unless the key was pressed.
pub fn interact_with_npc(pressed: bool, npcs: &Vec<Npc>, in_reach: &Vec<bool>) -> (lines: Vec<
    String,
>)
    requires
        npcs@.len() == in_reach@.len(),
        pressed ==> forall|i: int|
            0 <= i < npcs@.len() && #[trigger] in_reach@[i] ==> npcs@[i].dialog@.len() > 0,
    ensures
        pressed ==> lines@.map_values(|s: String| s@) == talk_lines(
            npcs@,
            in_reach@,
            npcs@.len() as int,
        ),
        !pressed ==> lines@.len() == 0,
        pressed ==> lines@.len() == in_reach@.to_multiset().count(true),
        pressed ==> forall|i: int|
            #![trigger in_reach@[i]]
            0 <= i < in_reach@.len() && in_reach@[i] ==> lines@[in_reach@.take(
                i,
            ).to_multiset().count(true) as int]@ == npc_role_name(npcs@[i].role) + ": "@
                + npcs@[i].dialog@[0]@,
{
    let mut lines: Vec<String> = Vec::new();
    if !pressed {
        return lines;
    }
    let mut i: usize = 0;
    while i < npcs.len()
        invariant
            npcs@.len() == in_reach@.len(),
            forall|k: int|
                0 <= k < npcs@.len() && #[trigger] in_reach@[k] ==> npcs@[k].dialog@.len() > 0,
            i <= npcs@.len(),
            lines@.map_values(|s: String| s@) == talk_lines(npcs@, in_reach@, i as int),
        decreases npcs@.len() - i,
    {
        if in_reach[i] {
            let npc = &npcs[i];
            let mut line = String::from_str(npc.role.name());
            line.append(": ");
            line.append(npc.dialog[0].as_str());
            let ghost before = lines@;
            lines.push(line);
            proof {
                assert(lines@.map_values(|s: String| s@) =~= before.map_values(|s: String| s@).push(
                    npc_line(npcs@[i as int]),
                ));
            }
        }
        i = i + 1;
    }
    proof {
        lemma_talk_one_line_per_person_in_reach(npcs@, in_reach@);
        let spoken = lines@.map_values(|s: String| s@);
        assert(spoken.len() == lines@.len());
        assert forall|i: int|
            #![trigger in_reach@[i]]
            0 <= i < in_reach@.len() && in_reach@[i] implies lines@[in_reach@.take(
                i,
            ).to_multiset().count(true) as int]@ == npc_role_name(npcs@[i].role) + ": "@
                + npcs@[i].dialog@[0]@ by {
            let k = in_reach@.take(i).to_multiset().count(true) as int;
            lemma_contact_count_counts_contacts(in_reach@, i);
            lemma_contact_count_monotone(in_reach@, i + 1, in_reach@.len() as int);
            lemma_contact_loss_ignores_order(in_reach@, in_reach@);
            assert(0 <= k < spoken.len());
            assert(spoken[k] == lines@[k]@);
        }
    }
    lines
}

// ---------------------------------------------------------------- walking

/// Which movement keys are held: WASD and the arrow keys.
#[derive(Clone, Copy, PartialEq, Eq, Debug)]
pub struct MoveKeys {
    pub w: bool,
    pub a: bool,
    pub s: bool,
    pub d: bool,
    pub up: bool,
    pub left: bool,
    pub down: bool,
    pub right: bool,
}

/// A step direction on the floor grid, before it is scaled to unit length:
/// each part is -1, 0 or 1; negative `z` is forward (away from the camera).
#[derive(Clone, Copy, PartialEq, Eq, Debug)]
pub struct StepDirection {
    pub x: i8,
    pub z: i8,
}

/// 1 when `b` holds, else 0.
pub open spec fn flag(b: bool) -> int {
    if b {
        1
    } else {
        0
    }
}

/// The direction that the held keys ask for: W or Up goes forward, S or Down
/// back, A or Left to the left, D or Right to the right.
pub open spec fn spec_input_direction(keys: MoveKeys) -> StepDirection {
    StepDirection {
        x: (flag(keys.d || keys.right) - flag(keys.a || keys.left)) as i8,
        z: (flag(keys.s || keys.down) - flag(keys.w || keys.up)) as i8,
    }
}

/// Each part of a step is -1, 0 or 1, and keys held for opposite ways cancel
/// out: holding both leaves that part at 0, as does holding neither.
pub proof fn lemma_opposite_keys_cancel(keys: MoveKeys)
    ensures
        -1 <= spec_input_direction(keys).x <= 1,
        -1 <= spec_input_direction(keys).z <= 1,
        (keys.w || keys.up) == (keys.s || keys.down) ==> spec_input_direction(keys).z == 0,
        (keys.a || keys.left) == (keys.d || keys.right) ==> spec_input_direction(keys).x == 0,
{
}

/// An arrow key moves the same way as its letter: the direction depends only
/// on which ways are asked for, not on which of the two keys asks.
pub proof fn lemma_arrows_match_letters(keys: MoveKeys)
    ensures
        spec_input_direction(keys) == spec_input_direction(
            MoveKeys {
                w: keys.w || keys.up,
                a: keys.a || keys.left,
                s: keys.s || keys.down,
                d: keys.d || keys.right,
                up: false,
                left: false,
                down: false,
                right: false,
            },
        ),
{
}

/// The direction that the held keys ask for; opposite keys cancel out.
pub fn input_direction(keys: MoveKeys) -> (dir: StepDirection)
    ensures
        dir == spec_input_direction(keys),
        dir.x == flag(keys.d || keys.right) - flag(keys.a || keys.left),
        dir.z == flag(keys.s || keys.down) - flag(keys.w || keys.up),
{
    let mut x: i8 = 0;
    let mut z: i8 = 0;
    if keys.w || keys.up {
        z = z - 1;
    }
    if keys.s || keys.down {
        z = z + 1;
    }
    if keys.a || keys.left {
        x = x - 1;
    }
    if keys.d || keys.right {
        x = x + 1;
    }
    StepDirection { x, z }
}

// ---------------------------------------------------------------- the first floor

/// The kind of the `i`-th bug spawned on a floor: the three kinds in turn.
pub open spec fn spawn_bug_type(i: int) -> BugType {
    if i % 3 == 0 {
        BugType::NullPointer
    } else if i % 3 == 1 {
        BugType::MemoryLeak
    } else {
        BugType::RaceCondition
    }
}

/// The kind of the `i`-th bug spawned on a floor.
pub fn bug_type_for_spawn(i: usize) -> (t: BugType)
    ensures
        t == spawn_bug_type(i as int),
{
    let r = i % 3;
    if r == 0 {
        BugType::NullPointer
    } else if r == 1 {
        BugType::MemoryLeak
    } else {
        BugType::RaceCondition
    }
}

/// What the sysadmin says.
pub open spec fn sysadmin_line() -> Seq<char> {
    "Ну и бардак... Серверная в подвале, ключ USB-шный потерял."@
}

/// What the tester says.
pub open spec fn tester_line() -> Seq<char> {
    "Каждый баг — это фича, если документацию правильно написать."@
}

/// Everything that is put on the first floor, apart from where it stands.
pub struct FloorPlan {
    pub player: Player,
    pub enemies: Vec<Enemy>,
    pub items: Vec<Item>,
    pub npcs: Vec<Npc>,
    pub walls: usize,
}

/// Fills the first floor: a healthy player with empty pockets, five bugs of
/// the three kinds in turn, a cookie and a coffee, the sysadmin and the
/// tester with one line each, and thirty wall blocks.
pub fn spawn_first_floor() -> (plan: FloorPlan)
    ensures
        plan.player.health == PLAYER_START_HEALTH,
        plan.player.inventory@.len() == 0,
        plan.enemies@.len() == FIRST_FLOOR_ENEMIES,
        forall|i: int|
            0 <= i < FIRST_FLOOR_ENEMIES ==> #[trigger] plan.enemies@[i] == (Enemy {
                bug_type: spawn_bug_type(i),
                health: ENEMY_HEALTH,
                damage: ENEMY_DAMAGE,
            }),
        plan.items@ == seq![Item { kind: ItemKind::Cookie }, Item { kind: ItemKind::Coffee }],
        plan.npcs@.len() == 2,
        plan.npcs@[0].role == NpcRole::Sysadmin,
        plan.npcs@[0].dialog@.len() == 1,
        plan.npcs@[0].dialog@[0]@ == sysadmin_line(),
        !plan.npcs@[0].recruited,
        plan.npcs@[1].role == NpcRole::Tester,
        plan.npcs@[1].dialog@.len() == 1,
        plan.npcs@[1].dialog@[0]@ == tester_line(),
        !plan.npcs@[1].recruited,
        plan.walls == FIRST_FLOOR_WALLS,
{
    let player = Player { health: PLAYER_START_HEALTH, inventory: Vec::new() };
    let mut enemies: Vec<Enemy> = Vec::new();
    let mut i: usize = 0;
    while i < FIRST_FLOOR_ENEMIES
        invariant
            i <= FIRST_FLOOR_ENEMIES,
            enemies@.len() == i,
            forall|j: int|
                0 <= j < i ==> #[trigger] enemies@[j] == (Enemy {
                    bug_type: spawn_bug_type(j),
                    health: ENEMY_HEALTH,
                    damage: ENEMY_DAMAGE,
                }),
        decreases FIRST_FLOOR_ENEMIES - i,
    {
        enemies.push(
            Enemy { bug_type: bug_type_for_spawn(i), health: ENEMY_HEALTH, damage: ENEMY_DAMAGE },
        );
        i = i + 1;
    }
    let mut items: Vec<Item> = Vec::new();
    items.push(Item { kind: ItemKind::Cookie });
    items.push(Item { kind: ItemKind::Coffee });
    let mut sysadmin_dialog: Vec<String> = Vec::new();
    sysadmin_dialog.push(
        String::from_str("Ну и бардак... Серверная в подвале, ключ USB-шный потерял."),
    );
    let mut tester_dialog: Vec<String> = Vec::new();
    tester_dialog.push(
        String::from_str("Каждый баг — это фича, если документацию правильно написать."),
    );
    let mut npcs: Vec<Npc> = Vec::new();
    npcs.push(Npc { role: NpcRole::Sysadmin, dialog: sysadmin_dialog, recruited: false });
    npcs.push(Npc { role: NpcRole::Tester, dialog: tester_dialog, recruited: false });
    proof {
        assert(items@ =~= seq![Item { kind: ItemKind::Cookie }, Item { kind: ItemKind::Coffee }]);
    }
    FloorPlan { player, enemies, items, npcs, walls: FIRST_FLOOR_WALLS }
}

} // verus!
