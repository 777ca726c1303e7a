//! The heads-up display at the bottom of the screen: health, speed and the
//! inventory, and the messages printed when something is picked up.
use vstd::prelude::*;

use crate::components::{ItemKind, Player, item_kind_name};
use crate::text::{integer_chars, integer_to_text, lemma_integer_chars_read_back, parse_integer};

verus! {

/// Marks the bar that holds the display.
#[derive(Clone, Copy, PartialEq, Eq, Debug)]
pub struct HudRoot;

/// Marks the health label.
#[derive(Clone, Copy, PartialEq, Eq, Debug)]
pub struct HealthText;

/// Marks the speed label.
#[derive(Clone, Copy, PartialEq, Eq, Debug)]
pub struct SpeedText;

/// Marks the inventory label.
#[derive(Clone, Copy, PartialEq, Eq, Debug)]
pub struct InventoryText;

/// The health label: `Health: ` and the number.
pub open spec fn health_label(health: int) -> Seq<char> {
    "Health: "@ + integer_chars(health)
}

/// The names of the items, separated by a comma and a space.
pub open spec fn inventory_names(inventory: Seq<ItemKind>) -> Seq<char>
    decreases inventory.len(),
{
    if inventory.len() == 0 {
        seq![]
    } else if inventory.len() == 1 {
        item_kind_name(inventory[0])
    } else {
        inventory_names(inventory.drop_last()) + ", "@ + item_kind_name(inventory.last())
    }
}

/// The inventory label: `Inventory: ` and then `empty`, or the names of
/// what the player carries.
pub open spec fn inventory_label(inventory: Seq<ItemKind>) -> Seq<char> {
    "Inventory: "@ + if inventory.len() == 0 {
        "empty"@
    } else {
        inventory_names(inventory)
    }
}

/// The message printed when a cookie is eaten, with the health after it.
pub open spec fn cookie_message_chars(health: int) -> Seq<char> {
    "+5 здоровья (текущее: "@ + integer_chars(health) + ")"@
}

/// The message printed when a USB key is picked up.
pub open spec fn key_message_chars() -> Seq<char> {
    "USB-ключ подобран!"@
}

/// The health label shows the health itself: after the eight characters of
/// `Health: ` comes text that reads back as exactly the player's health, for
/// every health value.
pub proof fn lemma_health_label_shows_health(health: int)
    ensures
        health_label(health).take(8) == "Health: "@,
        parse_integer(health_label(health).skip(8)) == health,
{
    reveal_strlit("Health: ");
    let label = health_label(health);
    assert(label.take(8) =~= "Health: "@);
    assert(label.skip(8) =~= integer_chars(health));
    lemma_integer_chars_read_back(health);
}

/// One item is listed by its name alone.
pub proof fn lemma_inventory_names_single(kind: ItemKind)
    ensures
        inventory_names(seq![kind]) == item_kind_name(kind),
{
}

/// Carrying one more item lists one more name, after a comma and a space,
/// whatever the items before it are.
pub proof fn lemma_inventory_names_push(inventory: Seq<ItemKind>, kind: ItemKind)
    requires
        inventory.len() > 0,
    ensures
        inventory_names(inventory.push(kind)) == inventory_names(inventory) + ", "@
            + item_kind_name(kind),
{
    assert(inventory.push(kind).drop_last() =~= inventory);
}

/// The list of two inventories carried one after the other is the list of
/// the first, a comma and a space, and the list of the second: every item
/// is named once, in order, and nothing is merged or left out.
pub proof fn lemma_inventory_names_concat(a: Seq<ItemKind>, b: Seq<ItemKind>)
    requires
        a.len() > 0,
        b.len() > 0,
    ensures
        inventory_names(a + b) == inventory_names(a) + ", "@ + inventory_names(b),
    decreases b.len(),
{
    if b.len() == 1 {
        assert(a + b =~= a.push(b[0]));
        lemma_inventory_names_push(a, b[0]);
    } else {
        let rest = b.drop_last();
        lemma_inventory_names_concat(a, rest);
        assert(a + b =~= (a + rest).push(b.last()));
        lemma_inventory_names_push(a + rest, b.last());
        assert(b =~= rest.push(b.last()));
        lemma_inventory_names_push(rest, b.last());
        assert(inventory_names(a + b) =~= inventory_names(a) + ", "@ + inventory_names(b));
    }
}

/// The labels of the display that say health and inventory.
pub struct HudText {
    pub health: String,
    pub inventory: String,
}

/// The health label.
pub fn health_text(health: i32) -> (s: String)
    ensures
        s@ == health_label(health as int),
        s@.take(8) == "Health: "@,
        parse_integer(s@.skip(8)) == health,
{
    proof {
        lemma_health_label_shows_health(health as int);
    }
    let mut s = String::from_str("Health: ");
    let number = integer_to_text(health);
    s.append(number.as_str());
    s
}

/// The inventory label.
pub fn inventory_text(inventory: &Vec<ItemKind>) -> (s: String)
    ensures
        s@ == inventory_label(inventory@),
{
    let mut s = String::from_str("Inventory: ");
    if inventory.len() == 0 {
        s.append("empty");
        return s;
    }
    let mut names = String::from_str(inventory[0].name());
    let mut i: usize = 1;
    proof {
        assert(inventory@.take(1).drop_last() =~= inventory@.take(0));
    }
    while i < inventory.len()
        invariant
            1 <= i <= inventory@.len(),
            names@ == inventory_names(inventory@.take(i as int)),
        decreases inventory@.len() - i,
    {
        names.append(", ");
        names.append(inventory[i].name());
        proof {
            let next = inventory@.take(i + 1);
            assert(next.drop_last() =~= inventory@.take(i as int));
            assert(next.last() == inventory@[i as int]);
        }
        i = i + 1;
    }
    proof {
        assert(inventory@.take(inventory@.len() as int) =~= inventory@);
    }
    s.append(names.as_str());
    s
}

/// The message printed when a cookie is eaten.
pub fn cookie_message(health_after: i32) -> (s: String)
    ensures
        s@ == cookie_message_chars(health_after as int),
{
    let mut s = String::from_str("+5 здоровья (текущее: ");
    let number = integer_to_text(health_after);
    s.append(number.as_str());
    s.append(")");
    s
}

/// The message printed when a USB key is picked up.
pub fn key_message() -> (s: String)
    ensures
        s@ == key_message_chars(),
{
    String::from_str("USB-ключ подобран!")
}

/// The labels that the display shows for the player's health and inventory.
pub fn update_hud(player: &Player) -> (hud: HudText)
    ensures
        hud.health@ == health_label(player.health as int),
        hud.inventory@ == inventory_label(player.inventory@),
{
    HudText { health: health_text(player.health), inventory: inventory_text(&player.inventory) }
}

} // verus!
