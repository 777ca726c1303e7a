//! The rules of a small survival game in a derelict office: health drained
//! by bugs, items that are picked up, people to talk to, the heads-up
//! display and the screens the game moves through.
pub mod components;
pub mod hud;
pub mod states;
pub mod systems;
pub mod text;

pub use components::{BugType, Enemy, Item, ItemKind, MainCamera, Npc, NpcRole, Player};
pub use hud::{
    cookie_message, health_text, inventory_text, key_message, update_hud, HealthText, HudRoot,
    HudText, InventoryText, SpeedText,
};
pub use states::{AppState, GameEvent};
pub use systems::{
    bug_type_for_spawn, enemy_attack, input_direction, interact_with_npc, pickup_items,
    spawn_first_floor, FloorPlan, MoveKeys, PickupAction, StepDirection,
};
pub use text::{integer_to_text, natural_to_text};
