use vstd::prelude::*;

verus! {

/// Which hand a VR controller is held in.
#[derive(Debug, Clone, Copy, PartialEq, Eq, Structural)]
pub enum HandSide {
    Left,
    Right,
}

/// What a hand is holding.
#[derive(Debug, Clone, PartialEq, Eq)]
pub enum HeldObject {
    CablePlug { cable_id: String, plug_id: String },
    Cartridge { cartridge_id: String },
    Disc { disc_id: String },
    Controller { controller_id: String },
}

/// The grip state of one hand.
#[derive(Debug, Clone, PartialEq, Eq)]
pub struct HandInteractionState {
    pub held_object: Option<HeldObject>,
    pub grip_latched: bool,
}

impl Default for HandInteractionState {
    /// An empty hand with the grip released.
    fn default() -> (r: Self)
        ensures
            r.held_object is None,
            !r.grip_latched,
    {
        HandInteractionState { held_object: None, grip_latched: false }
    }
}

/// Both hands, and the retro controller that the player is playing with.
#[derive(Debug, Clone, PartialEq, Eq)]
pub struct VrInteractionManager {
    pub left_hand: HandInteractionState,
    pub right_hand: HandInteractionState,
    pub active_gameplay_controller: Option<String>,
}

impl VrInteractionManager {
    /// Empty hands and no controller in play.
    pub fn new() -> (r: Self)
        ensures
            r.left_hand.held_object is None,
            !r.left_hand.grip_latched,
            r.right_hand.held_object is None,
            !r.right_hand.grip_latched,
            r.active_gameplay_controller is None,
    {
        VrInteractionManager {
            left_hand: HandInteractionState::default(),
            right_hand: HandInteractionState::default(),
            active_gameplay_controller: None,
        }
    }
}

impl Default for VrInteractionManager {
    fn default() -> (r: Self)
        ensures
            r.left_hand.held_object is None,
            !r.left_hand.grip_latched,
            r.right_hand.held_object is None,
            !r.right_hand.grip_latched,
            r.active_gameplay_controller is None,
    {
        Self::new()
    }
}

} // verus!
