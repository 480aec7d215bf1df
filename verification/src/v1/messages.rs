//! Messages of the first protocol version, as plain values.

use vstd::prelude::*;

verus! {

/// Something that a game offers to do.
#[derive(Clone, Debug, PartialEq)]
pub struct Action {
    pub name: String,
    pub description: String,
    pub schema: String,
}

/// What a game says.
#[derive(Clone, Debug, PartialEq)]
pub enum GameCommand {
    Hello,
    Context { message: String, silent: bool },
    ActionsRegister { actions: Vec<Action> },
    ActionsUnregister { action_names: Vec<String> },
    ActionsForce(ActionsForceMsg),
    ActionResult { id: String, success: bool, message: Option<String> },
    ShutdownReady,
}

/// Request of a game that one of the named actions be taken now.
#[derive(Clone, Debug, PartialEq)]
pub struct ActionsForceMsg {
    pub state: Option<String>,
    pub query: String,
    pub ephemeral_context: Option<bool>,
    pub action_names: Vec<String>,
}

/// What is said to a game.
#[derive(Clone, Debug, PartialEq)]
pub enum NeuroCommand {
    Action(ActionMsg),
    ActionsReregisterall,
    ShutdownGraceful { wants_shutdown: bool },
    ShutdownImmediate,
}

/// Order to a game to take an action.
#[derive(Clone, Debug, PartialEq)]
pub struct ActionMsg {
    pub id: String,
    pub name: String,
    pub data: Option<String>,
}

/// A command of a game, with the name of the game.
#[derive(Clone, Debug, PartialEq)]
pub struct GameMessage {
    pub command: GameCommand,
    pub game: String,
}

/// A command for a game.
#[derive(Clone, Debug, PartialEq)]
pub struct NeuroMessage {
    pub command: NeuroCommand,
}

} // verus!
