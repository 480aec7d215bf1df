//! A game of the first protocol version.

use std::collections::{BTreeMap, BTreeSet};
use vstd::prelude::*;
use crate::v1::messages::{Action, ActionsForceMsg};

verus! {

/// A game and what is known of its actions. `C` is the game's connection.
#[derive(Debug, PartialEq)]
pub struct Game<C> {
    name: String,
    connection: Option<C>,
    actions: BTreeMap<String, Action>,
    seen_actions: BTreeSet<String>,
    pending_actions: Vec<Action>,
    v1_pending_forces: Vec<ActionsForceMsg>,
}

impl<C> Game<C> {
    /// The name of the game.
    pub closed spec fn name_spec(&self) -> Seq<char> {
        self.name@
    }

    /// The connection of the game.
    pub closed spec fn connection_spec(&self) -> Option<C> {
        self.connection
    }

    /// Whether nothing is known yet of the game's actions.
    pub closed spec fn is_blank(&self) -> bool {
        &&& self.actions@ == Map::<String, Action>::empty()
        &&& self.seen_actions@ == Set::<String>::empty()
        &&& self.pending_actions@ == Seq::<Action>::empty()
        &&& self.v1_pending_forces@ == Seq::<ActionsForceMsg>::empty()
    }

    /// A game of which only the name and the connection are known.
    pub fn new(name: String, connection: Option<C>) -> (game: Self)
        ensures
            game.name_spec() == name@,
            game.connection_spec() == connection,
            game.is_blank(),
    {
        Game {
            name,
            connection,
            actions: BTreeMap::new(),
            seen_actions: BTreeSet::new(),
            pending_actions: Vec::new(),
            v1_pending_forces: Vec::new(),
        }
    }

    pub fn register_actions(actions: &[Action]) {
    }

    pub fn unregister_actions(action_names: &[&str]) {
    }

    /// The name of the game.
    pub fn name(&self) -> (name: Option<&str>)
        ensures
            name.deep_view() == Some(self.name_spec()),
    {
        Some(self.name.as_str())
    }
}

} // verus!
