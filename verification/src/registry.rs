//! The games that are connected, by protocol version.

use std::collections::BTreeMap;
use vstd::prelude::*;
use vstd::string::*;
use crate::api::{ApiVersion, ApiVersionView};
use crate::v1::messages::GameMessage;
use crate::v1::ws::ClientWSConnection;

verus! {

/// Error for a game that connected and did not say its name.
pub const NO_FIRST_MESSAGE: &'static str = "buh";

/// A connected game.
#[non_exhaustive]
#[derive(Debug, PartialEq)]
pub enum Game<W> {
    V1(crate::v1::game::Game<ClientWSConnection<W>>),
}

impl<W> Game<W> {
    /// The name of the game.
    pub fn name(&self) -> (name: Option<&str>)
        ensures
            match *self {
                Game::V1(game) => name.deep_view() == Some(game.name_spec()),
            },
    {
        match self {
            Game::V1(v1_game) => v1_game.name(),
        }
    }
}

/// The games that are connected.
#[derive(Debug)]
pub struct Registry<W> {
    games: BTreeMap<String, Game<W>>,
    llm: (),
}

/// The text that a string is shown as for debugging: quoted, with its
/// special characters escaped.
pub uninterp spec fn debug_text(text: Seq<char>) -> Seq<char>;

/// Formats a string with its `Debug` impl, the way `{:?}` does.
#[verifier::external_body]
fn debug_format(text: &String) -> (shown: String)
    ensures
        shown@ == debug_text(text@),
{
    format!("{:?}", text)
}

/// The error for a connection of a version that no game can have, given the
/// debugging text of the game's name.
pub open spec fn unhandled_version(version: ApiVersionView, shown: Seq<char>) -> Seq<char> {
    match version {
        ApiVersionView::V1 => "Unhandled version V1"@,
        ApiVersionView::V2(_) => "Unhandled version V2("@ + shown + ")"@,
    }
}

/// What connecting leads to: in the first version, a game under the name
/// that its first message gives, or an error where no such message came;
/// in any other version, an error.
pub open spec fn connected<W>(
    socket: W,
    version: ApiVersionView,
    first_msg: Option<GameMessage>,
    shown: Seq<char>,
    outcome: Result<Game<W>, String>,
) -> bool {
    match (version, first_msg) {
        (ApiVersionView::V1, Some(msg)) => {
            &&& outcome matches Ok(Game::V1(game))
            &&& game.name_spec() == msg.game@
            &&& game.connection_spec() is Some
            &&& game.connection_spec()->0.socket() == socket
            &&& game.is_blank()
        },
        (ApiVersionView::V1, None) => outcome matches Err(e) && e@ == NO_FIRST_MESSAGE@,
        (ApiVersionView::V2(_), _) => outcome matches Err(e) && e@ == unhandled_version(
            version,
            shown,
        ),
    }
}

impl<W> Registry<W> {
    /// Whether no game is connected.
    pub closed spec fn is_empty(&self) -> bool {
        self.games@ == Map::<String, Game<W>>::empty()
    }

    /// A registry without games.
    pub fn new() -> (registry: Self)
        ensures
            registry.is_empty(),
    {
        Registry { games: BTreeMap::new(), llm: () }
    }

    /// Makes the game of a new connection, given the debugging text of the
    /// name in `version`.
    pub fn connect_with(socket: W, version: ApiVersion, first_msg: Option<GameMessage>, shown: &str) -> (outcome:
        Result<Game<W>, String>)
        ensures
            connected(socket, version@, first_msg, shown@, outcome),
    {
        match version {
            ApiVersion::V1 => match first_msg {
                Some(msg) => {
                    let connection = ClientWSConnection::new(socket);
                    Ok(Game::V1(crate::v1::game::Game::new(msg.game, Some(connection))))
                },
                None => Err(NO_FIRST_MESSAGE.to_owned()),
            },
            ApiVersion::V2(_) => Err("Unhandled version V2(".to_owned().concat(shown).concat(")")),
        }
    }

    /// Makes the game of a new connection over `socket`. `first_msg` is the
    /// first message of the game, where one came in time. The registry
    /// stays as it is.
    pub fn connect(&mut self, socket: W, version: ApiVersion, first_msg: Option<GameMessage>) -> (outcome:
        Result<Game<W>, String>)
        ensures
            *final(self) == *old(self),
            connected(
                socket,
                version@,
                first_msg,
                match version@ {
                    ApiVersionView::V2(game) => debug_text(game),
                    ApiVersionView::V1 => Seq::empty(),
                },
                outcome,
            ),
    {
        let shown = match &version {
            ApiVersion::V2(game) => debug_format(game),
            ApiVersion::V1 => String::new(),
        };
        Self::connect_with(socket, version, first_msg, shown.as_str())
    }
}

} // verus!
