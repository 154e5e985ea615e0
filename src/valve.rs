use vstd::prelude::*;
use vstd::string::*;

verus! {

/// A player on the game server.
pub struct Player {
    pub name: String,
}

/// A fresh read of the game server over the query protocol.
pub struct ValveInformation {
    pub server_name: String,
    pub version: String,
    pub player_count: u8,
    pub max_player_count: u8,
    pub players: Vec<Player>,
}

impl ValveInformation {
    pub fn new(
        server_name: String,
        version: String,
        player_count: u8,
        max_player_count: u8,
        players: Vec<Player>,
    ) -> (r: ValveInformation)
        ensures
            r.server_name == server_name,
            r.version == version,
            r.player_count == player_count,
            r.max_player_count == max_player_count,
            r.players == players,
    {
        ValveInformation { server_name, version, player_count, max_player_count, players }
    }

    /// The snapshot of an info answer. The version is the server's keyword
    /// string, "n/a" when it sends none; the roster is left empty, as the
    /// game does not fill it.
    pub fn from_info(name: String, keywords: Option<String>, players: u8, max_players: u8) -> (r:
        ValveInformation)
        ensures
            r.server_name == name,
            r.version@ == match keywords {
                Some(k) => k@,
                None => "n/a"@,
            },
            r.player_count == players,
            r.max_player_count == max_players,
            r.players@.len() == 0,
    {
        let version = match keywords {
            Some(k) => k,
            None => {
                let mut t = String::new();
                t.append("n/a");
                t
            },
        };
        ValveInformation::new(name, version, players, max_players, Vec::new())
    }
}

} // verus!
