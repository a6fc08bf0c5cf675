//! Game state shown in the overlay: teams, players and the server a player is
//! on.

use vstd::prelude::*;
use crate::address::IpAddress;

verus! {

/// The index of a player's team.
#[derive(Clone, Copy, Debug, PartialEq, Eq, Structural)]
pub struct PlayerTeam(pub u8);

/// How a team is shown in the UI.
#[derive(Clone, Copy, Debug, PartialEq, Eq, Structural)]
pub enum TeamShow {
    /// Team is hidden in the UI
    Hidden,
    /// Team is shown but collapsed
    Collapsed,
    /// Team is shown and is expanded
    Open,
}

#[derive(Clone, Debug)]
pub struct TeamConfig {
    /// The displayed name of team
    pub name: String,
    pub show: TeamShow,
}

/// A player on a server. The time the player joined and the player's health
/// are carried by the application's copy of this type.
#[derive(Clone, Debug)]
pub struct PlayerInfo {
    pub steamid: String,
    pub user_id: u32,
    pub name: String,
    pub team: PlayerTeam,
    pub is_idle: bool,
    pub admin_perms: Option<String>,
}

/// The label of a player: idle players are marked `[IDLE]`, bots (steamid
/// `BOT`) `[BOT]`, everybody else is shown by name.
pub open spec fn label_name_spec(name: Seq<char>, steamid: Seq<char>, is_idle: bool) -> Seq<char> {
    if is_idle {
        name + " [IDLE]"@
    } else if steamid == "BOT"@ {
        name + " [BOT]"@
    } else {
        name
    }
}

impl PlayerInfo {
    pub fn label_name(&self) -> (r: String)
        ensures
            r@ == label_name_spec(self.name@, self.steamid@, self.is_idle),
    {
        if self.is_idle {
            self.name.clone().concat(" [IDLE]")
        } else if self.steamid == String::from_str("BOT") {
            self.name.clone().concat(" [BOT]")
        } else {
            self.name.clone()
        }
    }
}

/// A server as the manager describes it to its clients.
#[derive(Clone, Debug)]
pub struct ServerInfo {
    pub id: String,
    pub name: String,
    pub ip_addr: IpAddress,
    /// appid for now
    pub game_type: usize,
    pub players: Vec<PlayerInfo>,
    pub teams: Vec<TeamConfig>,
}

impl ServerInfo {
    pub fn get_team_config(&self, team: &PlayerTeam) -> (r: Option<&TeamConfig>)
        ensures
            match r {
                Some(c) => team.0 < self.teams@.len() && *c == self.teams@[team.0 as int],
                None => team.0 >= self.teams@.len(),
            },
    {
        let i = team.0 as usize;
        if i < self.teams.len() {
            Some(&self.teams[i])
        } else {
            None
        }
    }

    pub fn get_team_config_name(&self, team: &PlayerTeam) -> (r: Option<&str>)
        ensures
            match r {
                Some(n) => team.0 < self.teams@.len() && n@ == self.teams@[team.0 as int].name@,
                None => team.0 >= self.teams@.len(),
            },
    {
        match self.get_team_config(team) {
            Some(c) => Some(c.name.as_str()),
            None => None,
        }
    }
}

} // verus!
