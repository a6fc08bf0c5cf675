//! What the player-list element shows: one section per team that is not
//! hidden, in team order, with the team's players in server order, and the
//! details of each player. The application draws it.

use vstd::prelude::*;
use crate::game::{PlayerInfo, TeamConfig, TeamShow};
use crate::overlay::ServerInfo;
use crate::text::chars_of;
use crate::steam::steamid_from_steam2;
use crate::json::{json_member, json_as_str, json_as_array, spec_json_member, spec_json_str, spec_json_array};
use crate::messages::ElementState;

verus! {

/// A team's section of the list.
#[derive(Debug)]
pub struct TeamSection {
    /// The team's index in the server's team list.
    pub team: usize,
    /// The section's heading.
    pub title: String,
    /// Whether the section starts expanded.
    pub default_open: bool,
    /// The team's players, as indices into the server's player list.
    pub players: Vec<usize>,
}

/// The indices, in order, of the first `n` players that are on team `team`
/// (a team is matched by its index, taken modulo 256 as the player's team
/// is a byte).
pub open spec fn members_of(players: Seq<PlayerInfo>, team: int, n: int) -> Seq<usize>
    decreases n,
{
    if n <= 0 {
        Seq::empty()
    } else {
        let prev = members_of(players, team, n - 1);
        if players[n - 1].team.0 == (team as u8) {
            prev.push((n - 1) as usize)
        } else {
            prev
        }
    }
}

/// The members of a team are exactly the players whose team byte is the
/// team's index (modulo 256), idle or not, each once, in server order.
pub proof fn law_team_members_exact(players: Seq<PlayerInfo>, team: int, n: int)
    requires
        0 <= n <= players.len(),
        players.len() <= usize::MAX,
    ensures
        forall|i: int|
            0 <= i < n ==> (members_of(players, team, n).contains(i as usize) <==> (#[trigger] players[i]).team.0
                == team as u8),
        forall|j: int|
            0 <= j < members_of(players, team, n).len() ==> #[trigger] members_of(players, team, n)[j] < n
                && players[members_of(players, team, n)[j] as int].team.0 == team as u8,
        forall|j: int, k: int|
            0 <= j < k < members_of(players, team, n).len() ==> #[trigger] members_of(players, team, n)[j]
                < #[trigger] members_of(players, team, n)[k],
    decreases n,
{
    if n > 0 {
        law_team_members_exact(players, team, n - 1);
        let prev = members_of(players, team, n - 1);
        let m = members_of(players, team, n);
        let last = (n - 1) as usize;
        assert(last as int == n - 1);
        assert forall|j: int| 0 <= j < prev.len() implies #[trigger] m[j] == prev[j] && prev[j] < n - 1 by {}
        if players[n - 1].team.0 == team as u8 {
            assert(m == prev.push(last));
        } else {
            assert(m == prev);
        }
        assert forall|j: int, k: int| 0 <= j < k < m.len() implies #[trigger] m[j] < #[trigger] m[k] by {
            if k < prev.len() {
                assert(prev[j] < prev[k]);
            } else {
                assert(m[k] == last);
                assert(m[j] == prev[j]);
            }
        }
        assert forall|i: int| 0 <= i < n implies (m.contains(i as usize) <==> (#[trigger] players[i]).team.0
            == team as u8) by {
            if m.contains(i as usize) {
                let j = choose|j: int| 0 <= j < m.len() && m[j] == i as usize;
                if j < prev.len() {
                    assert(prev[j] == i as usize);
                    assert(prev[j] as int == i);
                } else {
                    assert(m[j] == last);
                }
            }
            if players[i].team.0 == team as u8 {
                if i < n - 1 {
                    assert(prev.contains(i as usize));
                    let j = choose|j: int| 0 <= j < prev.len() && prev[j] == i as usize;
                    assert(m[j] == prev[j]);
                } else {
                    assert(m[prev.len() as int] == i as usize);
                }
            }
        }
    }
}

/// A section as plain values: team index, heading, expanded, members.
pub open spec fn section_view(s: TeamSection) -> (usize, Seq<char>, bool, Seq<usize>) {
    (s.team, s.title@, s.default_open, s.players@)
}

/// The heading of a team's section.
pub open spec fn section_title(name: Seq<char>) -> Seq<char> {
    name + " (-1)"@
}

/// The sections for the first `n` teams.
pub open spec fn sections_of(teams: Seq<TeamConfig>, players: Seq<PlayerInfo>, n: int) -> Seq<
    (usize, Seq<char>, bool, Seq<usize>),
>
    decreases n,
{
    if n <= 0 {
        Seq::empty()
    } else {
        let prev = sections_of(teams, players, n - 1);
        let t = teams[n - 1];
        if t.show != TeamShow::Hidden {
            prev.push(
                (
                    (n - 1) as usize,
                    section_title(t.name@),
                    t.show == TeamShow::Open,
                    members_of(players, n - 1, players.len() as int),
                ),
            )
        } else {
            prev
        }
    }
}

/// The players of team `team`, as indices into `players`.
pub fn team_members(players: &Vec<PlayerInfo>, team: usize) -> (r: Vec<usize>)
    ensures
        r@ == members_of(players@, team as int, players@.len() as int),
{
    let mut out: Vec<usize> = Vec::new();
    let mut i: usize = 0;
    let t: u8 = team as u8;
    while i < players.len()
        invariant
            i <= players@.len(),
            t == team as u8,
            out@ == members_of(players@, team as int, i as int),
        decreases players@.len() - i,
    {
        if players[i].team.0 == t {
            out.push(i);
        }
        i = i + 1;
    }
    out
}

/// The sections of the list for `server`.
pub fn list_players_layout(server: &ServerInfo) -> (r: Vec<TeamSection>)
    ensures
        r@.map_values(|s: TeamSection| section_view(s)) == sections_of(
            server.teams@,
            server.players@,
            server.teams@.len() as int,
        ),
{
    let mut out: Vec<TeamSection> = Vec::new();
    let mut i: usize = 0;
    while i < server.teams.len()
        invariant
            i <= server.teams@.len(),
            out@.map_values(|s: TeamSection| section_view(s)) == sections_of(
                server.teams@,
                server.players@,
                i as int,
            ),
        decreases server.teams@.len() - i,
    {
        let team = &server.teams[i];
        if team.show != TeamShow::Hidden {
            let section = TeamSection {
                team: i,
                title: team.name.clone().concat(" (-1)"),
                default_open: team.show == TeamShow::Open,
                players: team_members(&server.players, i),
            };
            let ghost before = out@;
            out.push(section);
            proof {
                assert(out@.map_values(|s: TeamSection| section_view(s)) =~= before.map_values(
                    |s: TeamSection| section_view(s),
                ).push(section_view(section)));
            }
        }
        i = i + 1;
    }
    out
}

/// Whether the text starts with `STEAM`: such a player has an avatar and a
/// page on the admin panel.
pub open spec fn is_steam_account_spec(steamid: Seq<char>) -> bool {
    steamid.len() >= 5 && steamid.subrange(0, 5) == "STEAM"@
}

pub fn is_steam_account(steamid: &String) -> (r: bool)
    ensures
        r == is_steam_account_spec(steamid@),
{
    let cs = chars_of(steamid.as_str());
    proof {
        reveal_strlit("STEAM");
    }
    if cs.len() < 5 {
        return false;
    }
    let r = cs[0] == 'S' && cs[1] == 'T' && cs[2] == 'E' && cs[3] == 'A' && cs[4] == 'M';
    proof {
        if r {
            assert(steamid@.subrange(0, 5) =~= "STEAM"@);
        } else {
            if steamid@.subrange(0, 5) == "STEAM"@ {
                assert(steamid@[0] == steamid@.subrange(0, 5)[0]);
                assert(steamid@[1] == steamid@.subrange(0, 5)[1]);
                assert(steamid@[2] == steamid@.subrange(0, 5)[2]);
                assert(steamid@[3] == steamid@.subrange(0, 5)[3]);
                assert(steamid@[4] == steamid@.subrange(0, 5)[4]);
            }
        }
    }
    r
}

/// The SteamID (its 64-bit value) that the player's profile link points
/// to, when the player's steamid reads as `STEAM_X:Y:Z`; otherwise the
/// steamid is shown as plain text.
pub fn profile_steamid(player: &PlayerInfo) -> (r: Option<u64>)
    ensures
        r == crate::steam::spec_steam2_parse(player.steamid@),
{
    steamid_from_steam2(player.steamid.as_str())
}

/// The admin permissions shown for a player; `-` when there are none.
pub fn admin_perms_text(player: &PlayerInfo) -> (r: String)
    ensures
        match player.admin_perms {
            Some(p) => r@ == p@,
            None => r@ == "-"@,
        },
{
    match &player.admin_perms {
        Some(p) => p.clone(),
        None => String::from_str("-"),
    }
}

/// A button of a player's entry: its label and the command it stands for.
#[derive(Debug)]
pub struct PlayerAction {
    pub label: String,
    pub command: Option<String>,
}

/// The label and command of an action item: its `label` member (`?` when
/// that is not a string) and its `command` member, if a string.
pub open spec fn action_of(item: serde_json::Value) -> (Seq<char>, Option<Seq<char>>) {
    (
        match spec_json_str(spec_json_member(item, "label"@)) {
            Some(t) => t,
            None => "?"@,
        },
        spec_json_str(spec_json_member(item, "command"@)),
    )
}

/// The actions offered for the player `steamid`: the items of the array at
/// `actions.<steamid>` in the element's state, none when there is no array.
pub open spec fn player_actions_spec(state: ElementState, steamid: Seq<char>) -> Seq<(Seq<char>, Option<Seq<char>>)> {
    match spec_json_array(spec_json_member(spec_json_member(state, "actions"@), steamid)) {
        Some(items) => items.map_values(|item: serde_json::Value| action_of(item)),
        None => Seq::empty(),
    }
}

pub open spec fn action_view(a: PlayerAction) -> (Seq<char>, Option<Seq<char>>) {
    (
        a.label@,
        match a.command {
            Some(c) => Some(c@),
            None => None,
        },
    )
}

/// The buttons shown for the player `steamid`.
pub fn player_actions(state: &ElementState, steamid: &str) -> (r: Vec<PlayerAction>)
    ensures
        r@.map_values(|a: PlayerAction| action_view(a)) == player_actions_spec(*state, steamid@),
{
    let actions = json_member(state, "actions");
    let mine = json_member(&actions, steamid);
    let items = match json_as_array(&mine) {
        Some(items) => items,
        None => {
            let r: Vec<PlayerAction> = Vec::new();
            assert(r@.map_values(|a: PlayerAction| action_view(a)) =~= Seq::<(Seq<char>, Option<Seq<char>>)>::empty());
            return r;
        },
    };
    let ghost spec_items = items@;
    let mut out: Vec<PlayerAction> = Vec::new();
    let mut i: usize = 0;
    while i < items.len()
        invariant
            i <= items@.len(),
            items@ == spec_items,
            out@.map_values(|a: PlayerAction| action_view(a)) == spec_items.take(i as int).map_values(
                |item: serde_json::Value| action_of(item),
            ),
        decreases items@.len() - i,
    {
        let item = &items[i];
        let label = match json_as_str(&json_member(item, "label")) {
            Some(t) => t,
            None => String::from_str("?"),
        };
        let command = json_as_str(&json_member(item, "command"));
        let a = PlayerAction { label, command };
        let ghost before = out@;
        out.push(a);
        proof {
            assert(spec_items.take(i as int + 1) =~= spec_items.take(i as int).push(spec_items[i as int]));
            assert(out@.map_values(|a: PlayerAction| action_view(a)) =~= before.map_values(
                |a: PlayerAction| action_view(a),
            ).push(action_view(a)));
            assert(action_view(a) == action_of(spec_items[i as int]));
            assert(spec_items.take(i as int + 1).map_values(|item: serde_json::Value| action_of(item))
                =~= spec_items.take(i as int).map_values(|item: serde_json::Value| action_of(item)).push(
                action_of(spec_items[i as int]),
            ));
        }
        i = i + 1;
    }
    proof {
        assert(spec_items.take(spec_items.len() as int) =~= spec_items);
    }
    out
}

} // verus!
