//! The wire-level data the host exchanges with the game service, and the
//! pure builders around it. Encoding and the socket itself live with the
//! host; this module owns the shapes and the arithmetic.

use vstd::prelude::*;

verus! {

/// An 8-bit-per-channel colour as the wire carries it.
#[derive(Clone, Copy, PartialEq, Eq, Structural, Debug)]
pub struct Color {
    pub r: u8,
    pub g: u8,
    pub b: u8,
}

/// A saved character's stats and look.
#[derive(Clone, Copy, PartialEq, Eq, Structural, Debug)]
pub struct CharacterDetails {
    pub face: u16,
    pub health: u32,
    pub strength: u32,
    pub color: Color,
}

/// The player's saved progress.
#[derive(Clone, Copy, PartialEq, Debug)]
pub struct UserData {
    pub coins: u32,
    pub trophies: (u32, u32),
}

/// A request to the game service.
#[derive(Clone, PartialEq, Debug)]
pub enum NetworkMessage {
    Connect(String),
    Save(UserData),
}

/// A reply from the game service.
#[derive(Clone, PartialEq, Debug)]
pub enum NetworkMessageResponse {
    Connect(UserData, Vec<CharacterDetails>),
}

/// Which game a wrapped payload belongs to.
#[derive(Clone, Copy, PartialEq, Eq, Structural, Debug)]
pub enum GameId {
    BlockchainBuddy,
}

/// An encoded payload tagged with its game.
#[derive(Clone, PartialEq, Debug)]
pub struct GenericNetworkMessage {
    pub game_id: GameId,
    pub data: Vec<u8>,
}

/// What the connect flow keeps while it runs.
#[derive(Clone, PartialEq, Debug)]
pub struct ConnectInformation {
    pub account_seed: Option<String>,
}

impl ConnectInformation {
    pub fn new() -> (r: ConnectInformation)
        ensures
            r.account_seed is None,
    {
        ConnectInformation { account_seed: None }
    }
}

/// Build the save request carrying the player's progress.
pub fn save_message(coins: usize, trophies_won: usize, trophies_rounds: usize)
    -> (r: NetworkMessage)
    requires
        coins <= u32::MAX,
        trophies_won <= u32::MAX,
        trophies_rounds <= u32::MAX,
    ensures
        r == NetworkMessage::Save(UserData {
            coins: coins as u32,
            trophies: (trophies_won as u32, trophies_rounds as u32),
        }),
{
    NetworkMessage::Save(UserData {
        coins: coins as u32,
        trophies: (trophies_won as u32, trophies_rounds as u32),
    })
}

/// Read a connect reply into the host's counters: the balance, the
/// trophies won and the rounds played.
pub fn apply_connect_response(response: &NetworkMessageResponse) -> (r: (usize, usize, usize))
    ensures
        match *response {
            NetworkMessageResponse::Connect(user_data, _) => r == (
                user_data.coins as usize,
                user_data.trophies.0 as usize,
                user_data.trophies.1 as usize,
            ),
        },
{
    match response {
        NetworkMessageResponse::Connect(user_data, _) => (
            user_data.coins as usize,
            user_data.trophies.0 as usize,
            user_data.trophies.1 as usize,
        ),
    }
}

/// The flag the host raises when the session's progress should be saved.
#[derive(Clone, Copy, PartialEq, Eq, Structural, Debug)]
pub struct ShouldSaveGame(pub bool);

/// Decide whether to persist this tick: while the flag is up, build the
/// save request carrying the counters; the flag is lowered either way.
pub fn enter_save_data_state(
    save_game: &mut ShouldSaveGame,
    coins: usize,
    trophies_won: usize,
    trophies_rounds: usize,
) -> (r: Option<NetworkMessage>)
    requires
        coins <= u32::MAX,
        trophies_won <= u32::MAX,
        trophies_rounds <= u32::MAX,
    ensures
        !final(save_game).0,
        old(save_game).0 ==> r == Some(NetworkMessage::Save(UserData {
            coins: coins as u32,
            trophies: (trophies_won as u32, trophies_rounds as u32),
        })),
        !old(save_game).0 ==> r is None,
{
    let r = if save_game.0 {
        Some(save_message(coins, trophies_won, trophies_rounds))
    } else {
        None
    };
    save_game.0 = false;
    r
}

/// Tag an encoded request with this game's identity.
pub fn wrap_game_message(data: Vec<u8>) -> (r: GenericNetworkMessage)
    ensures
        r.game_id == GameId::BlockchainBuddy,
        r.data == data,
{
    GenericNetworkMessage { game_id: GameId::BlockchainBuddy, data }
}

} // verus!
