use buddy_core::types::{
    apply_connect_response, enter_save_data_state, save_message, wrap_game_message,
    CharacterDetails, Color, ConnectInformation, GameId, NetworkMessage,
    NetworkMessageResponse, ShouldSaveGame, UserData,
};

#[test]
fn save_messages_carry_the_progress() {
    let msg = save_message(7, 2, 9);
    assert_eq!(
        msg,
        NetworkMessage::Save(UserData {
            coins: 7,
            trophies: (2, 9),
        })
    );
}

#[test]
fn connect_replies_unpack_into_the_counters() {
    let reply = NetworkMessageResponse::Connect(
        UserData {
            coins: 42,
            trophies: (1, 5),
        },
        vec![CharacterDetails {
            face: 0,
            health: 3,
            strength: 4,
            color: Color { r: 10, g: 20, b: 30 },
        }],
    );
    assert_eq!(apply_connect_response(&reply), (42, 1, 5));
}

#[test]
fn wrapped_payloads_are_tagged_with_the_game() {
    let wrapped = wrap_game_message(vec![1, 2, 3]);
    assert!(matches!(wrapped.game_id, GameId::BlockchainBuddy));
    assert_eq!(wrapped.data, vec![1, 2, 3]);
}

#[test]
fn saving_happens_only_while_the_flag_is_up() {
    let mut flag = ShouldSaveGame(true);
    let msg = enter_save_data_state(&mut flag, 3, 1, 4);
    assert_eq!(
        msg,
        Some(NetworkMessage::Save(UserData {
            coins: 3,
            trophies: (1, 4),
        }))
    );
    assert!(!flag.0);
    // the flag stays down and nothing more is sent
    assert_eq!(enter_save_data_state(&mut flag, 3, 1, 4), None);
    assert!(!flag.0);
}

#[test]
fn a_fresh_connection_has_no_seed() {
    let info = ConnectInformation::new();
    assert!(info.account_seed.is_none());
}
