use arsa_backend::players::{collect_new_players, parse_player_line};
use arsa_backend::responses::PlayerIdentityId;

const LINE: &str = "12:00:01.123 DEFAULT : BattlEye Server: 'Player #0 Alice - BE GUID: x' identityId=0a1b2c3d-0000-4000-8000-00000000beef name=Alice\n";

#[test]
fn parses_a_player_line() {
    let (id, name) = parse_player_line(LINE).unwrap();
    assert_eq!(id, 0x0a1b2c3d_0000_4000_8000_00000000beef);
    assert_eq!(name, "Alice");
}

#[test]
fn name_runs_to_the_end_of_its_line_only() {
    let text = "identityId=0a1b2c3d-0000-4000-8000-00000000beef name=Bob Smith\r\nnext line";
    let (_, name) = parse_player_line(text).unwrap();
    assert_eq!(name, "Bob Smith\r");
    let text = "identityId=0a1b2c3d-0000-4000-8000-00000000beef name=";
    assert_eq!(parse_player_line(text).unwrap().1, "");
}

#[test]
fn rejects_lines_without_a_lowercase_uuid() {
    assert!(parse_player_line("identityId=0A1B2C3D-0000-4000-8000-00000000BEEF name=A").is_none());
    assert!(parse_player_line("identityId=0a1b2c3d00004000800000000000beef name=A").is_none());
    assert!(parse_player_line("nothing here").is_none());
    assert!(parse_player_line("").is_none());
}

#[test]
fn leftmost_mention_wins() {
    let text = "x identityId=00000000-0000-4000-8000-000000000001 name=One identityId=00000000-0000-4000-8000-000000000002 name=Two";
    let (id, name) = parse_player_line(text).unwrap();
    assert_eq!(id, 0x00000000_0000_4000_8000_000000000001);
    assert_eq!(name, "One identityId=00000000-0000-4000-8000-000000000002 name=Two");
}

#[test]
fn collected_players_from_each_line() {
    let lines = vec![
        "boot\n".to_string(),
        "identityId=00000000-0000-4000-8000-000000000001 name=One\n".to_string(),
        "identityId=00000000-0000-4000-8000-000000000002 name=Two\n".to_string(),
    ];
    let found = collect_new_players(&lines);
    assert_eq!(
        found,
        vec![
            (0x00000000_0000_4000_8000_000000000001u128, "One".to_string()),
            (0x00000000_0000_4000_8000_000000000002u128, "Two".to_string()),
        ]
    );
    let renamed = vec![
        "identityId=00000000-0000-4000-8000-000000000001 name=One\n".to_string(),
        "identityId=00000000-0000-4000-8000-000000000001 name=Uno\n".to_string(),
    ];
    assert_eq!(
        collect_new_players(&renamed),
        vec![(0x00000000_0000_4000_8000_000000000001u128, "Uno".to_string())]
    );
    assert!(collect_new_players(&vec!["nothing\n".to_string()]).is_empty());
}

#[test]
fn player_identity_answer() {
    let p = PlayerIdentityId::from_player(0x0a1b2c3d_0000_4000_8000_00000000beef, "Alice".to_string());
    assert_eq!(p.identity_id, "0a1b2c3d-0000-4000-8000-00000000beef");
    assert_eq!(p.name, "Alice");
}
