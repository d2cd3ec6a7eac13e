use pass::{Address, Error, GameStatus, PassContract};

fn setup_test() -> (PassContract, Address, Address) {
    let admin = Address::Account([9u8; 32]);
    let hub = Address::Contract([8u8; 32]);
    let contract = PassContract::initialize(admin, hub, 4);
    let player1 = Address::Account([1u8; 32]);
    let player2 = Address::Account([2u8; 32]);
    (contract, player1, player2)
}

fn commitment(secret: u32) -> [u8; 32] {
    let mut hash = [0u8; 32];
    hash[28..].copy_from_slice(&secret.to_be_bytes());
    hash
}

#[test]
fn test_mastermind_flow() {
    let (mut client, player1, player2) = setup_test();
    let session_id: u32 = 1;
    let points: i128 = 100_0000000;

    client.start_game(session_id, player1, player2, points, points).unwrap();

    let game = client.get_game(session_id).unwrap();
    assert_eq!(game.status, GameStatus::Setup);
    assert!(game.player1_secret_hash.is_none());

    client.register_secret(session_id, player1, commitment(1235)).unwrap();

    let game_p1 = client.get_game(session_id).unwrap();
    assert_eq!(game_p1.status, GameStatus::Setup);

    client.register_secret(session_id, player2, commitment(2232)).unwrap();

    let game_playing = client.get_game(session_id).unwrap();
    assert_eq!(game_playing.status, GameStatus::Playing);

    client.submit_guess(session_id, player1, 2232).unwrap();
    client.submit_guess(session_id, player2, 9999).unwrap();

    let game_guessed = client.get_game(session_id).unwrap();
    println!("game_guessed: {:?}", game_guessed);
    assert_eq!(game_guessed.player1_last_guess, Some(2232));
    assert_eq!(game_guessed.player2_last_guess, Some(9999));

    let proof = vec![0xAA; 10];
    client.submit_proof(session_id, player1, 0, 0, 4, proof.clone()).unwrap();
    client.submit_proof(session_id, player2, 4, 0, 0, proof).unwrap();

    let verdict = client.resolve_round(session_id, true, true).unwrap();
    assert_eq!(verdict.settlement, Some(true));
    let winner = client.has_game_ended(session_id).unwrap();

    assert_eq!(winner, Some(player1));

    let final_game = client.get_game(session_id).unwrap();
    assert_eq!(final_game.status, GameStatus::Winner);
    assert_eq!(final_game.winner, Some(player1));
}

#[test]
fn test_mastermind_multi_round_flow() {
    let (mut client, player1, player2) = setup_test();
    let session_id: u32 = 1;
    let points: i128 = 100_0000000;

    client.start_game(session_id, player1, player2, points, points).unwrap();

    let p1_secret_value: u32 = 1111;
    let p2_secret_value: u32 = 2222;

    client.register_secret(session_id, player1, commitment(p1_secret_value)).unwrap();
    client.register_secret(session_id, player2, commitment(p2_secret_value)).unwrap();

    println!("\n--- FASE 1: RODADA DE ERRO ---\n");

    client.submit_guess(session_id, player1, 5555).unwrap();
    client.submit_guess(session_id, player2, 6666).unwrap();
    client.submit_proof(session_id, player1, 0, 0, 4, vec![0x00; 1]).unwrap();
    client.submit_proof(session_id, player2, 0, 0, 4, vec![0x00; 1]).unwrap();

    let res_v1 = client.resolve_round(session_id, true, true);
    println!("\nResultado Rodada 1 (Esperado Erro): {:?}", res_v1);
    assert_eq!(res_v1.unwrap().settlement, None);

    let game_after_fail = client.get_game(session_id).unwrap();
    assert_eq!(game_after_fail.player1_last_guess, None);
    assert_eq!(game_after_fail.status, GameStatus::Playing);
    println!(
        "\nStatus: {:?} - Palpites resetados com sucesso.",
        game_after_fail.status
    );

    println!("\n--- FASE 2: RODADA DE VITORIA (PLAYER 2) ---\n");

    client.submit_guess(session_id, player1, 7777).unwrap();
    client.submit_guess(session_id, player2, 1111).unwrap();
    client.submit_proof(session_id, player1, 4, 0, 0, vec![0x01; 1]).unwrap();
    client.submit_proof(session_id, player2, 1, 0, 3, vec![0x01; 1]).unwrap();

    let verdict = client.resolve_round(session_id, true, true).unwrap();
    let winner = client.has_game_ended(session_id).unwrap();
    println!("\nVENCEDOR ENCONTRADO: {:?}", winner);

    let final_game = client.get_game(session_id).unwrap();
    assert_eq!(winner, Some(player2));
    assert_eq!(final_game.status, GameStatus::Winner);
    assert_eq!(final_game.winner, Some(player2));
    assert_eq!(verdict.settlement, Some(false));
    assert_eq!(verdict.player2_result.acertos, 4);
    assert_eq!(verdict.player1_result.acertos, 1);

    let again = client.resolve_round(session_id, true, true).unwrap();
    assert_eq!(again.settlement, None);

    println!("\n--- TESTE CONCLUIDO COM SUCESSO ---\n");
    println!("\nFinal Game State: {:#?}", final_game);
}

#[test]
fn test_cannot_play_without_secrets() {
    let (mut client, player1, player2) = setup_test();
    let session_id: u32 = 2;

    client.start_game(session_id, player1, player2, 100, 100).unwrap();

    let result = client.submit_guess(session_id, player1, 1234);
    assert!(result.is_err());
    assert_eq!(result, Err(Error::InvalidStatus));
}

#[test]
fn test_cannot_register_twice() {
    let (mut client, player1, player2) = setup_test();
    let session_id: u32 = 3;
    client.start_game(session_id, player1, player2, 100, 100).unwrap();

    client.register_secret(session_id, player1, commitment(1239)).unwrap();

    let result = client.register_secret(session_id, player1, commitment(1239));

    match result {
        Err(error) => assert_eq!(error, Error::SecretAlreadyRegistered),
        _ => panic!("Expected SecretAlreadyRegistered error"),
    }
}
