use elci_proxy::command::{expects_response, extract_name, is_response_command};

#[test]
fn extract_name_of_height_query() {
    assert_eq!(extract_name(b"world.getHeight(0,0)"), b"world.getHeight");
}

#[test]
fn extract_name_of_set_block() {
    assert_eq!(extract_name(b"world.setBlock(0,0,0,1)"), b"world.setBlock");
}

#[test]
fn extract_name_of_bare_command() {
    assert_eq!(extract_name(b"ping"), b"ping");
}

#[test]
fn extract_name_is_idempotent() {
    for line in [
        &b"world.getHeight(0,0)"[..],
        &b"world.setBlock(0,0,0,1)"[..],
        &b"ping"[..],
        &b"ping\n"[..],
        &b"a(b(c))\n"[..],
        &b""[..],
    ] {
        let once = extract_name(line);
        assert_eq!(extract_name(once), once);
    }
}

#[test]
fn extract_name_splits_on_first_paren_only() {
    assert_eq!(extract_name(b"chat.post(hello (world))\n"), b"chat.post");
    assert_eq!(extract_name(b"((x"), b"");
}

#[test]
fn extract_name_keeps_terminator_without_paren() {
    assert_eq!(extract_name(b"ping\n"), b"ping\n");
    assert_eq!(extract_name(b"\n"), b"\n");
    assert_eq!(extract_name(b""), b"");
}

#[test]
fn every_listed_command_expects_response() {
    assert!(expects_response(b"player.getPos(Steve)\n"));
    assert!(expects_response(b"world.getBlockWithData(1,2,3)\n"));
    assert!(expects_response(b"world.getHeight(0,0)\n"));
    assert!(expects_response(b"world.getBlocksWithData(0,0,0,1,1,1)\n"));
    assert!(expects_response(b"world.getHeights(0,0,4,4)\n"));
}

#[test]
fn unlisted_command_expects_no_response() {
    assert!(!expects_response(b"world.setBlock(0,64,0,1)\n"));
    assert!(!expects_response(b"chat.post(hi)\n"));
    assert!(!expects_response(b"world.getBlock(0,0,0)\n"));
}

#[test]
fn name_match_is_exact() {
    assert!(!expects_response(b"Player.getPos(Steve)\n"));
    assert!(!expects_response(b" player.getPos(Steve)\n"));
    assert!(!expects_response(b"player.getPos (Steve)\n"));
    assert!(!expects_response(b"player.getPosition(Steve)\n"));
    assert!(!expects_response(b"player.getPo(Steve)\n"));
}

#[test]
fn bare_name_with_terminator_is_not_trimmed() {
    assert!(!expects_response(b"player.getPos\n"));
    assert!(expects_response(b"player.getPos"));
}

#[test]
fn blank_lines_expect_no_response() {
    assert!(!expects_response(b"\n"));
    assert!(!expects_response(b"   \n"));
    assert!(!expects_response(b""));
}

#[test]
fn response_command_lookup() {
    assert!(is_response_command(b"player.getPos"));
    assert!(is_response_command(b"world.getBlockWithData"));
    assert!(is_response_command(b"world.getHeight"));
    assert!(is_response_command(b"world.getBlocksWithData"));
    assert!(is_response_command(b"world.getHeights"));
    assert!(!is_response_command(b"world.getHeights("));
    assert!(!is_response_command(b"world.getHeightsX"));
    assert!(!is_response_command(b""));
}
