use bot_client::naming::bot_name;

#[test]
fn names_count_up_in_decimal() {
    assert_eq!(bot_name(0), "BOT_0");
    assert_eq!(bot_name(7), "BOT_7");
    assert_eq!(bot_name(10), "BOT_10");
    assert_eq!(bot_name(4294967295), "BOT_4294967295");
}

#[test]
fn names_differ() {
    assert_ne!(bot_name(1), bot_name(10));
    assert_ne!(bot_name(11), bot_name(1));
}
