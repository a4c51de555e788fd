use dual_sink::broker::{BrokerConfig, DEFAULT_BROKER_PORT, KEEP_ALIVE_SECS};
use dual_sink::store::{insert_statement, STORE_POOL_CAPACITY};

#[test]
fn config_rejects_empty_identity() {
    let r = BrokerConfig::new(
        String::from(""),
        String::from("localhost"),
        DEFAULT_BROKER_PORT,
        String::from("remy"),
        String::from("secret"),
    );
    match r {
        Err(e) => assert_eq!(e.message, "empty client identity"),
        Ok(_) => panic!("an empty client identity is malformed"),
    }
}

#[test]
fn config_holds_the_given_values() {
    let r = BrokerConfig::new(
        String::from("actix-mqtt"),
        String::from("localhost"),
        DEFAULT_BROKER_PORT,
        String::from("remy"),
        String::from("secret"),
    );
    match r {
        Ok(c) => {
            assert_eq!(c.client_identity, "actix-mqtt");
            assert_eq!(c.host, "localhost");
            assert_eq!(c.port, 1883);
            assert_eq!(c.username, "remy");
            assert_eq!(c.password, "secret");
            assert_eq!(c.keep_alive_secs, 5);
        }
        Err(_) => panic!("well-formed options must be accepted"),
    }
}

#[test]
fn fixed_protocol_parameters() {
    assert_eq!(DEFAULT_BROKER_PORT, 1883);
    assert_eq!(KEEP_ALIVE_SECS, 5);
    assert_eq!(STORE_POOL_CAPACITY, 5);
}

#[test]
fn insert_statement_is_parameterized() {
    let s = insert_statement();
    assert_eq!(s, "INSERT INTO messages (content) VALUES ($1)");
    assert!(s.contains("$1"), "content travels as a bound parameter");
}
