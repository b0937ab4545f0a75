use taomiko_data::redis::{connection_error, ConnectStage, Redis, RedisCredentials, RedisError};

fn client() -> Redis<(), ()> {
    Redis { connection: (), client: () }
}

#[test]
fn credentials_hold_the_uri() {
    let credentials = RedisCredentials { uri: "memory://test" };
    assert_eq!(credentials.uri, "memory://test");
}

#[test]
fn zero_expiration_uses_the_default() {
    assert_eq!(client().expiration_for(0, 3600), 3600);
}

#[test]
fn given_expiration_is_kept() {
    assert_eq!(client().expiration_for(60, 3600), 60);
    assert_eq!(client().expiration_for(u64::MAX, 1), u64::MAX);
}

#[test]
fn create_command_stores_the_record_under_its_key() {
    let key = String::from("abc");
    let value = vec![b"alice".to_vec()];
    let command = client().create_command(&key, value.clone(), 60, 3600);
    assert_eq!(command.key, "abc");
    assert_eq!(command.value, value);
    assert_eq!(command.seconds, 60);
}

#[test]
fn create_without_expiration_lives_for_the_default() {
    let key = String::from("abc");
    let command = client().create_command(&key, vec![b"alice".to_vec()], 0, 900);
    assert_eq!(command.seconds, 900);
    assert_ne!(command.seconds, 0);
}

#[test]
fn update_is_create_without_expiration() {
    let key = String::from("abc");
    let value = vec![b"alice".to_vec(), b"x".to_vec()];
    let updated = client().update_command(&key, value.clone(), 900);
    let created = client().create_command(&key, value.clone(), 0, 900);
    assert_eq!(updated.key, created.key);
    assert_eq!(updated.value, created.value);
    assert_eq!(updated.seconds, created.seconds);
    let again = client().update_command(&key, value.clone(), 900);
    assert_eq!(again.value, value);
    assert_eq!(again.seconds, 900);
}

#[test]
fn update_stores_the_latest_form() {
    let key = String::from("abc");
    let first = client().update_command(&key, vec![b"alice".to_vec()], 900);
    let second = client().update_command(&key, vec![b"alicia".to_vec()], 900);
    assert_eq!(first.value, vec![b"alice".to_vec()]);
    assert_eq!(second.value, vec![b"alicia".to_vec()]);
}

#[test]
fn write_replies_are_classified() {
    assert_eq!(client().create_outcome(Ok(())), Ok(()));
    assert_eq!(
        client().create_outcome(Err(String::from("refused"))),
        Err(RedisError::CreateError(String::from("refused")))
    );
}

#[test]
fn delete_replies_are_classified() {
    assert_eq!(client().delete_outcome(Ok(())), Ok(()));
    assert_eq!(
        client().delete_outcome(Err(String::from("gone"))),
        Err(RedisError::DeleteError(String::from("gone")))
    );
}

#[test]
fn read_replies_are_classified() {
    assert_eq!(client().get_outcome(Ok(7u32)), Ok(7u32));
    assert_eq!(
        client().get_outcome::<u32>(Err(String::from("nil"))),
        Err(RedisError::GetError(String::from("nil")))
    );
}

#[test]
fn volatile_messages_name_the_phase_and_detail() {
    assert_eq!(
        RedisError::CreateClientError(String::from("bad uri")).message(),
        "[CreateClientError]: An error has ocurred while creating the client.\nDetail: bad uri"
    );
    assert_eq!(
        RedisError::CreateConnectionError(String::from("x")).message(),
        "[CreateConnectionError]: An error has ocurred while creating connections.\nDetail: x"
    );
    assert_eq!(
        RedisError::CreateError(String::from("x")).message(),
        "[CreateError]: An error has ocurred while creating some data.\nDetail: x"
    );
    assert_eq!(
        RedisError::DeleteError(String::from("x")).message(),
        "[DeleteError]: An error has ocurred while deleting some data.\nDetail: x"
    );
    assert_eq!(
        RedisError::GetError(String::from("x")).message(),
        "[GetError]: An error has ocurred while trying to get some data.\nDetail: x"
    );
    assert_eq!(
        RedisError::SerializeError(String::from("x")).message(),
        "[SerializeError]: An error has ocurred while serializing the data.\nDetail: x"
    );
}

#[test]
fn connection_failures_name_their_step() {
    assert_eq!(
        connection_error(ConnectStage::OpenClient, String::from("bad uri")),
        RedisError::CreateClientError(String::from("bad uri"))
    );
    assert_eq!(
        connection_error(ConnectStage::Connect, String::from("refused")),
        RedisError::CreateConnectionError(String::from("refused"))
    );
}
