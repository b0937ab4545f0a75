use vstd::prelude::*;
use vstd::string::*;

verus! {

/// Where the volatile store can be reached.
pub struct RedisCredentials<'a> {
    pub uri: &'a str,
}

/// Failures of the volatile store, tagged by the phase in which they occur.
#[derive(Debug, PartialEq, Eq)]
pub enum RedisError {
    CreateClientError(String),
    CreateConnectionError(String),
    CreateError(String),
    DeleteError(String),
    GetError(String),
    SerializeError(String),
}

/// The human-readable headline of each volatile-store failure.
pub open spec fn redis_error_message(e: RedisError) -> Seq<char> {
    match e {
        RedisError::CreateClientError(d) =>
            "[CreateClientError]: An error has ocurred while creating the client.\nDetail: "@ + d@,
        RedisError::CreateConnectionError(d) =>
            "[CreateConnectionError]: An error has ocurred while creating connections.\nDetail: "@ + d@,
        RedisError::CreateError(d) =>
            "[CreateError]: An error has ocurred while creating some data.\nDetail: "@ + d@,
        RedisError::DeleteError(d) =>
            "[DeleteError]: An error has ocurred while deleting some data.\nDetail: "@ + d@,
        RedisError::GetError(d) =>
            "[GetError]: An error has ocurred while trying to get some data.\nDetail: "@ + d@,
        RedisError::SerializeError(d) =>
            "[SerializeError]: An error has ocurred while serializing the data.\nDetail: "@ + d@,
    }
}

impl RedisError {
    /// The message describing this failure, followed by its detail.
    pub fn message(&self) -> (r: String)
        ensures
            r@ == redis_error_message(*self),
    {
        let (head, detail) = match self {
            RedisError::CreateClientError(d) =>
                ("[CreateClientError]: An error has ocurred while creating the client.\nDetail: ", d),
            RedisError::CreateConnectionError(d) =>
                ("[CreateConnectionError]: An error has ocurred while creating connections.\nDetail: ", d),
            RedisError::CreateError(d) =>
                ("[CreateError]: An error has ocurred while creating some data.\nDetail: ", d),
            RedisError::DeleteError(d) =>
                ("[DeleteError]: An error has ocurred while deleting some data.\nDetail: ", d),
            RedisError::GetError(d) =>
                ("[GetError]: An error has ocurred while trying to get some data.\nDetail: ", d),
            RedisError::SerializeError(d) =>
                ("[SerializeError]: An error has ocurred while serializing the data.\nDetail: ", d),
        };
        String::from_str(head).concat(detail.as_str())
    }
}

/// A record that can be kept in the volatile store: it knows its own key
/// and the time-to-live it is stored with when the caller gives none.
pub trait RedisData {
    fn key(&self) -> &String;

    fn default_expiration() -> u64;
}

/// The two steps of connecting to the volatile store.
#[derive(Clone, Copy, Debug, PartialEq, Eq, Structural)]
pub enum ConnectStage {
    /// Building a client from the URI.
    OpenClient,
    /// Establishing the multiplexed connection.
    Connect,
}

/// The failure reported when a connection step fails: a client that cannot
/// be built is told apart from a handshake that fails.
pub open spec fn connection_error_of(stage: ConnectStage, detail: String) -> RedisError {
    match stage {
        ConnectStage::OpenClient => RedisError::CreateClientError(detail),
        ConnectStage::Connect => RedisError::CreateConnectionError(detail),
    }
}

/// The failure of a connection step.
pub fn connection_error(stage: ConnectStage, detail: String) -> (r: RedisError)
    ensures
        r == connection_error_of(stage, detail),
{
    match stage {
        ConnectStage::OpenClient => RedisError::CreateClientError(detail),
        ConnectStage::Connect => RedisError::CreateConnectionError(detail),
    }
}

/// The volatile-store client: an open connection and the client that made it.
/// The network work is done by the caller; this type decides what is sent
/// and how each reply is classified.
pub struct Redis<Connection, Client> {
    pub connection: Connection,
    pub client: Client,
}

/// A keyed write to the volatile store: the serialized record and how many
/// seconds it lives.
pub struct SetCommand {
    pub key: String,
    pub value: Vec<Vec<u8>>,
    pub seconds: u64,
}

/// A zero expiration is never stored: it stands for the record's default.
pub open spec fn effective_expiration(expiration: u64, default_expiration: u64) -> u64 {
    if expiration == 0 {
        default_expiration
    } else {
        expiration
    }
}

/// The volatile store as a map from key to serialized value and time-to-live.
pub type VolatileStore = Map<Seq<char>, (Seq<Vec<u8>>, u64)>;

/// The store after a keyed write: the entry is replaced as a whole.
pub open spec fn store_after_set(store: VolatileStore, c: SetCommand) -> VolatileStore {
    store.insert(c.key@, (c.value@, c.seconds))
}

/// The store after a key is deleted.
pub open spec fn store_after_delete(store: VolatileStore, key: Seq<char>) -> VolatileStore {
    store.remove(key)
}

/// What a read of `key` finds: the stored value, or nothing.
pub open spec fn stored_value(store: VolatileStore, key: Seq<char>) -> Option<Seq<Vec<u8>>> {
    if store.contains_key(key) {
        Some(store[key].0)
    } else {
        None
    }
}

impl<Connection, Client> Redis<Connection, Client> {
    /// The time-to-live a write uses: the given one, or the default for zero.
    pub fn expiration_for(&self, expiration: u64, default_expiration: u64) -> (r: u64)
        ensures
            r == effective_expiration(expiration, default_expiration),
            expiration == 0 ==> r == default_expiration,
            expiration != 0 ==> r == expiration,
    {
        if expiration == 0 {
            default_expiration
        } else {
            expiration
        }
    }

    /// The write that stores a record's serialized form under its key.
    pub fn create_command(
        &self,
        key: &String,
        value: Vec<Vec<u8>>,
        expiration: u64,
        default_expiration: u64,
    ) -> (c: SetCommand)
        ensures
            c.key@ == key@,
            c.value@ == value@,
            c.seconds == effective_expiration(expiration, default_expiration),
    {
        let seconds = self.expiration_for(expiration, default_expiration);
        SetCommand { key: key.clone(), value, seconds }
    }

    /// An update re-sets the record exactly as a create with no expiration.
    pub fn update_command(&self, key: &String, value: Vec<Vec<u8>>, default_expiration: u64) -> (c:
        SetCommand)
        ensures
            c.key@ == key@,
            c.value@ == value@,
            c.seconds == effective_expiration(0, default_expiration),
            c.seconds == default_expiration,
    {
        self.create_command(key, value, 0, default_expiration)
    }

    /// Classifies the reply to a write.
    pub fn create_outcome(&self, reply: Result<(), String>) -> (r: Result<(), RedisError>)
        ensures
            match reply {
                Ok(()) => r == Ok::<(), RedisError>(()),
                Err(d) => r == Err::<(), RedisError>(RedisError::CreateError(d)),
            },
    {
        match reply {
            Ok(()) => Ok(()),
            Err(d) => Err(RedisError::CreateError(d)),
        }
    }

    /// Classifies the reply to a delete, by record or by key.
    pub fn delete_outcome(&self, reply: Result<(), String>) -> (r: Result<(), RedisError>)
        ensures
            match reply {
                Ok(()) => r == Ok::<(), RedisError>(()),
                Err(d) => r == Err::<(), RedisError>(RedisError::DeleteError(d)),
            },
    {
        match reply {
            Ok(()) => Ok(()),
            Err(d) => Err(RedisError::DeleteError(d)),
        }
    }

    /// Classifies the reply to a read. A missing key arrives as an error
    /// too, and is reported in the same way.
    pub fn get_outcome<Data>(&self, reply: Result<Data, String>) -> (r: Result<Data, RedisError>)
        ensures
            match reply {
                Ok(v) => r == Ok::<Data, RedisError>(v),
                Err(d) => r == Err::<Data, RedisError>(RedisError::GetError(d)),
            },
    {
        match reply {
            Ok(v) => Ok(v),
            Err(d) => Err(RedisError::GetError(d)),
        }
    }
}

/// A zero expiration stores the record with its default time-to-live, so an
/// entry written without one lives exactly as long as the default says.
pub proof fn lemma_zero_expiration_uses_default(
    store: VolatileStore,
    c: SetCommand,
    default_expiration: u64,
)
    requires
        c.seconds == effective_expiration(0, default_expiration),
    ensures
        store_after_set(store, c)[c.key@].1 == default_expiration,
{
}

/// Updating a record again and again leaves the store holding its latest
/// serialized form, exactly as after a single update.
pub proof fn lemma_update_is_idempotent(store: VolatileStore, c: SetCommand, default_expiration: u64)
    requires
        c.seconds == effective_expiration(0, default_expiration),
    ensures
        store_after_set(store_after_set(store, c), c) == store_after_set(store, c),
        stored_value(store_after_set(store, c), c.key@) == Some(c.value@),
{
    assert(store_after_set(store_after_set(store, c), c) =~= store_after_set(store, c));
}

/// A read after a keyed write finds the written value; a read after a
/// delete of that key finds nothing.
pub proof fn lemma_read_after_write_and_delete(store: VolatileStore, c: SetCommand)
    ensures
        stored_value(store_after_set(store, c), c.key@) == Some(c.value@),
        stored_value(store_after_delete(store_after_set(store, c), c.key@), c.key@) is None,
{
}

} // verus!
