use vstd::prelude::*;

verus! {

/// Credentials and endpoint of one tracker account, as configured.
pub struct ClientOptions {
    pub name: String,
    pub key: String,
    pub url: String,
}

/// The user id to query on one tracker account, as configured.
pub struct UserOptions {
    pub name: String,
    pub user: u32,
}

/// One monitored account: credentials, endpoint and user id together.
pub struct AccountConfig {
    pub name: String,
    pub key: String,
    pub url: String,
    pub user: u32,
}

/// Why the configuration could not be loaded.
pub enum ConfigError {
    /// The configuration source could not be read.
    Io(String),
    /// The configuration source could not be deserialized.
    Deserialization(String),
}

/// `a` pairs the credentials `c` with the user id of `u`.
pub open spec fn pairs(a: AccountConfig, c: ClientOptions, u: UserOptions) -> bool {
    &&& a.name@ == c.name@
    &&& a.key@ == c.key@
    &&& a.url@ == c.url@
    &&& a.user == u.user
}

/// `accounts` is the positional pairing of `clients` and `users`, cut to the
/// shorter of the two.
pub open spec fn zipped(
    clients: Seq<ClientOptions>,
    users: Seq<UserOptions>,
    accounts: Seq<AccountConfig>,
) -> bool {
    &&& accounts.len() == if clients.len() <= users.len() {
        clients.len()
    } else {
        users.len()
    }
    &&& forall|i: int|
        0 <= i < accounts.len() ==> #[trigger] pairs(accounts[i], clients[i], users[i])
}

/// Pairs the credentials list with the user-id list by position; the longer
/// list is cut to the length of the shorter.
pub fn zip_accounts(clients: &Vec<ClientOptions>, users: &Vec<UserOptions>) -> (r: Vec<
    AccountConfig,
>)
    ensures
        zipped(clients@, users@, r@),
{
    let n: usize = if clients.len() <= users.len() {
        clients.len()
    } else {
        users.len()
    };
    let mut accounts: Vec<AccountConfig> = Vec::new();
    let mut i: usize = 0;
    while i < n
        invariant
            n <= clients.len(),
            n <= users.len(),
            n == clients.len() || n == users.len(),
            i <= n,
            accounts.len() == i,
            forall|j: int|
                0 <= j < i ==> #[trigger] pairs(accounts@[j], clients@[j], users@[j]),
        decreases n - i,
    {
        let c = &clients[i];
        let account = AccountConfig {
            name: c.name.clone(),
            key: c.key.clone(),
            url: c.url.clone(),
            user: users[i].user,
        };
        accounts.push(account);
        i = i + 1;
    }
    accounts
}

/// Builds the account list from the two loaded configuration lists.
///
/// A failure to load either list is returned as it is, the credentials
/// list's first, and no account list is produced.
pub fn get_options(
    clients: Result<Vec<ClientOptions>, ConfigError>,
    users: Result<Vec<UserOptions>, ConfigError>,
) -> (r: Result<Vec<AccountConfig>, ConfigError>)
    ensures
        clients is Err ==> r == Err::<Vec<AccountConfig>, ConfigError>(clients->Err_0),
        clients is Ok && users is Err ==> r == Err::<Vec<AccountConfig>, ConfigError>(
            users->Err_0,
        ),
        r is Ok <==> clients is Ok && users is Ok,
        r is Ok ==> zipped(clients->Ok_0@, users->Ok_0@, r->Ok_0@),
{
    match clients {
        Err(e) => Err(e),
        Ok(c) => match users {
            Err(e) => Err(e),
            Ok(u) => Ok(zip_accounts(&c, &u)),
        },
    }
}

} // verus!
