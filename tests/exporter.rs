use rogue_coda::{
    get_options, push_decimal, render, zip_accounts, AccountConfig, ApiError, ClientOptions,
    ConfigError, FailurePolicy, Response, Scrape, Step, User, UserOptions, UserStats,
};

fn stats(uploaded: u64, downloaded: u64, ratio: &str, required_ratio: &str) -> UserStats {
    UserStats {
        uploaded,
        downloaded,
        ratio: ratio.to_owned(),
        required_ratio: required_ratio.to_owned(),
        perfect_flacs: 5,
        uploaded_count: 3,
        seeding: 1,
        leeching: 0,
        snatched: 7,
    }
}

fn alpha_user() -> User {
    User::from_gazelle(stats(100, 50, "2", "0.6"))
}

fn account(name: &str, user: u32) -> AccountConfig {
    AccountConfig {
        name: name.to_owned(),
        key: "k".to_owned(),
        url: "http://x".to_owned(),
        user,
    }
}

fn client(name: &str) -> ClientOptions {
    ClientOptions {
        name: name.to_owned(),
        key: format!("{name}-key"),
        url: format!("http://{name}"),
    }
}

fn user_options(name: &str, user: u32) -> UserOptions {
    UserOptions {
        name: name.to_owned(),
        user,
    }
}

/// Runs a scrape to its end, answering each fetch from `results` by account
/// index; returns the response and the indices that were fetched.
fn run(
    accounts: Vec<AccountConfig>,
    policy: FailurePolicy,
    results: Vec<Option<User>>,
) -> (Response, Vec<usize>) {
    let mut results: Vec<Option<Option<User>>> = results.into_iter().map(Some).collect();
    let mut scrape = Scrape::new(accounts, policy);
    let mut fetched = Vec::new();
    loop {
        match scrape.next_step() {
            Step::Fetch(i) => {
                fetched.push(i);
                let outcome = results[i].take().expect("each account is fetched once");
                let result = outcome.ok_or(ApiError {
                    message: "unauthorized".to_owned(),
                });
                scrape.on_result(result);
            }
            Step::Respond(response) => return (response, fetched),
        }
    }
}

const ALPHA_BODY: &str = "uploaded_bytes{name=\"alpha\"} 100\n\
downloaded_bytes{name=\"alpha\"} 50\n\
ratio{name=\"alpha\"} 2\n\
required_ratio{name=\"alpha\"} 0.6\n\
perfect_flacs{name=\"alpha\"} 5\n\
uploaded_count{name=\"alpha\"} 3\n\
seeding{name=\"alpha\"} 1\n\
leeching{name=\"alpha\"} 0\n\
snatched{name=\"alpha\"} 7\n";

#[test]
fn from_gazelle_copies_every_field() {
    let user = User::from_gazelle(stats(100, 50, "2", "0.6"));
    assert_eq!(user.uploaded_bytes, 100);
    assert_eq!(user.downloaded_bytes, 50);
    assert_eq!(user.ratio, "2");
    assert_eq!(user.required_ratio, "0.6");
    assert_eq!(user.perfect_flacs, Some(5));
    assert_eq!(user.uploaded_count, 3);
    assert_eq!(user.seeding, 1);
    assert_eq!(user.leeching, 0);
    assert_eq!(user.snatched, 7);
}

#[test]
fn render_single_account() {
    let body = render(&alpha_user(), "alpha");
    assert_eq!(body, ALPHA_BODY);
    assert_eq!(body.lines().count(), 9);
    assert!(body.lines().all(|l| l.contains("{name=\"alpha\"}")));
    assert!(body.lines().any(|l| l == "ratio{name=\"alpha\"} 2"));
}

#[test]
fn render_without_perfect_flacs_omits_its_line() {
    let mut user = alpha_user();
    user.perfect_flacs = None;
    let body = render(&user, "alpha");
    assert_eq!(body.lines().count(), 8);
    assert!(!body.contains("perfect_flacs"));
    assert!(body.starts_with("uploaded_bytes{name=\"alpha\"} 100\nd"));
}

#[test]
fn render_largest_counters() {
    let mut user = User::from_gazelle(stats(u64::MAX, 0, "inf", "0"));
    user.snatched = u32::MAX;
    let body = render(&user, "big");
    assert!(body.starts_with("uploaded_bytes{name=\"big\"} 18446744073709551615\n"));
    assert!(body.contains("downloaded_bytes{name=\"big\"} 0\n"));
    assert!(body.ends_with("snatched{name=\"big\"} 4294967295\n"));
}

#[test]
fn changing_one_field_changes_one_line() {
    let before = alpha_user();
    let mut after = alpha_user();
    after.seeding = 12;
    let a = render(&before, "alpha");
    let b = render(&after, "alpha");
    let differing: Vec<usize> = a
        .lines()
        .zip(b.lines())
        .enumerate()
        .filter(|(_, (x, y))| x != y)
        .map(|(i, _)| i)
        .collect();
    assert_eq!(differing, vec![6]);
    assert_eq!(b.lines().nth(6), Some("seeding{name=\"alpha\"} 12"));
}

#[test]
fn decimal_text() {
    let cases: Vec<(u64, &str)> = vec![
        (0, "0"),
        (7, "7"),
        (10, "10"),
        (1207152087233, "1207152087233"),
        (u64::MAX, "18446744073709551615"),
    ];
    for (n, text) in cases {
        let mut out = "x=".to_owned();
        push_decimal(&mut out, n);
        assert_eq!(out, format!("x={text}"));
    }
}

#[test]
fn zip_truncates_to_shorter_user_list() {
    let clients = vec![client("a"), client("b"), client("c")];
    let users = vec![user_options("a", 1), user_options("b", 2)];
    let accounts = zip_accounts(&clients, &users);
    assert_eq!(accounts.len(), 2);
    assert_eq!(accounts[0].name, "a");
    assert_eq!(accounts[0].key, "a-key");
    assert_eq!(accounts[0].url, "http://a");
    assert_eq!(accounts[0].user, 1);
    assert_eq!(accounts[1].name, "b");
    assert_eq!(accounts[1].user, 2);
}

#[test]
fn zip_pairs_by_position_not_name() {
    let clients = vec![client("a")];
    let users = vec![user_options("z", 9), user_options("a", 1)];
    let accounts = zip_accounts(&clients, &users);
    assert_eq!(accounts.len(), 1);
    assert_eq!(accounts[0].name, "a");
    assert_eq!(accounts[0].user, 9);
}

#[test]
fn three_credentials_two_ids_process_two_accounts() {
    let clients = vec![client("a"), client("b"), client("c")];
    let users = vec![user_options("a", 1), user_options("b", 2)];
    let accounts = get_options(Ok(clients), Ok(users)).ok().expect("both lists loaded");
    let (response, fetched) = run(accounts, FailurePolicy::SkipAndContinue, vec![
        Some(alpha_user()),
        Some(alpha_user()),
    ]);
    assert_eq!(fetched, vec![0, 1]);
    assert_eq!(response.status, 200);
    assert_eq!(response.body.lines().count(), 18);
}

#[test]
fn unreadable_credentials_give_io_error() {
    let users = vec![user_options("a", 1)];
    let r = get_options(Err(ConfigError::Io("no such file".to_owned())), Ok(users));
    match r {
        Err(ConfigError::Io(m)) => assert_eq!(m, "no such file"),
        _ => panic!("expected an I/O error"),
    }
}

#[test]
fn malformed_user_ids_give_deserialization_error() {
    let clients = vec![client("a"), client("b")];
    let r = get_options(Ok(clients), Err(ConfigError::Deserialization("bad".to_owned())));
    match r {
        Err(ConfigError::Deserialization(m)) => assert_eq!(m, "bad"),
        _ => panic!("expected a deserialization error"),
    }
}

#[test]
fn credentials_error_comes_first() {
    let r = get_options(
        Err(ConfigError::Deserialization("clients".to_owned())),
        Err(ConfigError::Io("users".to_owned())),
    );
    assert!(matches!(r, Err(ConfigError::Deserialization(m)) if m == "clients"));
}

#[test]
fn end_to_end_single_account() {
    let (response, fetched) =
        run(vec![account("alpha", 42)], FailurePolicy::SkipAndContinue, vec![Some(alpha_user())]);
    assert_eq!(fetched, vec![0]);
    assert_eq!(response.status, 200);
    assert_eq!(response.body, ALPHA_BODY);
}

#[test]
fn successful_scrape_has_nine_lines_per_account() {
    let accounts = vec![account("a", 1), account("b", 2), account("c", 3)];
    let results = vec![Some(alpha_user()), Some(alpha_user()), Some(alpha_user())];
    let (response, _) = run(accounts, FailurePolicy::Abort, results);
    assert_eq!(response.status, 200);
    assert_eq!(response.body.lines().count(), 27);
    let names: Vec<&str> = response
        .body
        .lines()
        .step_by(9)
        .map(|l| l.split('"').nth(1).unwrap_or(""))
        .collect();
    assert_eq!(names, vec!["a", "b", "c"]);
}

#[test]
fn successful_scrape_without_perfect_flacs_has_eight_lines_per_account() {
    let mut user = alpha_user();
    user.perfect_flacs = None;
    let mut other = alpha_user();
    other.perfect_flacs = None;
    let (response, _) = run(
        vec![account("a", 1), account("b", 2)],
        FailurePolicy::SkipAndContinue,
        vec![Some(user), Some(other)],
    );
    assert_eq!(response.body.lines().count(), 16);
}

#[test]
fn skip_policy_keeps_surviving_account() {
    let (response, fetched) = run(
        vec![account("beta", 1), account("alpha", 42)],
        FailurePolicy::SkipAndContinue,
        vec![None, Some(alpha_user())],
    );
    assert_eq!(fetched, vec![0, 1]);
    assert_eq!(response.status, 200);
    assert_eq!(response.body.lines().count(), 9);
    assert_eq!(response.body, ALPHA_BODY);
}

#[test]
fn abort_policy_answers_internal_error() {
    let (response, fetched) = run(
        vec![account("beta", 1), account("alpha", 42)],
        FailurePolicy::Abort,
        vec![None, Some(alpha_user())],
    );
    assert_eq!(fetched, vec![0]);
    assert_eq!(response.status, 500);
    assert_eq!(response.body, "");
}

#[test]
fn abort_policy_after_success_discards_body() {
    let (response, fetched) = run(
        vec![account("alpha", 42), account("beta", 1)],
        FailurePolicy::Abort,
        vec![Some(alpha_user()), None],
    );
    assert_eq!(fetched, vec![0, 1]);
    assert_eq!(response.status, 500);
    assert_eq!(response.body, "");
}

#[test]
fn no_accounts_answers_empty_body() {
    let (response, fetched) = run(Vec::new(), FailurePolicy::SkipAndContinue, Vec::new());
    assert!(fetched.is_empty());
    assert_eq!(response.status, 200);
    assert_eq!(response.body, "");
}

#[test]
fn scrape_exposes_accounts_in_order() {
    let scrape = Scrape::new(vec![account("a", 1), account("b", 2)], FailurePolicy::Abort);
    assert_eq!(scrape.account(1).name, "b");
    assert_eq!(scrape.account(1).user, 2);
    assert!(matches!(scrape.next_step(), Step::Fetch(0)));
}
