use vstd::prelude::*;
use crate::options::AccountConfig;
use crate::render::{
    lemma_line_breaks_add, lemma_rendered_line_count, line_breaks, render, rendered,
    renders_in_lines,
};
use crate::user::User;

verus! {

/// What a scrape does when the statistics of one account cannot be fetched.
#[derive(Clone, Copy, PartialEq, Eq, Structural)]
pub enum FailurePolicy {
    /// Leave the account out and go on with the rest.
    SkipAndContinue,
    /// Give up the whole scrape with an internal error.
    Abort,
}

/// A failed call to the tracker API.
pub struct ApiError {
    pub message: String,
}

/// The answer to a scrape: an HTTP status and a body.
pub struct Response {
    pub status: u16,
    pub body: String,
}

/// What the caller is to do next in a scrape.
pub enum Step {
    /// Fetch the statistics of the account at this index and report them with
    /// [`Scrape::on_result`].
    Fetch(usize),
    /// The scrape is over: send this response.
    Respond(Response),
}

/// Some account could not be fetched.
pub open spec fn has_failure(outcomes: Seq<Option<User>>) -> bool {
    exists|i: int| 0 <= i < outcomes.len() && #[trigger] outcomes[i] is None
}

/// The text of the accounts fetched so far: the fetched records rendered in
/// account order, failed accounts contributing nothing.
pub open spec fn scrape_body(accounts: Seq<AccountConfig>, outcomes: Seq<Option<User>>) -> Seq<
    char,
>
    decreases outcomes.len(),
{
    if outcomes.len() == 0 {
        Seq::empty()
    } else {
        let last = (outcomes.len() - 1) as int;
        scrape_body(accounts, outcomes.drop_last()) + match outcomes[last] {
            Some(u) => rendered(u, accounts[last].name@),
            None => Seq::empty(),
        }
    }
}

/// No more fetches are due: every account has been tried, or one failed
/// under [`FailurePolicy::Abort`].
pub open spec fn scrape_finished(
    policy: FailurePolicy,
    accounts: Seq<AccountConfig>,
    outcomes: Seq<Option<User>>,
) -> bool {
    outcomes.len() == accounts.len() || (policy is Abort && has_failure(outcomes))
}

/// The status of the response to a finished scrape.
pub open spec fn scrape_status(policy: FailurePolicy, outcomes: Seq<Option<User>>) -> u16 {
    if policy is Abort && has_failure(outcomes) {
        500
    } else {
        200
    }
}

/// The body of the response to a finished scrape: empty on an internal error.
pub open spec fn scrape_response_body(
    policy: FailurePolicy,
    accounts: Seq<AccountConfig>,
    outcomes: Seq<Option<User>>,
) -> Seq<char> {
    if policy is Abort && has_failure(outcomes) {
        Seq::empty()
    } else {
        scrape_body(accounts, outcomes)
    }
}

/// One scrape in progress: the accounts are fetched one by one in order, and
/// each result is handed back to the scrape, which decides what comes next.
pub struct Scrape {
    accounts: Vec<AccountConfig>,
    policy: FailurePolicy,
    fetched: usize,
    failed: bool,
    body: String,
    outcomes: Ghost<Seq<Option<User>>>,
}

impl Scrape {
    /// The accounts of this scrape, in order.
    pub closed spec fn accounts(&self) -> Seq<AccountConfig> {
        self.accounts@
    }

    /// The policy of this scrape.
    pub closed spec fn policy(&self) -> FailurePolicy {
        self.policy
    }

    /// The result of each account fetched so far: the record, or `None` where
    /// the fetch failed.
    pub closed spec fn outcomes(&self) -> Seq<Option<User>> {
        self.outcomes@
    }

    pub closed spec fn wf(&self) -> bool {
        &&& self.fetched == self.outcomes@.len()
        &&& self.outcomes@.len() <= self.accounts@.len()
        &&& self.failed == (self.policy is Abort && has_failure(self.outcomes@))
        &&& self.body@ == scrape_body(self.accounts@, self.outcomes@)
    }

    /// No more fetches are due.
    pub open spec fn finished(&self) -> bool {
        scrape_finished(self.policy(), self.accounts(), self.outcomes())
    }

    /// Starts a scrape of `accounts` under `policy`.
    pub fn new(accounts: Vec<AccountConfig>, policy: FailurePolicy) -> (r: Scrape)
        ensures
            r.wf(),
            r.accounts() == accounts@,
            r.policy() == policy,
            r.outcomes() == Seq::<Option<User>>::empty(),
    {
        Scrape {
            accounts,
            policy,
            fetched: 0,
            failed: false,
            body: String::new(),
            outcomes: Ghost(Seq::empty()),
        }
    }

    /// The account at index `i`.
    pub fn account(&self, i: usize) -> (r: &AccountConfig)
        requires
            i < self.accounts().len(),
        ensures
            *r == self.accounts()[i as int],
    {
        &self.accounts[i]
    }

    /// Decides the next step: fetch the next account, or answer with the
    /// response that the results so far call for.
    pub fn next_step(&self) -> (r: Step)
        requires
            self.wf(),
        ensures
            r is Respond <==> self.finished(),
            r is Fetch ==> r->Fetch_0 == self.outcomes().len(),
            r is Respond ==> r->Respond_0.status == scrape_status(self.policy(), self.outcomes()),
            r is Respond ==> r->Respond_0.body@ == scrape_response_body(
                self.policy(),
                self.accounts(),
                self.outcomes(),
            ),
    {
        let fetched = self.fetched;
        if self.failed {
            Step::Respond(Response { status: 500, body: String::new() })
        } else if fetched == self.accounts.len() {
            Step::Respond(Response { status: 200, body: self.body.clone() })
        } else {
            Step::Fetch(fetched)
        }
    }

    /// Takes the result of fetching the next account.
    pub fn on_result(&mut self, result: Result<User, ApiError>)
        requires
            old(self).wf(),
            !old(self).finished(),
        ensures
            final(self).wf(),
            final(self).accounts() == old(self).accounts(),
            final(self).policy() == old(self).policy(),
            final(self).outcomes() == old(self).outcomes().push(
                match result {
                    Ok(u) => Some(u),
                    Err(_) => None,
                },
            ),
    {
        let ghost before = self.outcomes@;
        let i = self.fetched;
        assert(i < self.accounts.len());
        match result {
            Ok(u) => {
                let text = render(&u, self.accounts[i].name.as_str());
                self.body.append(text.as_str());
                let ghost now = before.push(Some(u));
                self.outcomes = Ghost(now);
                assert(now.drop_last() =~= before);
                assert forall|j: int| 0 <= j < now.len() && #[trigger] now[j] is None implies 0
                    <= j < before.len() && before[j] is None by {}
            },
            Err(_) => {
                let ghost now = before.push(None);
                self.outcomes = Ghost(now);
                assert(now.drop_last() =~= before);
                assert(now[now.len() - 1] is None);
                if self.policy == FailurePolicy::Abort {
                    self.failed = true;
                }
            },
        }
        self.fetched = i + 1;
    }
}

} // verus!

verus! {

/// Every account was fetched; each record renders in whole lines, and the
/// optional perfect-FLAC count is present in all of them exactly when
/// `flacs_present`.
pub open spec fn all_fetched(
    accounts: Seq<AccountConfig>,
    outcomes: Seq<Option<User>>,
    flacs_present: bool,
) -> bool {
    forall|i: int|
        0 <= i < outcomes.len() ==> {
            &&& #[trigger] outcomes[i] is Some
            &&& renders_in_lines(outcomes[i]->Some_0, accounts[i].name@)
            &&& (outcomes[i]->Some_0.perfect_flacs is Some) == flacs_present
        }
}

proof fn lemma_scrape_body_line_breaks(
    accounts: Seq<AccountConfig>,
    outcomes: Seq<Option<User>>,
    flacs_present: bool,
)
    requires
        outcomes.len() <= accounts.len(),
        all_fetched(accounts, outcomes, flacs_present),
    ensures
        line_breaks(scrape_body(accounts, outcomes)) == outcomes.len() * if flacs_present {
            9nat
        } else {
            8nat
        },
    decreases outcomes.len(),
{
    if outcomes.len() > 0 {
        let last = (outcomes.len() - 1) as int;
        let prefix = outcomes.drop_last();
        assert forall|i: int| 0 <= i < prefix.len() implies {
            &&& #[trigger] prefix[i] is Some
            &&& renders_in_lines(prefix[i]->Some_0, accounts[i].name@)
            &&& (prefix[i]->Some_0.perfect_flacs is Some) == flacs_present
        } by {
            assert(prefix[i] == outcomes[i]);
        }
        lemma_scrape_body_line_breaks(accounts, prefix, flacs_present);
        assert(outcomes[last] is Some);
        let u = outcomes[last]->Some_0;
        lemma_rendered_line_count(u, accounts[last].name@);
        lemma_line_breaks_add(scrape_body(accounts, prefix), rendered(u, accounts[last].name@));
    }
}

/// A scrape in which no fetch failed answers 200, with nine lines per account
/// (eight where no record has the optional perfect-FLAC count), whatever the
/// policy.
pub proof fn lemma_successful_scrape_line_count(
    policy: FailurePolicy,
    accounts: Seq<AccountConfig>,
    outcomes: Seq<Option<User>>,
    flacs_present: bool,
)
    requires
        outcomes.len() == accounts.len(),
        all_fetched(accounts, outcomes, flacs_present),
    ensures
        scrape_finished(policy, accounts, outcomes),
        scrape_status(policy, outcomes) == 200,
        line_breaks(scrape_response_body(policy, accounts, outcomes)) == accounts.len() * if flacs_present {
            9nat
        } else {
            8nat
        },
{
    assert(!has_failure(outcomes));
    lemma_scrape_body_line_breaks(accounts, outcomes, flacs_present);
}

} // verus!
