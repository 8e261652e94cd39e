//! What holds of every answer, stated over the index of a directory and the
//! answer that `resolve` gives.

use vstd::prelude::*;
use crate::directory::{index_of, UsersDatabaseUser, WebState};
use crate::web::{acct_prefix, normalized, outcome, resolve, WebfingerError, WebfingerParams, WebfingerResponse};

verus! {

/// `k` is the first position in `users` of an account with email `email`.
pub open spec fn first_holder(users: Seq<(Seq<char>, UsersDatabaseUser)>, email: Seq<char>, k: int) -> bool {
    &&& 0 <= k < users.len()
    &&& users[k].1.email@ == email
    &&& forall|m: int| 0 <= m < k ==> #[trigger] users[m].1.email@ != email
}

/// The index holds exactly the email addresses of the directory, and each of
/// them maps to the username of the first account that carries it.
pub proof fn lemma_index_of(users: Seq<(Seq<char>, UsersDatabaseUser)>, email: Seq<char>)
    ensures
        index_of(users).contains_key(email) <==> exists|i: int|
            0 <= i < users.len() && #[trigger] users[i].1.email@ == email,
        index_of(users).contains_key(email) ==> exists|k: int|
            first_holder(users, email, k) && index_of(users)[email] == #[trigger] users[k].0,
    decreases users.len(),
{
    if users.len() > 0 {
        let front = users.drop_last();
        let last = users.len() - 1;
        lemma_index_of(front, email);
        if exists|i: int| 0 <= i < users.len() && #[trigger] users[i].1.email@ == email {
            let i = choose|i: int| 0 <= i < users.len() && #[trigger] users[i].1.email@ == email;
            if i < last {
                assert(front[i].1.email@ == email);
            }
        }
        if index_of(front).contains_key(email) {
            let i = choose|i: int| 0 <= i < front.len() && #[trigger] front[i].1.email@ == email;
            assert(users[i].1.email@ == email);
            let k = choose|k: int| first_holder(front, email, k) && index_of(front)[email] == #[trigger] front[k].0;
            assert(first_holder(users, email, k)) by {
                assert forall|m: int| 0 <= m < k implies #[trigger] users[m].1.email@ != email by {
                    assert(front[m] == users[m]);
                };
            };
            assert(index_of(users)[email] == users[k].0);
        } else if users[last].1.email@ == email {
            assert(first_holder(users, email, last)) by {
                assert forall|m: int| 0 <= m < last implies #[trigger] users[m].1.email@ != email by {
                    assert(front[m] == users[m]);
                };
            };
            assert(index_of(users)[email] == users[last].0);
        }
    }
}

/// Every account of the directory is found under its `acct:` identifier, for
/// any relation and callback URL.
pub proof fn lemma_listed_account_resolves(
    users: Seq<(Seq<char>, UsersDatabaseUser)>,
    i: int,
    rel: Seq<char>,
    url: Seq<char>,
)
    requires
        0 <= i < users.len(),
    ensures
        resolve(index_of(users), url, rel, acct_prefix() + users[i].1.email@)
            == Ok::<_, Seq<char>>((acct_prefix() + users[i].1.email@, seq![(rel, url)])),
{
    let email = users[i].1.email@;
    let resource = acct_prefix() + email;
    assert(resource.take(5) =~= acct_prefix());
    assert(resource.skip(5) =~= email);
    assert(normalized(resource) == email);
    lemma_index_of(users, email);
}

/// The `acct:` prefix is optional: an account's bare email address is found
/// too, with the same link, where the address does not itself begin with
/// `acct:`.
pub proof fn lemma_bare_email_resolves(
    users: Seq<(Seq<char>, UsersDatabaseUser)>,
    i: int,
    rel: Seq<char>,
    url: Seq<char>,
)
    requires
        0 <= i < users.len(),
        !(users[i].1.email@.len() >= 5 && users[i].1.email@.take(5) == acct_prefix()),
    ensures
        resolve(index_of(users), url, rel, users[i].1.email@)
            == Ok::<_, Seq<char>>((users[i].1.email@, seq![(rel, url)])),
        resolve(index_of(users), url, rel, users[i].1.email@)->Ok_0.1
            == resolve(index_of(users), url, rel, acct_prefix() + users[i].1.email@)->Ok_0.1,
{
    lemma_index_of(users, users[i].1.email@);
    lemma_listed_account_resolves(users, i, rel, url);
}

/// An identifier whose address the index lacks is not found, and the failure
/// carries that address exactly.
pub proof fn lemma_unknown_account_not_found(
    directory: Map<Seq<char>, Seq<char>>,
    url: Seq<char>,
    rel: Seq<char>,
    resource: Seq<char>,
)
    requires
        !directory.contains_key(normalized(resource)),
    ensures
        resolve(directory, url, rel, resource) == Err::<(Seq<char>, Seq<(Seq<char>, Seq<char>)>), Seq<char>>(normalized(resource)),
{
}

/// Two answers to one query from one state are the same answer.
pub proof fn lemma_answer_repeats(
    data: WebState,
    params: WebfingerParams,
    first: Result<WebfingerResponse, WebfingerError>,
    second: Result<WebfingerResponse, WebfingerError>,
)
    requires
        outcome(first) == resolve(data.directory(), data.callback(), params.rel@, params.resource@),
        outcome(second) == resolve(data.directory(), data.callback(), params.rel@, params.resource@),
    ensures
        outcome(first) == outcome(second),
{
}

/// Where two accounts share an email address, the index maps it to exactly
/// one username: that of the first account in the directory's order that
/// carries it, which comes no later than either of the two.
pub proof fn lemma_shared_email_first_wins(users: Seq<(Seq<char>, UsersDatabaseUser)>, i: int, j: int)
    requires
        0 <= i < j < users.len(),
        users[i].1.email@ == users[j].1.email@,
    ensures
        index_of(users).contains_key(users[i].1.email@),
        exists|k: int|
            0 <= k <= i && first_holder(users, users[i].1.email@, k)
                && index_of(users)[users[i].1.email@] == #[trigger] users[k].0,
{
    let email = users[i].1.email@;
    lemma_index_of(users, email);
    let k = choose|k: int| first_holder(users, email, k) && index_of(users)[email] == #[trigger] users[k].0;
    assert(k <= i) by {
        if k > i {
            assert(users[i].1.email@ != email);
        }
    };
}

} // verus!
