//! The user directory and the index from email address to username that is
//! built from it once, before any query is answered.

use vstd::prelude::*;

verus! {

/// One account of the user directory.
pub struct UsersDatabaseUser {
    pub disabled: bool,
    pub displayname: String,
    pub password: String,
    pub email: String,
    pub groups: Vec<String>,
}

/// The user directory: accounts keyed by username, in the order in which
/// they were inserted.
pub struct UsersDatabase {
    users: Vec<(String, UsersDatabaseUser)>,
}

impl View for UsersDatabase {
    type V = Seq<(Seq<char>, UsersDatabaseUser)>;

    closed spec fn view(&self) -> Seq<(Seq<char>, UsersDatabaseUser)> {
        self.users@.map_values(|e: (String, UsersDatabaseUser)| (e.0@, e.1))
    }
}

/// The index of a directory: each email address maps to the username of the
/// first account that carries it.
pub open spec fn index_of(users: Seq<(Seq<char>, UsersDatabaseUser)>) -> Map<Seq<char>, Seq<char>>
    decreases users.len(),
{
    if users.len() == 0 {
        Map::empty()
    } else {
        let earlier = index_of(users.drop_last());
        let email = users.last().1.email@;
        if earlier.contains_key(email) {
            earlier
        } else {
            earlier.insert(email, users.last().0)
        }
    }
}

impl UsersDatabase {
    /// An empty directory.
    pub fn new() -> (r: Self)
        ensures
            r@ == Seq::<(Seq<char>, UsersDatabaseUser)>::empty(),
    {
        let r = UsersDatabase { users: Vec::new() };
        assert(r@ =~= Seq::<(Seq<char>, UsersDatabaseUser)>::empty());
        r
    }

    /// Stores `user` under `username`. An account already stored under that
    /// username is replaced in place; otherwise the account is appended.
    pub fn insert(&mut self, username: String, user: UsersDatabaseUser)
        ensures
            match username_position(old(self)@, username@) {
                Some(i) => final(self)@ == old(self)@.update(i, (username@, user)),
                None => final(self)@ == old(self)@.push((username@, user)),
            },
    {
        let mut i: usize = 0;
        while i < self.users.len()
            invariant
                0 <= i <= self.users@.len(),
                self@ == old(self)@,
                forall|k: int| 0 <= k < i ==> #[trigger] self@[k].0 != username@,
            decreases self.users@.len() - i,
        {
            if self.users[i].0 == username {
                assert(is_first_position(old(self)@, username@, i as int));
                assert(username_position(old(self)@, username@) == Some(i as int)) by {
                    let j = choose|j: int| is_first_position(old(self)@, username@, j);
                    assert(j == i as int) by {
                        if j < i as int {
                            assert(old(self)@[j].0 != username@);
                        } else if j > i as int {
                            assert(old(self)@[i as int].0 != username@);
                        }
                    };
                };
                self.users.set(i, (username, user));
                assert(final(self)@ =~= old(self)@.update(i as int, (username@, user)));
                return;
            }
            i = i + 1;
        }
        assert(username_position(old(self)@, username@) == None::<int>) by {
            if exists|j: int| is_first_position(old(self)@, username@, j) {
                let j = choose|j: int| is_first_position(old(self)@, username@, j);
                assert(self@[j].0 != username@);
            }
        };
        self.users.push((username, user));
        assert(self@ =~= old(self)@.push((username@, user)));
    }
}

/// The first position of an account stored under `username`, if there is one.
pub open spec fn username_position(users: Seq<(Seq<char>, UsersDatabaseUser)>, username: Seq<char>) -> Option<int> {
    if exists|i: int| is_first_position(users, username, i) {
        Some(choose|i: int| is_first_position(users, username, i))
    } else {
        None
    }
}

/// `i` is the first position that holds an account stored under `username`.
pub open spec fn is_first_position(users: Seq<(Seq<char>, UsersDatabaseUser)>, username: Seq<char>, i: int) -> bool {
    &&& 0 <= i < users.len()
    &&& users[i].0 == username
    &&& forall|k: int| 0 <= k < i ==> #[trigger] users[k].0 != username
}

/// The map that a list of `(email, username)` entries stands for.
pub open spec fn entries_map(entries: Seq<(String, String)>) -> Map<Seq<char>, Seq<char>>
    decreases entries.len(),
{
    if entries.len() == 0 {
        Map::empty()
    } else {
        entries_map(entries.drop_last()).insert(entries.last().0@, entries.last().1@)
    }
}

/// No two entries share an email address.
pub open spec fn keys_unique(entries: Seq<(String, String)>) -> bool {
    forall|i: int, j: int|
        0 <= i < j < entries.len() ==> #[trigger] entries[i].0@ != #[trigger] entries[j].0@
}

proof fn lemma_entries_map_dom(entries: Seq<(String, String)>, key: Seq<char>)
    ensures
        entries_map(entries).contains_key(key) <==> exists|i: int|
            0 <= i < entries.len() && #[trigger] entries[i].0@ == key,
    decreases entries.len(),
{
    if entries.len() > 0 {
        let front = entries.drop_last();
        lemma_entries_map_dom(front, key);
        if entries_map(front).contains_key(key) {
            let i = choose|i: int| 0 <= i < front.len() && #[trigger] front[i].0@ == key;
            assert(entries[i].0@ == key);
        }
        if exists|i: int| 0 <= i < entries.len() && #[trigger] entries[i].0@ == key {
            let i = choose|i: int| 0 <= i < entries.len() && #[trigger] entries[i].0@ == key;
            if i < front.len() {
                assert(front[i].0@ == key);
            }
        }
    }
}

proof fn lemma_entries_map_value(entries: Seq<(String, String)>, i: int)
    requires
        keys_unique(entries),
        0 <= i < entries.len(),
    ensures
        entries_map(entries).contains_key(entries[i].0@),
        entries_map(entries)[entries[i].0@] == entries[i].1@,
    decreases entries.len(),
{
    let front = entries.drop_last();
    if i < entries.len() - 1 {
        assert(keys_unique(front)) by {
            assert forall|a: int, b: int| 0 <= a < b < front.len() implies front[a].0@ != front[b].0@ by {
                assert(entries[a].0@ != entries[b].0@);
            };
        };
        assert(front[i] == entries[i]);
        lemma_entries_map_value(front, i);
        assert(entries[i].0@ != entries.last().0@);
    }
}

/// The state that every query is answered from: the directory's index, from
/// email address to username, and the callback URL handed out for every
/// account.
pub struct WebState {
    config: Vec<(String, String)>,
    auth_url: String,
}

impl WebState {
    #[verifier::type_invariant]
    spec fn well_formed(&self) -> bool {
        keys_unique(self.config@)
    }

    /// The index, from email address to username.
    pub closed spec fn directory(&self) -> Map<Seq<char>, Seq<char>> {
        entries_map(self.config@)
    }

    /// The callback URL.
    pub closed spec fn callback(&self) -> Seq<char> {
        self.auth_url@
    }

    /// Builds the index of `db`. Where accounts share an email address, the
    /// first of them in the directory's order keeps it.
    pub fn new(db: UsersDatabase, auth_url: String) -> (r: Self)
        ensures
            r.directory() == index_of(db@),
            r.callback() == auth_url@,
    {
        let mut config: Vec<(String, String)> = Vec::new();
        let mut i: usize = 0;
        while i < db.users.len()
            invariant
                0 <= i <= db.users@.len(),
                keys_unique(config@),
                entries_map(config@) == index_of(db@.take(i as int)),
            decreases db.users@.len() - i,
        {
            let ghost prefix = db@.take(i as int);
            let ghost next = db@.take(i + 1);
            assert(next.drop_last() =~= prefix);
            assert(next.last() == db@[i as int]);
            let username = &db.users[i].0;
            let email = &db.users[i].1.email;
            let found = position_of(&config, email);
            proof {
                lemma_entries_map_dom(config@, email@);
            }
            if found.is_none() {
                let ghost before = config@;
                config.push((email.clone(), username.clone()));
                proof {
                    assert(config@.drop_last() =~= before);
                    assert forall|a: int, b: int| 0 <= a < b < config@.len() implies
                        config@[a].0@ != config@[b].0@ by {
                        if b == config@.len() - 1 {
                            assert(before[a].0@ != email@);
                        } else {
                            assert(before[a].0@ != before[b].0@);
                        }
                    };
                }
            }
            i = i + 1;
        }
        assert(db@.take(db@.len() as int) =~= db@);
        WebState { config, auth_url }
    }

    /// The callback URL.
    pub fn auth_url(&self) -> (r: String)
        ensures
            r@ == self.callback(),
    {
        self.auth_url.clone()
    }

    /// The username that owns `email`, if the index holds it.
    pub fn lookup(&self, email: &String) -> (r: Option<String>)
        ensures
            match r {
                Some(name) => self.directory().contains_key(email@)
                    && name@ == self.directory()[email@],
                None => !self.directory().contains_key(email@),
            },
    {
        proof {
            use_type_invariant(self);
            lemma_entries_map_dom(self.config@, email@);
        }
        match position_of(&self.config, email) {
            Some(i) => {
                proof {
                    lemma_entries_map_value(self.config@, i as int);
                }
                Some(self.config[i].1.clone())
            },
            None => None,
        }
    }
}

/// The first position of an entry for `email`.
fn position_of(entries: &Vec<(String, String)>, email: &String) -> (r: Option<usize>)
    ensures
        match r {
            Some(i) => i < entries@.len() && entries@[i as int].0@ == email@,
            None => forall|k: int| 0 <= k < entries@.len() ==> #[trigger] entries@[k].0@ != email@,
        },
{
    let mut i: usize = 0;
    while i < entries.len()
        invariant
            0 <= i <= entries@.len(),
            forall|k: int| 0 <= k < i ==> #[trigger] entries@[k].0@ != email@,
        decreases entries@.len() - i,
    {
        if entries[i].0 == *email {
            return Some(i);
        }
        i = i + 1;
    }
    None
}

} // verus!
