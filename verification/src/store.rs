use vstd::prelude::*;

use crate::models::User;
use crate::models::UserForInsert;
use crate::models::UserV;

verus! {

/// Why the store refused an operation.
#[derive(Clone, Copy, Debug, PartialEq, Eq, Structural)]
pub enum StoreError {
    /// The unique-username constraint was violated.
    DuplicateUsername,
    /// No id is left to assign.
    Exhausted,
}

/// The relational table of user records, kept in memory: ids are assigned
/// from a counter, and usernames are unique.
pub struct UserStore {
    pub users: Vec<User>,
    pub next_id: i32,
}

impl View for UserStore {
    type V = Seq<UserV>;

    open spec fn view(&self) -> Seq<UserV> {
        self.users@.map_values(|u: User| u@)
    }
}

impl UserStore {
    /// The store's invariant: ids are positive, below the counter, and
    /// distinct, and usernames are distinct.
    pub open spec fn wf(self) -> bool {
        &&& forall|i: int, j: int|
            0 <= i < j < self@.len() ==> self@[i].id != self@[j].id
        &&& forall|i: int, j: int|
            0 <= i < j < self@.len() ==> self@[i].username != self@[j].username
        &&& forall|i: int| 0 <= i < self@.len() ==> 0 < #[trigger] self@[i].id < self.next_id
        &&& 0 < self.next_id
    }

    /// The id the next inserted record will get.
    pub open spec fn spec_next_id(self) -> int {
        self.next_id as int
    }

    /// Whether some record carries this username.
    pub open spec fn contains_username(self, name: Seq<char>) -> bool {
        exists|i: int| 0 <= i < self@.len() && #[trigger] self@[i].username == name
    }

    /// Whether some record carries this id.
    pub open spec fn contains_id(self, id: int) -> bool {
        exists|i: int| 0 <= i < self@.len() && #[trigger] self@[i].id == id
    }

    /// An empty store.
    pub fn new() -> (s: UserStore)
        ensures
            s.wf(),
            s@ =~= Seq::<UserV>::empty(),
            s.spec_next_id() == 1,
    {
        UserStore { users: Vec::new(), next_id: 1 }
    }

    /// How many records the store holds.
    pub fn len(&self) -> (n: usize)
        ensures
            n == self@.len(),
    {
        self.users.len()
    }

    /// Looks a record up by username; yields a copy of the unique match.
    pub fn find_by_username(&self, name: &str) -> (r: Option<User>)
        ensures
            r is Some <==> self.contains_username(name@),
            r matches Some(u) ==> u@.username == name@,
            r matches Some(u) ==> exists|i: int| 0 <= i < self@.len() && self@[i] == u@,
    {
        let name_string = name.to_owned();
        let n = self.users.len();
        let mut i: usize = 0;
        while i < n
            invariant
                0 <= i <= n,
                n == self@.len(),
                name_string@ == name@,
                forall|j: int| 0 <= j < i ==> #[trigger] self@[j].username != name@,
            decreases n - i,
        {
            if self.users[i].username.eq(&name_string) {
                let u = self.users[i].clone_record();
                proof {
                    assert(self@[i as int] == u@);
                    assert(self@[i as int].username == name@);
                }
                return Some(u);
            }
            i += 1;
        }
        None
    }

    /// Looks a record up by id; yields a copy of the unique match.
    pub fn find_by_id(&self, user_id: i32) -> (r: Option<User>)
        ensures
            r is Some <==> self.contains_id(user_id as int),
            r matches Some(u) ==> u@.id == user_id as int,
            r matches Some(u) ==> exists|i: int| 0 <= i < self@.len() && self@[i] == u@,
    {
        let n = self.users.len();
        let mut i: usize = 0;
        while i < n
            invariant
                0 <= i <= n,
                n == self@.len(),
                forall|j: int| 0 <= j < i ==> #[trigger] self@[j].id != user_id as int,
            decreases n - i,
        {
            if self.users[i].id == user_id {
                let u = self.users[i].clone_record();
                proof {
                    assert(self@[i as int] == u@);
                    assert(self@[i as int].id == user_id as int);
                }
                return Some(u);
            }
            i += 1;
        }
        None
    }

    /// Inserts a new record, enforcing the unique-username constraint; on
    /// success the record is appended with the next id.
    pub fn insert(&mut self, record: UserForInsert) -> (r: Result<i32, StoreError>)
        requires
            old(self).wf(),
        ensures
            final(self).wf(),
            r is Ok <==> (!old(self).contains_username(record.username@)
                && old(self).spec_next_id() < i32::MAX),
            r matches Ok(id) ==> !old(self).contains_username(record.username@)
                && id == old(self).spec_next_id()
                && final(self)@ =~= old(self)@.push(
                UserV {
                    id: id as int,
                    username: record.username@,
                    password_hash: record.password_hash@,
                },
            ),
            r == Err::<i32, StoreError>(StoreError::DuplicateUsername)
                <==> old(self).contains_username(record.username@),
            r == Err::<i32, StoreError>(StoreError::Exhausted)
                <==> (!old(self).contains_username(record.username@)
                && old(self).spec_next_id() == i32::MAX),
            r is Err ==> final(self)@ == old(self)@ && final(self).spec_next_id()
                == old(self).spec_next_id(),
    {
        if self.find_by_username(record.username.as_str()).is_some() {
            return Err(StoreError::DuplicateUsername);
        }
        if self.next_id == i32::MAX {
            return Err(StoreError::Exhausted);
        }
        let id = self.next_id;
        let user = User { id, username: record.username, password_hash: record.password_hash };
        proof {
            assert(forall|i: int|
                0 <= i < self@.len() ==> #[trigger] self@[i].username
                    != user@.username) by {
                assert(!self.contains_username(user@.username));
            }
        }
        self.users.push(user);
        self.next_id = id + 1;
        proof {
            assert(self@ =~= old(self)@.push(
                UserV {
                    id: id as int,
                    username: record.username@,
                    password_hash: record.password_hash@,
                },
            ));
        }
        Ok(id)
    }

    /// Deletes the record with this id, if any, and reports how many records
    /// went away (zero or one).
    pub fn delete_by_id(&mut self, user_id: i32) -> (count: usize)
        requires
            old(self).wf(),
        ensures
            final(self).wf(),
            !old(self).contains_id(user_id as int) ==> count == 0 && final(self)@ == old(self)@,
            old(self).contains_id(user_id as int) ==> count == 1 && (exists|i: int|
                0 <= i < old(self)@.len() && #[trigger] old(self)@[i].id == user_id as int
                    && final(self)@ =~= old(self)@.remove(i)),
            !final(self).contains_id(user_id as int),
            final(self).spec_next_id() == old(self).spec_next_id(),
    {
        let n = self.users.len();
        let mut i: usize = 0;
        while i < n
            invariant
                0 <= i <= n,
                n == self@.len(),
                self == old(self),
                self.wf(),
                forall|j: int| 0 <= j < i ==> #[trigger] self@[j].id != user_id as int,
            decreases n - i,
        {
            if self.users[i].id == user_id {
                let ghost prior = self@;
                proof {
                    assert(prior[i as int].id == user_id as int);
                    assert(old(self).contains_id(user_id as int));
                }
                self.users.remove(i);
                proof {
                    assert(self@ =~= prior.remove(i as int));
                    assert forall|k: int|
                        0 <= k < self@.len() implies #[trigger] self@[k].id != user_id as int by {
                        if k < i {
                            assert(self@[k] == prior[k]);
                        } else {
                            assert(self@[k] == prior[k + 1]);
                            assert(prior[i as int].id != prior[k + 1].id);
                        }
                    }
                    assert forall|a: int, b: int|
                        0 <= a < b < self@.len() implies #[trigger] self@[a].id
                        != #[trigger] self@[b].id && self@[a].username != self@[b].username by {
                        let oa: int = if a < i { a } else { a + 1 };
                        let ob: int = if b < i { b } else { b + 1 };
                        assert(self@[a] == prior[oa]);
                        assert(self@[b] == prior[ob]);
                        assert(0 <= oa < ob < prior.len());
                    }
                    assert forall|k: int|
                        0 <= k < self@.len() implies 0 < #[trigger] self@[k].id
                        < self.next_id by {
                        if k < i {
                            assert(self@[k] == prior[k]);
                        } else {
                            assert(self@[k] == prior[k + 1]);
                        }
                    }
                }
                return 1;
            }
            i += 1;
        }
        0
    }
}

} // verus!

