//! The credential store: identity records, unique by email.

use crate::errors::StoreError;
use crate::models::{lift, NewUser, NewUserView, User, UserView};
use vstd::prelude::*;

verus! {

/// The store as a mathematical value: the records by email, and whether
/// the storage can be reached.
#[verifier::ext_equal]
pub struct StoreModel {
    pub rows: Map<Seq<char>, UserView>,
    pub available: bool,
}

impl StoreModel {
    /// Every record is filed under its own email, and there are finitely
    /// many of them.
    pub open spec fn wf(self) -> bool {
        &&& self.rows.dom().finite()
        &&& forall|email: Seq<char>| #[trigger]
            self.rows.contains_key(email) ==> self.rows[email].email == email
    }

    /// The reachable store without records.
    pub open spec fn empty() -> StoreModel {
        StoreModel { rows: Map::empty(), available: true }
    }

    /// Creation: refused with `Conflict` where the email is taken, else
    /// the record is filed with the defaults filled in, and handed back.
    /// A failed creation leaves the store as it was.
    pub open spec fn create(self, new_user: NewUserView) -> (StoreModel, Result<UserView, StoreError>) {
        if !self.available {
            (self, Err(StoreError::Unavailable))
        } else if self.rows.contains_key(new_user.email) {
            (self, Err(StoreError::Conflict))
        } else {
            (
                StoreModel { rows: self.rows.insert(new_user.email, new_user.row()), ..self },
                Ok(new_user.row()),
            )
        }
    }

    /// Lookup by email alone.
    pub open spec fn find_by_email(self, email: Seq<char>) -> Result<UserView, StoreError> {
        if !self.available {
            Err(StoreError::Unavailable)
        } else if self.rows.contains_key(email) {
            Ok(self.rows[email])
        } else {
            Err(StoreError::NotFound)
        }
    }

    /// Lookup by email and authentication key. An unknown email and a
    /// wrong key give the same answer.
    pub open spec fn find_by_email_and_key(
        self,
        email: Seq<char>,
        auth_key: Seq<char>,
    ) -> Result<UserView, StoreError> {
        if !self.available {
            Err(StoreError::Unavailable)
        } else if self.rows.contains_key(email) && self.rows[email].user_key == auth_key {
            Ok(self.rows[email])
        } else {
            Err(StoreError::NotFound)
        }
    }
}

/// No two records of `records` share an email.
spec fn distinct_emails(records: Seq<User>) -> bool {
    forall|i: int, j: int|
        0 <= i < j < records.len()
            ==> (#[trigger] records[i]).email@ != (#[trigger] records[j]).email@
}

/// The records of `records` by email.
spec fn rows_of(records: Seq<User>) -> Map<Seq<char>, UserView>
    decreases records.len(),
{
    if records.len() == 0 {
        Map::empty()
    } else {
        rows_of(records.drop_last()).insert(records.last().email@, records.last()@)
    }
}

/// With distinct emails, `rows_of` files exactly the records of the
/// sequence, each under its email.
proof fn lemma_rows_of(records: Seq<User>)
    requires
        distinct_emails(records),
    ensures
        rows_of(records).dom().finite(),
        rows_of(records).len() == records.len(),
        forall|email: Seq<char>| #[trigger]
            rows_of(records).contains_key(email) <==> exists|i: int|
                0 <= i < records.len() && (#[trigger] records[i]).email@ == email,
        forall|i: int|
            0 <= i < records.len() ==> rows_of(records)[(#[trigger] records[i]).email@]
                == records[i]@,
    decreases records.len(),
{
    if records.len() > 0 {
        let front = records.drop_last();
        let last = records.last();
        assert(distinct_emails(front)) by {
            assert forall|i: int, j: int| 0 <= i < j < front.len() implies (#[trigger] front[i]).email@
                != (#[trigger] front[j]).email@ by {
                assert(front[i] == records[i] && front[j] == records[j]);
            }
        }
        lemma_rows_of(front);
        assert(!rows_of(front).contains_key(last.email@)) by {
            if rows_of(front).contains_key(last.email@) {
                let i = choose|i: int| 0 <= i < front.len() && (#[trigger] front[i]).email@ == last.email@;
                assert(front[i] == records[i]);
                assert(records[records.len() - 1] == last);
            }
        }
        assert forall|email: Seq<char>| #[trigger]
            rows_of(records).contains_key(email) implies exists|i: int|
            0 <= i < records.len() && (#[trigger] records[i]).email@ == email by {
            if email == last.email@ {
                assert(records[records.len() - 1].email@ == email);
            } else {
                let i = choose|i: int| 0 <= i < front.len() && (#[trigger] front[i]).email@ == email;
                assert(front[i] == records[i]);
            }
        }
        assert forall|email: Seq<char>|
            (exists|i: int|
                0 <= i < records.len() && (#[trigger] records[i]).email@
                    == email) implies #[trigger] rows_of(records).contains_key(email) by {
            let i = choose|i: int| 0 <= i < records.len() && (#[trigger] records[i]).email@ == email;
            if i < front.len() {
                assert(front[i] == records[i]);
            }
        }
        assert forall|i: int| 0 <= i < records.len() implies rows_of(records)[(
        #[trigger] records[i]).email@] == records[i]@ by {
            if i < front.len() {
                assert(front[i] == records[i]);
                assert(records[records.len() - 1] == last);
            }
        }
    }
}

/// An in-memory credential store.
///
/// It keeps what a table with a uniqueness constraint on the email keeps,
/// and can be switched off to stand for a storage that cannot be reached.
pub struct CredentialStore {
    records: Vec<User>,
    available: bool,
}

impl View for CredentialStore {
    type V = StoreModel;

    closed spec fn view(&self) -> StoreModel {
        StoreModel { rows: rows_of(self.records@), available: self.available }
    }
}

impl CredentialStore {
    #[verifier::type_invariant]
    spec fn inv(self) -> bool {
        distinct_emails(self.records@)
    }

    /// A reachable store without records.
    pub fn new() -> (store: CredentialStore)
        ensures
            store@ == StoreModel::empty(),
            store@.wf(),
    {
        CredentialStore { records: Vec::new(), available: true }
    }

    /// Makes the storage reachable or unreachable. The records stay.
    pub fn set_available(&mut self, available: bool)
        ensures
            final(self)@ == (StoreModel { available, ..old(self)@ }),
    {
        proof {
            use_type_invariant(&*self);
        }
        self.available = available;
    }

    /// Whether the storage can be reached.
    pub fn is_available(&self) -> (available: bool)
        ensures
            available == self@.available,
    {
        self.available
    }

    /// The number of records.
    pub fn len(&self) -> (n: usize)
        ensures
            self@.wf(),
            n == self@.rows.len(),
    {
        proof {
            use_type_invariant(self);
            lemma_rows_of(self.records@);
        }
        self.records.len()
    }

    /// The place of the record with this email, if there is one.
    fn position(&self, email: &String) -> (found: Option<usize>)
        ensures
            found matches Some(i) ==> i < self.records@.len() && self.records@[i as int].email@
                == email@,
            found is None ==> !rows_of(self.records@).contains_key(email@),
    {
        proof {
            use_type_invariant(self);
            lemma_rows_of(self.records@);
        }
        let mut i: usize = 0;
        while i < self.records.len()
            invariant
                i <= self.records@.len(),
                forall|j: int| 0 <= j < i ==> (#[trigger] self.records@[j]).email@ != email@,
            decreases self.records@.len() - i,
        {
            if self.records[i].email == *email {
                return Some(i);
            }
            i += 1;
        }
        None
    }

    /// Creates the record for `new_user`, unless its email is taken.
    pub fn create(&mut self, new_user: NewUser) -> (created: Result<User, StoreError>)
        ensures
            (final(self)@, lift(created)) == old(self)@.create(new_user@),
            final(self)@.wf(),
    {
        proof {
            use_type_invariant(&*self);
            lemma_rows_of(self.records@);
        }
        if !self.available {
            return Err(StoreError::Unavailable);
        }
        if self.position(&new_user.email).is_some() {
            return Err(StoreError::Conflict);
        }
        let user = new_user.into_row();
        let stored = user.clone();
        let ghost before = self.records@;
        let mut records: Vec<User> = Vec::new();
        std::mem::swap(&mut records, &mut self.records);
        records.push(user);
        proof {
            assert(records@.drop_last() == before);
            assert(distinct_emails(records@)) by {
                assert forall|i: int, j: int| 0 <= i < j < records@.len() implies (
                #[trigger] records@[i]).email@ != (#[trigger] records@[j]).email@ by {
                    assert(records@[i] == before[i]);
                    if j < before.len() {
                        assert(records@[j] == before[j]);
                    }
                }
            }
            lemma_rows_of(records@);
        }
        self.records = records;
        Ok(stored)
    }

    /// The record with this email.
    pub fn find_by_email(&self, email: &String) -> (found: Result<User, StoreError>)
        ensures
            lift(found) == self@.find_by_email(email@),
            self@.wf(),
    {
        proof {
            use_type_invariant(self);
            lemma_rows_of(self.records@);
        }
        if !self.available {
            return Err(StoreError::Unavailable);
        }
        match self.position(email) {
            Some(i) => Ok(self.records[i].clone()),
            None => Err(StoreError::NotFound),
        }
    }

    /// The record with this email, if `auth_key` is its authentication key.
    pub fn find_by_email_and_key(
        &self,
        email: &String,
        auth_key: &String,
    ) -> (found: Result<User, StoreError>)
        ensures
            lift(found) == self@.find_by_email_and_key(email@, auth_key@),
            self@.wf(),
    {
        proof {
            use_type_invariant(self);
            lemma_rows_of(self.records@);
        }
        if !self.available {
            return Err(StoreError::Unavailable);
        }
        match self.position(email) {
            Some(i) => {
                if self.records[i].user_key == *auth_key {
                    Ok(self.records[i].clone())
                } else {
                    Err(StoreError::NotFound)
                }
            },
            None => Err(StoreError::NotFound),
        }
    }
}

} // verus!
