//! An in-memory backend seeded with user records, for tests and local runs.

use vstd::prelude::*;
use crate::access::AccessLevel;
use crate::data_source::{ConfigData, DataContext, DataSource, DataSourceError, ManagerConfig, UserContext};
use crate::user::{
    first_named, first_with_id, largest_id, max_id, password_digest, position_of_id, position_of_name, Password,
    User, UserDto,
};

verus! {

/// Copies a list of user records.
pub fn clone_users(users: &Vec<User>) -> (r: Vec<User>)
    ensures
        r@ == users@,
{
    let mut r: Vec<User> = Vec::new();
    let mut i: usize = 0;
    while i < users.len()
        invariant
            i <= users@.len(),
            r@ == users@.take(i as int),
        decreases users@.len() - i,
    {
        r.push(users[i].clone());
        assert(users@.take(i + 1) =~= users@.take(i as int).push(users@[i as int]));
        i = i + 1;
    }
    assert(users@.take(i as int) =~= users@);
    r
}

/// The seed of an in-memory backend: its records, and whether its health
/// probe and data access are to fail.
pub struct MemoryConfig {
    pub should_fail: bool,
    pub users: Vec<User>,
}

impl Clone for MemoryConfig {
    fn clone(&self) -> (r: MemoryConfig)
        ensures
            r.should_fail == self.should_fail,
            r.users@ == self.users@,
    {
        MemoryConfig { should_fail: self.should_fail, users: clone_users(&self.users) }
    }
}

impl Default for MemoryConfig {
    fn default() -> (r: MemoryConfig)
        ensures
            !r.should_fail,
            r.users@.len() == 0,
    {
        MemoryConfig { should_fail: false, users: Vec::new() }
    }
}

impl ConfigData for MemoryConfig {
}

impl ManagerConfig<MemoryConfig> for MemoryConfig {
    fn data(&self) -> (r: MemoryConfig)
        ensures
            r.should_fail == self.should_fail,
            r.users@ == self.users@,
    {
        self.clone()
    }
}

/// An in-memory backend over a copy of its seed records.
pub struct MemoryDataSource {
    pub config: MemoryConfig,
}

impl MemoryDataSource {
    fn unavailable() -> (r: DataSourceError)
        ensures
            r is ConnectionError,
    {
        DataSourceError::ConnectionError(String::from_str("memory backend set to fail"))
    }
}

impl DataSource<MemoryConfig> for MemoryDataSource {
    fn from_config<C: ManagerConfig<MemoryConfig>>(config: &C) -> (r: Result<Self, DataSourceError>)
        ensures
            r is Ok,
    {
        Ok(MemoryDataSource { config: config.data() })
    }
}

impl DataContext for MemoryDataSource {
    fn get_version(&mut self) -> (r: Result<String, DataSourceError>)
        ensures
            r is Ok <==> !old(self).config.should_fail,
            r is Err ==> r->Err_0 is ConnectionError,
            final(self).config.should_fail == old(self).config.should_fail,
            final(self).config.users@ == old(self).config.users@,
    {
        if self.config.should_fail {
            Err(Self::unavailable())
        } else {
            Ok(String::from_str("Memory"))
        }
    }
}

impl UserContext for MemoryDataSource {
    fn get_user_by_id(&mut self, id: u32) -> (r: Result<User, DataSourceError>)
        ensures
            old(self).config.should_fail ==> r is Err && r->Err_0 is ConnectionError,
            !old(self).config.should_fail && (forall|j: int|
                0 <= j < old(self).config.users@.len() ==> (#[trigger] old(self).config.users@[j]).id != id) ==> r
                == Err::<User, DataSourceError>(DataSourceError::NotFound),
            forall|i: int| #[trigger]
                first_with_id(old(self).config.users@, id, i) && !old(self).config.should_fail ==> r == Ok::<
                    User,
                    DataSourceError,
                >(old(self).config.users@[i]),
            final(self).config.should_fail == old(self).config.should_fail,
            final(self).config.users@ == old(self).config.users@,
    {
        if self.config.should_fail {
            return Err(Self::unavailable());
        }
        match position_of_id(&self.config.users, id) {
            Some(i) => Ok(self.config.users[i].clone()),
            None => Err(DataSourceError::NotFound),
        }
    }

    fn get_user_by_name(&mut self, name: String) -> (r: Result<User, DataSourceError>)
        ensures
            old(self).config.should_fail ==> r is Err && r->Err_0 is ConnectionError,
            !old(self).config.should_fail && (forall|j: int|
                0 <= j < old(self).config.users@.len() ==> (#[trigger] old(self).config.users@[j]).name@ != name@)
                ==> r == Err::<User, DataSourceError>(DataSourceError::NotFound),
            forall|i: int| #[trigger]
                first_named(old(self).config.users@, name@, i) && !old(self).config.should_fail ==> r == Ok::<
                    User,
                    DataSourceError,
                >(old(self).config.users@[i]),
            final(self).config.should_fail == old(self).config.should_fail,
            final(self).config.users@ == old(self).config.users@,
    {
        if self.config.should_fail {
            return Err(Self::unavailable());
        }
        match position_of_name(&self.config.users, name.as_str()) {
            Some(i) => Ok(self.config.users[i].clone()),
            None => Err(DataSourceError::NotFound),
        }
    }

    fn get_users(&mut self) -> (r: Result<Vec<User>, DataSourceError>)
        ensures
            old(self).config.should_fail ==> r is Err && r->Err_0 is ConnectionError,
            !old(self).config.should_fail ==> r is Ok && r->Ok_0@ == old(self).config.users@,
            final(self).config.should_fail == old(self).config.should_fail,
            final(self).config.users@ == old(self).config.users@,
    {
        if self.config.should_fail {
            return Err(Self::unavailable());
        }
        Ok(clone_users(&self.config.users))
    }

    fn update_user(&mut self, id: u32, user: &User) -> (r: Result<User, DataSourceError>)
        ensures
            old(self).config.should_fail ==> r is Err && r->Err_0 is ConnectionError,
            !old(self).config.should_fail && (forall|j: int|
                0 <= j < old(self).config.users@.len() ==> (#[trigger] old(self).config.users@[j]).id != id) ==> r
                == Err::<User, DataSourceError>(DataSourceError::NotFound),
            forall|i: int| #[trigger]
                first_with_id(old(self).config.users@, id, i) && !old(self).config.should_fail ==> {
                    &&& r == Ok::<User, DataSourceError>(User { id, ..*user })
                    &&& final(self).config.users@ == old(self).config.users@.update(i, User { id, ..*user })
                },
            r is Err ==> final(self).config.users@ == old(self).config.users@,
            final(self).config.should_fail == old(self).config.should_fail,
    {
        if self.config.should_fail {
            return Err(Self::unavailable());
        }
        match position_of_id(&self.config.users, id) {
            Some(i) => {
                let stored = User {
                    id,
                    name: user.name.clone(),
                    password: user.password.clone(),
                    access_level: user.access_level,
                    confirmed: user.confirmed,
                };
                self.config.users.set(i, stored.clone());
                Ok(stored)
            },
            None => Err(DataSourceError::NotFound),
        }
    }

    fn create_user(&mut self, credentials: &UserDto) -> (r: Result<User, DataSourceError>)
        ensures
            old(self).config.should_fail ==> r is Err && r->Err_0 is ConnectionError,
            !old(self).config.should_fail && max_id(old(self).config.users@) >= u32::MAX ==> r is Err
                && r->Err_0 is Backend,
            !old(self).config.should_fail && max_id(old(self).config.users@) < u32::MAX ==> {
                &&& r is Ok
                &&& r->Ok_0.id == max_id(old(self).config.users@) + 1
                &&& r->Ok_0.access_level == AccessLevel::Registered
                &&& !r->Ok_0.confirmed
                &&& r->Ok_0.password.hash@ == password_digest(credentials.password@, r->Ok_0.password.salt@)
                &&& final(self).config.users@ == old(self).config.users@.push(r->Ok_0)
            },
            r is Err ==> final(self).config.users@ == old(self).config.users@,
            final(self).config.should_fail == old(self).config.should_fail,
    {
        if self.config.should_fail {
            return Err(Self::unavailable());
        }
        let top = largest_id(&self.config.users);
        if top == u32::MAX {
            return Err(DataSourceError::Backend(String::from_str("no free user id")));
        }
        let user = User {
            id: top + 1,
            name: credentials.name.clone(),
            password: Password::new(credentials.password.clone()),
            access_level: AccessLevel::Registered,
            confirmed: false,
        };
        self.config.users.push(user.clone());
        Ok(user)
    }
}

} // verus!
