//! The capabilities that every user-data backend offers, and the errors of
//! data access.

use vstd::prelude::*;
use crate::user::{User, UserDto};
use std::marker::PhantomData;

verus! {

/// Why a data access failed.
#[derive(Debug, Clone, PartialEq, Eq)]
pub enum DataSourceError {
    /// The backend has no configuration.
    NotConfigured,
    /// The backend could not be reached.
    ConnectionError(String),
    /// The record does not exist.
    NotFound,
    /// The pool could not provide a handle.
    PoolError(String),
    /// The backend itself reported a failure.
    Backend(String),
}


impl DataSourceError {
    /// Whether the error means the record is absent rather than a fault of the system.
    pub fn is_absence(&self) -> (r: bool)
        ensures
            r == (*self is NotFound),
    {
        match self {
            DataSourceError::NotFound => true,
            _ => false,
        }
    }

    /// The class of response the error becomes: 404 for an absent record, 500
    /// for any fault of the system.
    pub fn status_code(&self) -> (r: u16)
        ensures
            r == if *self is NotFound { 404u16 } else { 500u16 },
    {
        if self.is_absence() {
            404
        } else {
            500
        }
    }
}

/// The user records that a backend serves.
pub trait UserContext {
    /// The user with this id.
    fn get_user_by_id(&mut self, id: u32) -> (r: Result<User, DataSourceError>)
        ensures
            r is Ok ==> r->Ok_0.id == id,
    ;

    /// The user with this name.
    fn get_user_by_name(&mut self, name: String) -> (r: Result<User, DataSourceError>)
        ensures
            r is Ok ==> r->Ok_0.name@ == name@,
    ;

    /// Every user.
    fn get_users(&mut self) -> (r: Result<Vec<User>, DataSourceError>);

    /// Replaces the record of the user with this id; the stored record keeps the id.
    fn update_user(&mut self, id: u32, user: &User) -> (r: Result<User, DataSourceError>)
        ensures
            r is Ok ==> r->Ok_0.id == id,
    ;

    /// Stores a new user with these credentials.
    fn create_user(&mut self, credentials: &UserDto) -> (r: Result<User, DataSourceError>)
        ensures
            r is Ok ==> r->Ok_0.name@ == credentials.name@,
    ;
}

/// A backend handle: user records and a cheap probe of the backend's health.
pub trait DataContext: UserContext {
    /// The backend's version; a failure means the handle is no longer usable.
    fn get_version(&mut self) -> (r: Result<String, DataSourceError>);
}

/// The configuration data that a backend is built from.
pub trait ConfigData: Clone {
}

/// A configuration that hands out the data a backend is built from.
pub trait ManagerConfig<D: ConfigData> {
    fn data(&self) -> D;
}

/// A backend that can be built from its configuration.
pub trait DataSource<D: ConfigData>: DataContext + Sized {
    fn from_config<C: ManagerConfig<D>>(config: &C) -> Result<Self, DataSourceError>;
}

/// The backends that a deployment can choose from.
#[derive(Debug, Clone, Copy, PartialEq, Eq, Structural)]
pub enum DataContextProvider {
    Memory,
    Azure,
}

/// Builds and health-checks handles of backend `T` from configuration `C`.
pub struct DataSourceManager<T, C, D> {
    pub config: C,
    pub source: PhantomData<T>,
    pub data: PhantomData<D>,
}

impl<D: ConfigData, T: DataSource<D>, C: ManagerConfig<D>> DataSourceManager<T, C, D> {
    /// A manager for the given configuration.
    pub fn new(config: C) -> (r: Result<Self, DataSourceError>)
        ensures
            r is Ok && r->Ok_0.config == config,
    {
        Ok(DataSourceManager { config, source: PhantomData, data: PhantomData })
    }

    /// A new backend handle built from the configuration.
    pub fn get_data_source(&self) -> (r: Result<T, DataSourceError>) {
        T::from_config(&self.config)
    }

    /// A new handle for the pool; a failure is handed to the caller and no
    /// handle is kept.
    pub fn create(&self) -> (r: Result<T, DataSourceError>) {
        self.get_data_source()
    }

    /// Probes a handle that came back to the pool: the outcome is that of a
    /// call of the backend's version probe, without the version, so a failed
    /// probe gives its error and the pool discards the handle.
    pub fn recycle(&self, item: &mut T) -> (r: Result<(), DataSourceError>)
        ensures
            exists|a: (&mut T,), v: Result<String, DataSourceError>|
                #[trigger] call_ensures(T::get_version, a, v) && (r is Ok <==> v is Ok) && (v is Err ==> r
                    == Err::<(), DataSourceError>(v->Err_0)),
    {
        // Called through its function value, so that the outcome is recorded as
        // one that `get_version` can return.
        let probe_fn = T::get_version;
        let probe = probe_fn(item);
        match probe {
            Ok(_) => Ok(()),
            Err(e) => Err(e),
        }
    }
}

} // verus!
