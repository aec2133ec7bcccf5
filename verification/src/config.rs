//! Where the store is to be found.

use vstd::prelude::*;
use crate::error::{AppError, AppErrorView};

verus! {

/// The most connections that the pool keeps open at a time.
pub const MAX_POOL_SIZE: u32 = 15;

/// The settings that say where the store is, each as it was found, or not
/// found, in the environment.
#[derive(Debug, Clone, PartialEq, Eq)]
pub struct Environment {
    pub database_url: Option<String>,
    pub host: Option<String>,
    pub port: Option<String>,
    pub user: Option<String>,
    pub password: Option<String>,
    pub database: Option<String>,
}

/// Mathematical model of an [`Environment`].
pub struct EnvironmentView {
    pub database_url: Option<Seq<char>>,
    pub host: Option<Seq<char>>,
    pub port: Option<Seq<char>>,
    pub user: Option<Seq<char>>,
    pub password: Option<Seq<char>>,
    pub database: Option<Seq<char>>,
}

impl DeepView for Environment {
    type V = EnvironmentView;

    open spec fn deep_view(&self) -> EnvironmentView {
        EnvironmentView {
            database_url: self.database_url.deep_view(),
            host: self.host.deep_view(),
            port: self.port.deep_view(),
            user: self.user.deep_view(),
            password: self.password.deep_view(),
            database: self.database.deep_view(),
        }
    }
}

impl View for Environment {
    type V = EnvironmentView;

    open spec fn view(&self) -> EnvironmentView {
        self.deep_view()
    }
}

/// A setting, or the value that stands in for it where it is not set.
pub open spec fn setting_or(setting: Option<Seq<char>>, fallback: Seq<char>) -> Seq<char> {
    match setting {
        Some(value) => value,
        None => fallback,
    }
}

impl EnvironmentView {
    /// The connection string that these settings amount to, where they
    /// amount to one: the URL where one is set, else the string put
    /// together from user, password, host, port and database, of which
    /// user, password and database must be set.
    pub open spec fn connection_string(self) -> Result<Seq<char>, AppErrorView> {
        if let Some(url) = self.database_url {
            Ok(url)
        } else if self.user is None {
            Err(AppErrorView::Environment("PGUSER must be set"@))
        } else if self.password is None {
            Err(AppErrorView::Environment("PGPASSWORD must be set"@))
        } else if self.database is None {
            Err(AppErrorView::Environment("PGDATABASE must be set"@))
        } else {
            Ok(
                "postgres://"@ + self.user->0 + ":"@ + self.password->0 + "@"@ + setting_or(
                    self.host,
                    "localhost"@,
                ) + ":"@ + setting_or(self.port, "5432"@) + "/"@ + self.database->0,
            )
        }
    }
}

/// How to reach the store.
#[derive(Debug, Clone, PartialEq, Eq)]
pub struct DatabaseConfig {
    pub connection_string: String,
}

impl DatabaseConfig {
    /// Works out the connection string from the settings of the
    /// environment. A URL, where one is set, is taken as it is. Otherwise
    /// user, password and database must be set; host and port stand at
    /// `localhost` and `5432` where they are not.
    pub fn from_env(env: &Environment) -> (out: Result<Self, AppError>)
        ensures
            match out {
                Ok(config) => env@.connection_string() == Ok::<Seq<char>, AppErrorView>(
                    config.connection_string@,
                ),
                Err(error) => env@.connection_string() == Err::<Seq<char>, AppErrorView>(error@),
            },
    {
        if let Some(url) = &env.database_url {
            return Ok(DatabaseConfig { connection_string: url.clone() });
        }
        let user = match &env.user {
            Some(user) => user,
            None => {
                return Err(AppError::Environment("PGUSER must be set".to_owned()));
            },
        };
        let password = match &env.password {
            Some(password) => password,
            None => {
                return Err(AppError::Environment("PGPASSWORD must be set".to_owned()));
            },
        };
        let database = match &env.database {
            Some(database) => database,
            None => {
                return Err(AppError::Environment("PGDATABASE must be set".to_owned()));
            },
        };
        let host = match &env.host {
            Some(host) => host.as_str(),
            None => "localhost",
        };
        let port = match &env.port {
            Some(port) => port.as_str(),
            None => "5432",
        };
        let mut connection_string = "postgres://".to_owned();
        connection_string.append(user.as_str());
        connection_string.append(":");
        connection_string.append(password.as_str());
        connection_string.append("@");
        connection_string.append(host);
        connection_string.append(":");
        connection_string.append(port);
        connection_string.append("/");
        connection_string.append(database.as_str());
        Ok(DatabaseConfig { connection_string })
    }
}

} // verus!
