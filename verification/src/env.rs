use vstd::prelude::*;

use crate::text::same_text;

verus! {

/// Where the server runs.
#[derive(Debug, Clone, Copy, PartialEq, Eq, Structural)]
pub enum Environment {
    /// On a developer's machine.
    Development,
    /// In production.
    Production,
}

impl Default for Environment {
    fn default() -> (environment: Self)
        ensures
            environment == Environment::Development,
    {
        Environment::Development
    }
}

/// The name of an environment.
pub open spec fn environment_name(environment: Environment) -> Seq<char> {
    match environment {
        Environment::Development => "development"@,
        Environment::Production => "production"@,
    }
}

/// The environment of that name, if it is an environment's name.
pub open spec fn named_environment(name: Seq<char>) -> Option<Environment> {
    if name == environment_name(Environment::Development) {
        Some(Environment::Development)
    } else if name == environment_name(Environment::Production) {
        Some(Environment::Production)
    } else {
        None
    }
}

/// The environment in which a build runs where nothing says otherwise: a
/// build with debug assertions in development, any other one in
/// production.
pub open spec fn build_environment(debug_assertions: bool) -> Environment {
    if debug_assertions {
        Environment::Development
    } else {
        Environment::Production
    }
}

impl Environment {
    /// The environment of that name, if it is an environment's name.
    pub fn from_str(name: &str) -> (parsed: Option<Environment>)
        ensures
            parsed == named_environment(name@),
    {
        if same_text(name, "development") {
            Some(Environment::Development)
        } else if same_text(name, "production") {
            Some(Environment::Production)
        } else {
            None
        }
    }

    /// The level from which the server logs where nothing says otherwise.
    pub fn log_level(self) -> (level: &'static str)
        ensures
            level@ == match self {
                Environment::Development => "debug"@,
                Environment::Production => "info"@,
            },
    {
        match self {
            Environment::Development => "debug",
            Environment::Production => "info",
        }
    }
}

/// The environment in which the server runs, given the value of the
/// variable `ENV`, if it is set, and whether the build has debug
/// assertions: the environment that the variable names, and that of the
/// build where the variable is not set or names none.
pub fn which(variable: Option<String>, debug_assertions: bool) -> (environment: Environment)
    ensures
        environment == match variable {
            Some(value) => match named_environment(value@) {
                Some(named) => named,
                None => build_environment(debug_assertions),
            },
            None => build_environment(debug_assertions),
        },
{
    let default_env = if debug_assertions {
        Environment::Development
    } else {
        Environment::Production
    };
    match variable {
        None => default_env,
        Some(value) => match Environment::from_str(value.as_str()) {
            Some(named) => named,
            None => default_env,
        },
    }
}

} // verus!
