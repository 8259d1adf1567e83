//! Command-line subcommands.

use vstd::prelude::*;

verus! {

/// A subcommand given on the command line.
pub enum Command {
    /// Generate and write a configuration file
    Init,
    /// Create an admin user
    CreateAdmin {
        /// Email of the admin user
        email: String,
        /// Nickname of the admin user (defaults to email)
        nickname: Option<String>,
        /// Password of the admin user
        password: String,
    },
}

impl Command {
    /// The nickname of the admin account that `create-admin` creates: the one
    /// given, or else its email. `None` for other subcommands.
    pub fn admin_nickname(&self) -> (r: Option<String>)
        ensures
            match self {
                Command::CreateAdmin { email, nickname, password } => r matches Some(n) && n@ == match nickname {
                    Some(x) => x@,
                    None => email@,
                },
                Command::Init => r is None,
            },
    {
        match self {
            Command::CreateAdmin { email, nickname, password: _ } => match nickname {
                Some(n) => Some(n.clone()),
                None => Some(email.clone()),
            },
            Command::Init => None,
        }
    }
}

/// Whether `create-admin` may create its account for `email`, given whether a
/// user already has that email: refused then, with the message the command
/// ends with.
pub fn admin_email_available(email: &str, email_taken: bool) -> (r: Result<(), String>)
    ensures
        email_taken ==> (r matches Err(m) && m@ == "A user with email '"@ + email@ + "' already exists"@),
        !email_taken ==> r is Ok,
{
    if email_taken {
        let mut m = String::from_str("A user with email '");
        m.append(email);
        m.append("' already exists");
        return Err(m);
    }
    Ok(())
}

} // verus!
