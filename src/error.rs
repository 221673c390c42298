use vstd::prelude::*;

verus! {

/// Why startup stopped. Each variant is fatal: the process exits with its
/// message.
pub enum StartupError {
    /// `DATABASE_URL` is not set.
    MissingDatabaseUrl,
    /// The pool could not reach the database, or was refused by it.
    Connect { cause: String },
    /// A migration script failed; scripts already applied stay applied.
    Migrate { cause: String },
    /// The listener could not bind its address.
    Bind { addr: String, cause: String },
    /// The server loop ended with an error.
    Serve { cause: String },
}

/// `needle` occurs in `text` as a contiguous run.
pub open spec fn contains(text: Seq<char>, needle: Seq<char>) -> bool {
    exists|i: int| 0 <= i <= text.len() - needle.len() && #[trigger] text.subrange(i, i + needle.len()) == needle
}

impl StartupError {
    /// The text reported for this error.
    pub open spec fn message_spec(&self) -> Seq<char> {
        match self {
            StartupError::MissingDatabaseUrl => "DATABASE_URL environment variable must be set"@,
            StartupError::Connect { cause } => "failed to connect to database: "@ + cause@,
            StartupError::Migrate { cause } => "failed to run migrations: "@ + cause@,
            StartupError::Bind { addr, cause } => "failed to bind to "@ + addr@ + ": "@ + cause@,
            StartupError::Serve { cause } => "server error: "@ + cause@,
        }
    }

    /// Renders the error's text.
    pub fn message(&self) -> (r: String)
        ensures
            r@ == self.message_spec(),
    {
        match self {
            StartupError::MissingDatabaseUrl => String::from_str("DATABASE_URL environment variable must be set"),
            StartupError::Connect { cause } => {
                let mut m = String::from_str("failed to connect to database: ");
                m.append(cause.as_str());
                m
            },
            StartupError::Migrate { cause } => {
                let mut m = String::from_str("failed to run migrations: ");
                m.append(cause.as_str());
                m
            },
            StartupError::Bind { addr, cause } => {
                let mut m = String::from_str("failed to bind to ");
                m.append(addr.as_str());
                m.append(": ");
                m.append(cause.as_str());
                m
            },
            StartupError::Serve { cause } => {
                let mut m = String::from_str("server error: ");
                m.append(cause.as_str());
                m
            },
        }
    }
}

/// The message of an error that carries an underlying cause ends with that
/// cause, so the report always names what went wrong below.
pub proof fn lemma_message_contains_cause(e: StartupError)
    ensures
        e matches StartupError::Connect { cause } ==> contains(e.message_spec(), cause@),
        e matches StartupError::Migrate { cause } ==> contains(e.message_spec(), cause@),
        e matches StartupError::Bind { cause, .. } ==> contains(e.message_spec(), cause@),
        e matches StartupError::Serve { cause } ==> contains(e.message_spec(), cause@),
{
    let m = e.message_spec();
    match e {
        StartupError::Connect { cause } | StartupError::Migrate { cause } | StartupError::Serve { cause } => {
            let i = m.len() - cause@.len();
            assert(m.subrange(i, i + cause@.len()) =~= cause@);
        },
        StartupError::Bind { cause, .. } => {
            let i = m.len() - cause@.len();
            assert(m.subrange(i, i + cause@.len()) =~= cause@);
        },
        StartupError::MissingDatabaseUrl => {},
    }
}

} // verus!
