use vstd::prelude::*;

use crate::config::{listen_address, listen_address_of, MAX_CONNECTIONS};
use crate::error::{contains, lemma_message_contains_cause, StartupError};

verus! {

/// Where the startup sequence stands. The listen address is worked out from
/// the configuration up front and carried until the listener is bound.
pub enum Stage {
    /// Waiting for the configuration to be read.
    Configuring,
    /// A pool connection has been asked for.
    Connecting { addr: String },
    /// Pending migrations are being applied.
    Migrating { addr: String },
    /// The listener is being bound.
    Binding { addr: String },
    /// Requests are being served.
    Serving,
    /// Startup has ended, in success or failure; nothing more happens.
    Stopped,
}

/// What the outside world reports back to the sequence.
pub enum Event {
    /// The configuration was read: `DATABASE_URL` and `PORT`, each if set.
    Configured { database_url: Option<String>, port: Option<String> },
    /// The pool is up.
    Connected,
    /// The pool could not be built.
    ConnectFailed { cause: String },
    /// Every pending migration was applied.
    Migrated,
    /// A migration failed.
    MigrationFailed { cause: String },
    /// The listener is bound.
    Bound,
    /// The listener could not bind.
    BindFailed { cause: String },
    /// The server loop returned normally.
    ServerStopped,
    /// The server loop returned an error.
    ServerFailed { cause: String },
}

/// What the sequence asks the outside world to do next.
pub enum Action {
    /// Build a pool of at most `max_connections` connections to `url`.
    Connect { url: String, max_connections: u32 },
    /// Apply pending migrations through the pool.
    Migrate,
    /// Bind a listener to `addr`.
    Bind { addr: String },
    /// Serve requests on the bound listener.
    Serve,
    /// End the process, with the error if there is one.
    Exit { error: Option<StartupError> },
}

/// The `DATABASE_URL` setting, or the configuration error when it is absent.
pub fn database_url(var: Option<String>) -> (r: Result<String, StartupError>)
    ensures
        match var {
            Some(url) => r == Ok::<String, StartupError>(url),
            None => r == Err::<String, StartupError>(StartupError::MissingDatabaseUrl),
        },
{
    match var {
        Some(url) => Ok(url),
        None => Err(StartupError::MissingDatabaseUrl),
    }
}

/// `next` and `action` are what the sequence does on `event` in `stage`.
/// Each stage waits for the outcome of its own action; the first failure
/// ends startup with its error, and any event a stage does not wait for is
/// ignored.
pub open spec fn is_step(stage: Stage, event: Event, next: Stage, action: Option<Action>) -> bool {
    match (stage, event) {
        (Stage::Configuring, Event::Configured { database_url: None, port: _ }) => {
            &&& next == Stage::Stopped
            &&& action == Some(Action::Exit { error: Some(StartupError::MissingDatabaseUrl) })
        },
        (Stage::Configuring, Event::Configured { database_url: Some(url), port }) => {
            &&& next matches Stage::Connecting { addr } && addr@ == listen_address_of(port)
            &&& action == Some(Action::Connect { url, max_connections: MAX_CONNECTIONS })
        },
        (Stage::Connecting { addr }, Event::Connected) => {
            &&& next == Stage::Migrating { addr }
            &&& action == Some(Action::Migrate)
        },
        (Stage::Connecting { addr: _ }, Event::ConnectFailed { cause }) => {
            &&& next == Stage::Stopped
            &&& action == Some(Action::Exit { error: Some(StartupError::Connect { cause }) })
        },
        (Stage::Migrating { addr }, Event::Migrated) => {
            &&& next == Stage::Binding { addr }
            &&& action == Some(Action::Bind { addr })
        },
        (Stage::Migrating { addr: _ }, Event::MigrationFailed { cause }) => {
            &&& next == Stage::Stopped
            &&& action == Some(Action::Exit { error: Some(StartupError::Migrate { cause }) })
        },
        (Stage::Binding { addr: _ }, Event::Bound) => {
            &&& next == Stage::Serving
            &&& action == Some(Action::Serve)
        },
        (Stage::Binding { addr }, Event::BindFailed { cause }) => {
            &&& next == Stage::Stopped
            &&& action == Some(Action::Exit { error: Some(StartupError::Bind { addr, cause }) })
        },
        (Stage::Serving, Event::ServerStopped) => {
            &&& next == Stage::Stopped
            &&& action == Some(Action::Exit { error: None })
        },
        (Stage::Serving, Event::ServerFailed { cause }) => {
            &&& next == Stage::Stopped
            &&& action == Some(Action::Exit { error: Some(StartupError::Serve { cause }) })
        },
        _ => {
            &&& next == stage
            &&& action is None
        },
    }
}

/// Advances the startup sequence by one event.
pub fn step(stage: Stage, event: Event) -> (r: (Stage, Option<Action>))
    ensures
        is_step(stage, event, r.0, r.1),
{
    match (stage, event) {
        (Stage::Configuring, Event::Configured { database_url: var, port }) => {
            match database_url(var) {
                Err(e) => (Stage::Stopped, Some(Action::Exit { error: Some(e) })),
                Ok(url) => {
                    let addr = listen_address(port);
                    (Stage::Connecting { addr }, Some(Action::Connect { url, max_connections: MAX_CONNECTIONS }))
                },
            }
        },
        (Stage::Connecting { addr }, Event::Connected) => (Stage::Migrating { addr }, Some(Action::Migrate)),
        (Stage::Connecting { addr: _ }, Event::ConnectFailed { cause }) => {
            (Stage::Stopped, Some(Action::Exit { error: Some(StartupError::Connect { cause }) }))
        },
        (Stage::Migrating { addr }, Event::Migrated) => {
            let bind_addr = addr.clone();
            (Stage::Binding { addr }, Some(Action::Bind { addr: bind_addr }))
        },
        (Stage::Migrating { addr: _ }, Event::MigrationFailed { cause }) => {
            (Stage::Stopped, Some(Action::Exit { error: Some(StartupError::Migrate { cause }) }))
        },
        (Stage::Binding { addr: _ }, Event::Bound) => (Stage::Serving, Some(Action::Serve)),
        (Stage::Binding { addr }, Event::BindFailed { cause }) => {
            (Stage::Stopped, Some(Action::Exit { error: Some(StartupError::Bind { addr, cause }) }))
        },
        (Stage::Serving, Event::ServerStopped) => (Stage::Stopped, Some(Action::Exit { error: None })),
        (Stage::Serving, Event::ServerFailed { cause }) => {
            (Stage::Stopped, Some(Action::Exit { error: Some(StartupError::Serve { cause }) }))
        },
        (stage, _) => (stage, None),
    }
}

/// `stages`, `events` and `actions` record a run of the sequence: each event
/// moves one stage to the next and yields the action beside it.
pub open spec fn is_run(stages: Seq<Stage>, events: Seq<Event>, actions: Seq<Option<Action>>) -> bool {
    &&& stages.len() == events.len() + 1
    &&& actions.len() == events.len()
    &&& forall|i: int|
        0 <= i < events.len() ==> is_step(stages[i], #[trigger] events[i], stages[i + 1], actions[i])
}

/// Once stopped, a run stays stopped and asks for nothing more.
proof fn lemma_stopped_is_final(stages: Seq<Stage>, events: Seq<Event>, actions: Seq<Option<Action>>, k: int)
    requires
        is_run(stages, events, actions),
        0 <= k < stages.len(),
        stages[k] == Stage::Stopped,
    ensures
        forall|j: int| k <= j < stages.len() ==> stages[j] == Stage::Stopped,
        forall|j: int| k <= j < actions.len() ==> actions[j] is None,
    decreases stages.len() - k,
{
    if k + 1 < stages.len() {
        assert(is_step(stages[k], events[k], stages[k + 1], actions[k]));
        lemma_stopped_is_final(stages, events, actions, k + 1);
    }
}

/// Without a `DATABASE_URL`, startup exits with the configuration error at
/// once, and no connection to a database is ever asked for.
pub proof fn lemma_missing_url_never_connects(
    stages: Seq<Stage>,
    events: Seq<Event>,
    actions: Seq<Option<Action>>,
)
    requires
        is_run(stages, events, actions),
        stages[0] == Stage::Configuring,
        events.len() > 0,
        events[0] matches Event::Configured { database_url: None, .. },
    ensures
        actions[0] == Some(Action::Exit { error: Some(StartupError::MissingDatabaseUrl) }),
        forall|i: int| 0 <= i < actions.len() ==> !(#[trigger] actions[i] matches Some(Action::Connect { .. })),
{
    assert(is_step(stages[0], events[0], stages[1], actions[0]));
    lemma_stopped_is_final(stages, events, actions, 1);
}

/// When the database cannot be reached, startup exits with a connection
/// error whose message holds the underlying cause, and asks for nothing after.
pub proof fn lemma_unreachable_database_reports_cause(
    stages: Seq<Stage>,
    events: Seq<Event>,
    actions: Seq<Option<Action>>,
    url: String,
    port: Option<String>,
    cause: String,
)
    requires
        is_run(stages, events, actions),
        stages[0] == Stage::Configuring,
        events.len() >= 2,
        events[0] == (Event::Configured { database_url: Some(url), port }),
        events[1] == (Event::ConnectFailed { cause }),
    ensures
        actions[0] == Some(Action::Connect { url, max_connections: MAX_CONNECTIONS }),
        actions[1] == Some(Action::Exit { error: Some(StartupError::Connect { cause }) }),
        contains(StartupError::Connect { cause }.message_spec(), cause@),
        forall|i: int| 2 <= i < actions.len() ==> #[trigger] actions[i] is None,
{
    assert(is_step(stages[0], events[0], stages[1], actions[0]));
    assert(is_step(stages[1], events[1], stages[2], actions[1]));
    lemma_message_contains_cause(StartupError::Connect { cause });
    lemma_stopped_is_final(stages, events, actions, 2);
}

/// Stages that come only after the migrations have been applied.
pub open spec fn is_migrated(stage: Stage) -> bool {
    stage is Binding || stage is Serving
}

/// In a run, every stage from `Binding` on comes after a `Migrated` event.
proof fn lemma_migrated_before(stages: Seq<Stage>, events: Seq<Event>, actions: Seq<Option<Action>>, k: int)
    requires
        is_run(stages, events, actions),
        stages[0] == Stage::Configuring,
        0 <= k < stages.len(),
    ensures
        is_migrated(stages[k]) ==> exists|j: int| 0 <= j < k && #[trigger] events[j] is Migrated,
    decreases k,
{
    if k > 0 {
        lemma_migrated_before(stages, events, actions, k - 1);
        assert(is_step(stages[k - 1], events[k - 1], stages[k], actions[k - 1]));
        if is_migrated(stages[k]) && !is_migrated(stages[k - 1]) {
            assert(events[k - 1] is Migrated);
        }
    }
}

/// Requests are served only once the migrations have been applied: a run
/// that asks to serve has seen the `Migrated` event before.
pub proof fn lemma_serve_after_migrations(
    stages: Seq<Stage>,
    events: Seq<Event>,
    actions: Seq<Option<Action>>,
    i: int,
)
    requires
        is_run(stages, events, actions),
        stages[0] == Stage::Configuring,
        0 <= i < actions.len(),
        actions[i] == Some(Action::Serve),
    ensures
        exists|j: int| 0 <= j < i && #[trigger] events[j] is Migrated,
{
    assert(is_step(stages[i], events[i], stages[i + 1], actions[i]));
    lemma_migrated_before(stages, events, actions, i);
}

} // verus!
