use web_starter::config::{listen_address, MAX_CONNECTIONS};
use web_starter::error::StartupError;
use web_starter::startup::{database_url, step, Action, Event, Stage};

fn configured(url: Option<&str>, port: Option<&str>) -> Event {
    Event::Configured {
        database_url: url.map(|u| u.to_string()),
        port: port.map(|p| p.to_string()),
    }
}

#[test]
fn listen_address_defaults_to_port_8000() {
    assert_eq!(listen_address(None), "0.0.0.0:8000");
}

#[test]
fn listen_address_uses_configured_port() {
    assert_eq!(listen_address(Some("3000".to_string())), "0.0.0.0:3000");
}

#[test]
fn database_url_present_is_returned() {
    let r = database_url(Some("postgres://db/app".to_string()));
    assert!(matches!(r, Ok(ref u) if u == "postgres://db/app"));
}

#[test]
fn database_url_absent_is_configuration_error() {
    let r = database_url(None);
    assert!(matches!(r, Err(StartupError::MissingDatabaseUrl)));
}

#[test]
fn missing_url_exits_without_connecting() {
    let (stage, action) = step(Stage::Configuring, configured(None, Some("9000")));
    assert!(matches!(stage, Stage::Stopped));
    match action {
        Some(Action::Exit { error: Some(e) }) => {
            assert!(matches!(e, StartupError::MissingDatabaseUrl));
            assert_eq!(e.message(), "DATABASE_URL environment variable must be set");
        }
        _ => panic!("expected an exit with the configuration error"),
    }
    // a stopped sequence asks for nothing more, whatever is reported
    let (stage, action) = step(stage, Event::Connected);
    assert!(matches!(stage, Stage::Stopped));
    assert!(action.is_none());
}

#[test]
fn unreachable_database_reports_cause() {
    let (stage, action) = step(Stage::Configuring, configured(Some("postgres://nowhere/db"), None));
    match action {
        Some(Action::Connect { url, max_connections }) => {
            assert_eq!(url, "postgres://nowhere/db");
            assert_eq!(max_connections, 5);
        }
        _ => panic!("expected a connect action"),
    }
    let cause = "connection refused (os error 111)".to_string();
    let (stage, action) = step(stage, Event::ConnectFailed { cause: cause.clone() });
    assert!(matches!(stage, Stage::Stopped));
    match action {
        Some(Action::Exit { error: Some(e) }) => {
            assert!(matches!(e, StartupError::Connect { .. }));
            let m = e.message();
            assert_eq!(m, "failed to connect to database: connection refused (os error 111)");
            assert!(m.contains(&cause));
        }
        _ => panic!("expected an exit with the connection error"),
    }
}

#[test]
fn pool_is_capped_at_five_connections() {
    assert_eq!(MAX_CONNECTIONS, 5);
}

#[test]
fn full_startup_connects_migrates_binds_and_serves() {
    let (stage, action) = step(Stage::Configuring, configured(Some("postgres://db/app"), None));
    assert!(matches!(action, Some(Action::Connect { .. })));
    let (stage, action) = step(stage, Event::Connected);
    assert!(matches!(action, Some(Action::Migrate)));
    let (stage, action) = step(stage, Event::Migrated);
    match action {
        Some(Action::Bind { ref addr }) => assert_eq!(addr, "0.0.0.0:8000"),
        _ => panic!("expected a bind action"),
    }
    let (stage, action) = step(stage, Event::Bound);
    assert!(matches!(action, Some(Action::Serve)));
    let (stage, action) = step(stage, Event::ServerStopped);
    assert!(matches!(stage, Stage::Stopped));
    assert!(matches!(action, Some(Action::Exit { error: None })));
}

#[test]
fn migration_failure_stops_before_binding() {
    let (stage, _) = step(Stage::Configuring, configured(Some("postgres://db/app"), None));
    let (stage, _) = step(stage, Event::Connected);
    let (stage, action) = step(stage, Event::MigrationFailed { cause: "syntax error".to_string() });
    assert!(matches!(stage, Stage::Stopped));
    match action {
        Some(Action::Exit { error: Some(e) }) => {
            assert_eq!(e.message(), "failed to run migrations: syntax error")
        }
        _ => panic!("expected an exit with the migration error"),
    }
}

#[test]
fn bind_failure_names_address_and_cause() {
    let (stage, _) = step(Stage::Configuring, configured(Some("postgres://db/app"), Some("80")));
    let (stage, _) = step(stage, Event::Connected);
    let (stage, _) = step(stage, Event::Migrated);
    let (stage, action) = step(stage, Event::BindFailed { cause: "permission denied".to_string() });
    assert!(matches!(stage, Stage::Stopped));
    match action {
        Some(Action::Exit { error: Some(e) }) => {
            assert_eq!(e.message(), "failed to bind to 0.0.0.0:80: permission denied")
        }
        _ => panic!("expected an exit with the bind error"),
    }
}

#[test]
fn server_failure_is_reported() {
    let (stage, action) = step(Stage::Serving, Event::ServerFailed { cause: "accept failed".to_string() });
    assert!(matches!(stage, Stage::Stopped));
    match action {
        Some(Action::Exit { error: Some(e) }) => assert_eq!(e.message(), "server error: accept failed"),
        _ => panic!("expected an exit with the server error"),
    }
}

#[test]
fn unexpected_event_is_ignored() {
    let (stage, action) = step(Stage::Configuring, Event::Migrated);
    assert!(matches!(stage, Stage::Configuring));
    assert!(action.is_none());
    let (stage, action) = step(Stage::Binding { addr: "0.0.0.0:1".to_string() }, Event::Connected);
    assert!(matches!(stage, Stage::Binding { ref addr } if addr == "0.0.0.0:1"));
    assert!(action.is_none());
}
