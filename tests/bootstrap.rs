use momentum::cli::{Cli, Commands};
use momentum::config::{ApplicationConfig, Config, DatabaseConfig, ServerConfig};
use momentum::health::health_reply;
use momentum::db::{
    canonical_url, check_pool, descriptor_path_of, needs_working_dir, pool_settings, resolve_path,
    DbError, FsOp, ACQUIRE_TIMEOUT_SECS, MAX_CONNECTIONS,
};
use momentum::provision::{
    CreateOutcome, FsAction, FsEvent, ParentStatus, Provisioner, Stage, OWNER_RW,
};

fn config_with_path(path: &str) -> Config {
    Config {
        server: ServerConfig { host: "127.0.0.1".to_string(), port: 8080 },
        database: DatabaseConfig { path: path.to_string() },
        application: ApplicationConfig { name: "Momentum".to_string() },
    }
}

fn resolved(descriptor: &str, cwd: Option<&str>) -> String {
    match resolve_path(descriptor, cwd.map(|c| c.to_string())) {
        Ok(p) => p,
        Err(e) => panic!("unexpected error {:?}", e),
    }
}

#[test]
fn database_url_prepends_scheme() {
    assert_eq!(config_with_path("data/app.db").database_url(), "sqlite:data/app.db");
    assert_eq!(config_with_path("/var/lib/m.db").database_url(), "sqlite:/var/lib/m.db");
    assert_eq!(config_with_path("").database_url(), "sqlite:");
}

#[test]
fn relative_descriptor_joins_working_dir() {
    assert_eq!(resolved("sqlite:data/app.db", Some("/srv/app")), "/srv/app/data/app.db");
}

#[test]
fn both_descriptor_forms_resolve_alike() {
    for p in ["data/app.db", "/abs/app.db", "app.db", "a/b/c.db"] {
        let bare = format!("sqlite:{}", p);
        let with_marker = format!("sqlite://{}", p);
        assert_eq!(resolved(&bare, Some("/srv/app")), resolved(&with_marker, Some("/srv/app")));
    }
    assert_eq!(resolved("sqlite://data/app.db", Some("/srv/app")), "/srv/app/data/app.db");
}

#[test]
fn absolute_descriptor_is_used_verbatim() {
    assert_eq!(resolved("sqlite:/abs/app.db", Some("/srv/app")), "/abs/app.db");
    assert_eq!(resolved("sqlite:/abs/app.db", None), "/abs/app.db");
    assert_eq!(resolved("sqlite:///abs/app.db", None), "/abs/app.db");
}

#[test]
fn working_dir_with_trailing_separator() {
    assert_eq!(resolved("sqlite:app.db", Some("/srv/app/")), "/srv/app/app.db");
    assert_eq!(resolved("sqlite:app.db", Some("/")), "/app.db");
}

#[test]
fn relative_descriptor_without_working_dir_fails() {
    assert!(matches!(resolve_path("sqlite:data/app.db", None), Err(DbError::Environment)));
    assert!(needs_working_dir("sqlite:data/app.db"));
    assert!(!needs_working_dir("sqlite:/abs/app.db"));
}

#[test]
fn repeated_prefixes_are_all_stripped() {
    assert_eq!(descriptor_path_of("sqlite:sqlite:x.db"), "x.db");
    assert_eq!(descriptor_path_of("sqlite:////x.db"), "x.db");
    assert_eq!(descriptor_path_of("data/app.db"), "data/app.db");
    assert_eq!(descriptor_path_of(""), "");
}

#[test]
fn canonical_url_uses_bare_form() {
    assert_eq!(canonical_url("/srv/app/data/app.db"), "sqlite:/srv/app/data/app.db");
    let s = pool_settings("/srv/app/data/app.db");
    assert_eq!(s.url, "sqlite:/srv/app/data/app.db");
    assert_eq!(s.max_connections, 5);
    assert_eq!(s.acquire_timeout_secs, 3);
    assert_eq!(MAX_CONNECTIONS, 5);
    assert_eq!(ACQUIRE_TIMEOUT_SECS, 3);
}

#[test]
fn pool_must_open_and_answer() {
    assert!(check_pool("sqlite:/a.db", true, true).is_ok());
    for (opened, answered) in [(false, false), (true, false), (false, true)] {
        match check_pool("sqlite:/a.db", opened, answered) {
            Err(DbError::Connection { url }) => assert_eq!(url, "sqlite:/a.db"),
            other => panic!("unexpected {:?}", other),
        }
    }
}

fn drive(enforce: bool, events: &[FsEvent]) -> (Vec<FsAction>, Stage) {
    let mut p = Provisioner::new(enforce);
    let mut actions = Vec::new();
    for ev in events {
        assert!(p.accepts(*ev));
        actions.push(p.step(*ev));
    }
    (actions, p.stage)
}

#[test]
fn new_file_in_missing_directory() {
    let (actions, stage) = drive(
        true,
        &[
            FsEvent::Start,
            FsEvent::ParentChecked(ParentStatus::Missing),
            FsEvent::DirCreated(true),
            FsEvent::FileChecked(false),
            FsEvent::Created(CreateOutcome::Created),
        ],
    );
    assert_eq!(
        actions,
        vec![
            FsAction::CheckParent,
            FsAction::CreateParentDirs,
            FsAction::CheckFile,
            FsAction::CreateExclusive(Some(0o600)),
            FsAction::Finish,
        ]
    );
    assert_eq!(stage, Stage::Done);
    assert!(!actions.iter().any(|a| matches!(a, FsAction::SetMode(_))));
}

#[test]
fn group_readable_file_is_restricted() {
    let (actions, stage) = drive(
        true,
        &[
            FsEvent::Start,
            FsEvent::ParentChecked(ParentStatus::Present),
            FsEvent::FileChecked(true),
            FsEvent::ModeRead(Some(0o100640)),
            FsEvent::ModeSet(true),
        ],
    );
    assert_eq!(
        actions,
        vec![
            FsAction::CheckParent,
            FsAction::CheckFile,
            FsAction::ReadMode,
            FsAction::SetMode(0o600),
            FsAction::Finish,
        ]
    );
    assert_eq!(stage, Stage::Done);
}

#[test]
fn correct_mode_is_left_alone() {
    for mode in [0o600, 0o100600] {
        let (actions, stage) = drive(
            true,
            &[
                FsEvent::Start,
                FsEvent::ParentChecked(ParentStatus::Present),
                FsEvent::FileChecked(true),
                FsEvent::ModeRead(Some(mode)),
            ],
        );
        assert_eq!(actions.last(), Some(&FsAction::Finish));
        assert!(!actions.iter().any(|a| matches!(a, FsAction::SetMode(_))));
        assert_eq!(stage, Stage::Done);
    }
}

#[test]
fn executable_or_setuid_bits_are_corrected() {
    for mode in [0o700, 0o4600, 0o100644, 0o000] {
        let (actions, _) = drive(
            true,
            &[
                FsEvent::Start,
                FsEvent::ParentChecked(ParentStatus::Present),
                FsEvent::FileChecked(true),
                FsEvent::ModeRead(Some(mode)),
            ],
        );
        assert_eq!(actions.last(), Some(&FsAction::SetMode(OWNER_RW)));
    }
}

#[test]
fn lost_creation_race_checks_mode() {
    let (actions, stage) = drive(
        true,
        &[
            FsEvent::Start,
            FsEvent::ParentChecked(ParentStatus::Present),
            FsEvent::FileChecked(false),
            FsEvent::Created(CreateOutcome::AlreadyExists),
            FsEvent::ModeRead(Some(0o100600)),
        ],
    );
    assert_eq!(
        actions,
        vec![
            FsAction::CheckParent,
            FsAction::CheckFile,
            FsAction::CreateExclusive(Some(0o600)),
            FsAction::ReadMode,
            FsAction::Finish,
        ]
    );
    assert_eq!(stage, Stage::Done);
}

#[test]
fn root_target_skips_directory_creation() {
    let (actions, _) = drive(true, &[FsEvent::Start, FsEvent::ParentChecked(ParentStatus::NoParent)]);
    assert_eq!(actions, vec![FsAction::CheckParent, FsAction::CheckFile]);
}

#[test]
fn without_permission_model_only_existence_matters() {
    let (actions, stage) = drive(
        false,
        &[
            FsEvent::Start,
            FsEvent::ParentChecked(ParentStatus::Present),
            FsEvent::FileChecked(false),
            FsEvent::Created(CreateOutcome::AlreadyExists),
        ],
    );
    assert_eq!(actions[2], FsAction::CreateExclusive(None));
    assert_eq!(actions[3], FsAction::Finish);
    assert_eq!(stage, Stage::Done);
    let (actions, _) = drive(false, &[FsEvent::Start, FsEvent::ParentChecked(ParentStatus::Present), FsEvent::FileChecked(true)]);
    assert_eq!(actions[2], FsAction::Finish);
}

#[test]
fn each_failure_names_its_operation() {
    let cases = [
        (vec![FsEvent::Start, FsEvent::ParentChecked(ParentStatus::Missing), FsEvent::DirCreated(false)], FsOp::CreateDir),
        (vec![FsEvent::Start, FsEvent::ParentChecked(ParentStatus::Present), FsEvent::FileChecked(false), FsEvent::Created(CreateOutcome::Failed)], FsOp::CreateFile),
        (vec![FsEvent::Start, FsEvent::ParentChecked(ParentStatus::Present), FsEvent::FileChecked(true), FsEvent::ModeRead(None)], FsOp::ReadMetadata),
        (vec![FsEvent::Start, FsEvent::ParentChecked(ParentStatus::Present), FsEvent::FileChecked(true), FsEvent::ModeRead(Some(0o644)), FsEvent::ModeSet(false)], FsOp::SetPermissions),
    ];
    for (events, op) in cases {
        let (actions, stage) = drive(true, &events);
        assert_eq!(actions.last(), Some(&FsAction::Fail(op)));
        assert_eq!(stage, Stage::Failed);
    }
}

#[test]
fn finished_provisioner_accepts_nothing() {
    let mut p = Provisioner::new(true);
    assert!(!p.accepts(FsEvent::FileChecked(true)));
    p.step(FsEvent::Start);
    p.step(FsEvent::ParentChecked(ParentStatus::Present));
    p.step(FsEvent::FileChecked(false));
    p.step(FsEvent::Created(CreateOutcome::Created));
    assert!(!p.accepts(FsEvent::Start));
    assert!(!p.accepts(FsEvent::ModeSet(true)));
}

fn cli(config: Option<&str>) -> Cli {
    Cli { config: config.map(|c| c.to_string()), command: Commands::Run }
}

#[test]
fn config_path_priority() {
    let env = Some("/env/c.toml".to_string());
    assert_eq!(cli(Some("/cli/c.toml")).find_config_path(true, env.clone(), true, true), "/cli/c.toml");
    assert_eq!(cli(Some("/cli/c.toml")).find_config_path(false, env.clone(), true, true), "/env/c.toml");
    assert_eq!(cli(None).find_config_path(true, env.clone(), true, true), "/env/c.toml");
    assert_eq!(cli(Some("/cli/c.toml")).find_config_path(false, env.clone(), false, true), "config.toml");
    assert_eq!(cli(None).find_config_path(false, None, true, true), "config.toml");
    assert_eq!(cli(None).find_config_path(false, env, false, false), "/etc/momentum/config.toml");
}

#[test]
fn health_reply_reflects_database() {
    let up = health_reply(true);
    assert_eq!(up.status, 200);
    assert_eq!(up.body, r#"{"status":"ok","database":"up"}"#);
    let down = health_reply(false);
    assert_eq!(down.status, 503);
    assert_eq!(
        down.body,
        r#"{{"status":"error","database":"down","message":"Database connection failed"}}"#
    );
}
