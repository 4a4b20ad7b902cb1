use anybuild::base::{BaseConfig, DatabaseEngine};
use anybuild::python::{
    check_deps, default_server_for_framework, detect_database, detect_framework,
    detect_mcp_self_running, detect_migration_strategy, detect_server, detection_evidence,
    file_to_python_path, format_app_import, infer_start_command, load_python_config,
    resolve_applications, resolved_main_file, DependencyFile, MigrationStrategy, PythonConfig,
    PythonEvidence, PythonFramework, PythonProject, PythonServer,
};

fn deps(items: &[&str]) -> Vec<String> {
    items.iter().map(|s| (*s).to_owned()).collect()
}

fn start(config: &PythonConfig) -> Option<String> {
    infer_start_command(config, false).command
}

#[test]
fn test_detect_server_precedence() {
    assert_eq!(
        detect_server(&deps(&["uvicorn", "daphne"])),
        Some(PythonServer::Uvicorn)
    );
    assert_eq!(
        detect_server(&deps(&["hypercorn", "daphne"])),
        Some(PythonServer::Hypercorn)
    );
    assert_eq!(detect_server(&deps(&["daphne"])), Some(PythonServer::Daphne));
    assert_eq!(detect_server(&deps(&["flask"])), None);
}

#[test]
fn test_detect_framework_precedence() {
    assert_eq!(
        detect_framework(false, &deps(&["django", "fastapi"])),
        Some(PythonFramework::FastApi)
    );
    assert_eq!(
        detect_framework(true, &deps(&["django", "fastapi"])),
        Some(PythonFramework::Django)
    );
    assert_eq!(
        detect_framework(true, &deps(&["streamlit", "mcp"])),
        Some(PythonFramework::Streamlit)
    );
    assert_eq!(
        detect_framework(true, &deps(&["mcp", "fastapi"])),
        Some(PythonFramework::Mcp)
    );
    assert_eq!(
        detect_framework(true, &deps(&["flask", "python-fasthtml"])),
        Some(PythonFramework::Flask)
    );
    assert_eq!(detect_framework(true, &deps(&[])), None);
}

#[test]
fn test_detect_migration_strategy() {
    assert_eq!(
        detect_migration_strategy(Some(PythonFramework::Django), &deps(&[]), false),
        Some(MigrationStrategy::Django)
    );
    assert_eq!(
        detect_migration_strategy(None, &deps(&["alembic"]), false),
        Some(MigrationStrategy::Alembic)
    );
    assert_eq!(
        detect_migration_strategy(None, &deps(&[]), true),
        Some(MigrationStrategy::Alembic)
    );
    assert_eq!(detect_migration_strategy(None, &deps(&[]), false), None);
}

#[test]
fn test_default_server_for_framework() {
    assert_eq!(
        default_server_for_framework(Some(PythonFramework::Django)),
        Some(PythonServer::Uvicorn)
    );
    assert_eq!(
        default_server_for_framework(Some(PythonFramework::FastHtml)),
        Some(PythonServer::Uvicorn)
    );
    assert_eq!(
        default_server_for_framework(Some(PythonFramework::Streamlit)),
        None
    );
    assert_eq!(default_server_for_framework(None), None);
}

#[test]
fn test_resolve_applications_django_settings() {
    let (asgi, wsgi) = resolve_applications(
        Some(PythonFramework::Django),
        None,
        Some("WSGI_APPLICATION = \"mysite.wsgi.application\"\n"),
    );
    assert_eq!(asgi, None);
    assert_eq!(wsgi.as_deref(), Some("mysite.wsgi:application"));

    let (asgi, wsgi) = resolve_applications(
        Some(PythonFramework::Django),
        None,
        Some("ASGI_APPLICATION = \"mysite.asgi.application\"\n"),
    );
    assert_eq!(asgi.as_deref(), Some("mysite.asgi:application"));
    assert_eq!(wsgi, None);
}

#[test]
fn test_resolve_applications_from_main_file() {
    let (asgi, wsgi) =
        resolve_applications(Some(PythonFramework::FastApi), Some("src/main.py"), None);
    assert_eq!(
        (asgi.as_deref(), wsgi.as_deref()),
        (Some("src.main:app"), None)
    );
    let (asgi, wsgi) = resolve_applications(Some(PythonFramework::Flask), Some("main.py"), None);
    assert_eq!((asgi.as_deref(), wsgi.as_deref()), (None, Some("main:app")));
}

#[test]
fn test_detect_database_clients_with_mysql_precedence() {
    assert_eq!(
        detect_database(&deps(&["pymysql"])),
        Some(DatabaseEngine::Mysql)
    );
    assert_eq!(
        detect_database(&deps(&["asyncpg"])),
        Some(DatabaseEngine::Postgres)
    );
    assert_eq!(
        detect_database(&deps(&["pymysql", "psycopg"])),
        Some(DatabaseEngine::Mysql)
    );
    assert_eq!(detect_database(&deps(&["flask"])), None);
}

#[test]
fn test_detect_mcp_self_running() {
    assert!(detect_mcp_self_running(
        Some(PythonFramework::Mcp),
        Some("main.py"),
        Some("mcp.run()\n")
    ));
    assert!(!detect_mcp_self_running(
        Some(PythonFramework::Mcp),
        Some("main.py"),
        Some("app = build_server()\n")
    ));
    assert!(!detect_mcp_self_running(
        Some(PythonFramework::FastApi),
        Some("main.py"),
        Some("mcp.run()\n")
    ));
    assert!(!detect_mcp_self_running(
        Some(PythonFramework::Mcp),
        None,
        Some("mcp.run()\n")
    ));
}

fn project() -> PythonProject {
    PythonProject {
        detected_main_file: None,
        python_version_file: None,
        dependency_files: vec![],
        has_manage_py: false,
        has_alembic_ini: false,
        context_requires_all_files: false,
        settings_text: None,
        install_inputs: vec![],
        main_file_text: None,
    }
}

#[test]
fn test_python_provider_infers_start_command() {
    let mut p = project();
    p.detected_main_file = Some("main.py".to_owned());
    p.dependency_files = vec![DependencyFile {
        name: "pyproject.toml".to_owned(),
        lines: vec!["[project]".to_owned(), "name = 'app'".to_owned()],
    }];
    p.install_inputs = vec!["pyproject.toml".to_owned()];
    let config = load_python_config(PythonConfig::default(), &vec![], &p);
    assert_eq!(config.base.commands.start.as_deref(), Some("python main.py"));
    assert_eq!(config.main_file.as_deref(), Some("main.py"));
    assert_eq!(config.install_inputs, Some(vec!["pyproject.toml".to_owned()]));
}

#[test]
fn test_database_detection_populates_common_services() {
    let mut p = project();
    p.dependency_files = vec![DependencyFile {
        name: "requirements.txt".to_owned(),
        lines: vec!["psycopg".to_owned()],
    }];
    let config = load_python_config(PythonConfig::default(), &vec![], &p);
    assert_eq!(config.base.database, Some(DatabaseEngine::Postgres));
    assert_eq!(config.database, None);
}

#[test]
fn fastapi_projects_run_under_uvicorn_with_its_dependency_added() {
    let mut p = project();
    p.detected_main_file = Some("app.py".to_owned());
    p.dependency_files = vec![
        DependencyFile {
            name: "requirements.txt".to_owned(),
            lines: vec!["FastAPI==0.115.0".to_owned(), "ffmpeg-python".to_owned()],
        },
        DependencyFile {
            name: "uv.lock".to_owned(),
            lines: vec!["pandoc".to_owned()],
        },
    ];
    let config = load_python_config(PythonConfig::default(), &vec![], &p);
    assert_eq!(config.framework, Some(PythonFramework::FastApi));
    assert_eq!(config.server, Some(PythonServer::Uvicorn));
    assert_eq!(config.asgi_application.as_deref(), Some("a:app"));
    assert_eq!(config.extra_dependencies, vec!["uvicorn".to_owned()]);
    assert_eq!(config.base.runtime_dependencies, vec!["ffmpeg".to_owned()]);
    assert_eq!(
        config.base.commands.start.as_deref(),
        Some("uvicorn a:app --host 0.0.0.0 --port $PORT")
    );
}

#[test]
fn django_detection_sets_migrations_and_reads_the_version_file() {
    let mut p = project();
    p.has_manage_py = true;
    p.python_version_file = Some(" 3.12\n".to_owned());
    p.dependency_files = vec![DependencyFile {
        name: "requirements.txt".to_owned(),
        lines: vec!["Django>=5".to_owned()],
    }];
    let mut config = PythonConfig::default();
    config.python_version = None;
    config.migration_strategy = Some(MigrationStrategy::Alembic);
    let config = load_python_config(config, &vec![], &p);
    assert_eq!(config.framework, Some(PythonFramework::Django));
    assert_eq!(config.migration_strategy, Some(MigrationStrategy::Django));
    assert_eq!(config.python_version.as_deref(), Some("3.12"));
    assert_eq!(config.server, Some(PythonServer::Uvicorn));
    assert_eq!(config.base.commands.start, None);
}

#[test]
fn dependency_scan_is_case_insensitive_sorted_and_skips_the_lockfile() {
    let files = vec![
        DependencyFile {
            name: "requirements.txt".to_owned(),
            lines: vec!["Flask".to_owned(), "uvicorn[standard]".to_owned()],
        },
        DependencyFile {
            name: "uv.lock".to_owned(),
            lines: vec!["django".to_owned()],
        },
    ];
    assert_eq!(
        check_deps(&deps(&["uvicorn", "FLASK", "django", "flask"]), &files),
        deps(&["flask", "uvicorn"])
    );
}

#[test]
fn test_infer_start_command_for_servers_and_frameworks() {
    let mut config = PythonConfig {
        server: Some(PythonServer::Daphne),
        asgi_application: Some("app:api".to_owned()),
        ..PythonConfig::default()
    };
    assert_eq!(
        start(&config).as_deref(),
        Some("daphne app:api --bind 0.0.0.0 --port $PORT")
    );

    config.server = Some(PythonServer::Uvicorn);
    assert_eq!(
        start(&config).as_deref(),
        Some("uvicorn app:api --host 0.0.0.0 --port $PORT")
    );

    config.asgi_application = None;
    config.wsgi_application = Some("app:web".to_owned());
    assert_eq!(
        start(&config).as_deref(),
        Some("uvicorn app:web --interface=wsgi --host 0.0.0.0 --port $PORT")
    );

    config.server = Some(PythonServer::Hypercorn);
    config.asgi_application = Some("app:api".to_owned());
    config.wsgi_application = None;
    assert_eq!(
        start(&config).as_deref(),
        Some("hypercorn app:api --bind 0.0.0.0:$PORT")
    );

    config.server = None;
    config.asgi_application = None;
    config.framework = Some(PythonFramework::Streamlit);
    config.main_file = Some("streamlit_app.py".to_owned());
    assert_eq!(
        start(&config).as_deref(),
        Some(
            "streamlit run streamlit_app.py --server.port $PORT \
             --server.address 0.0.0.0 --server.headless true"
        )
    );

    config.framework = Some(PythonFramework::Mcp);
    config.main_file = Some("main.py".to_owned());
    assert_eq!(
        start(&config).as_deref(),
        Some(
            "python $VIRTUAL_ENV/bin/mcp run main.py \
             --transport=streamable-http"
        )
    );

    config.framework = Some(PythonFramework::Django);
    config.main_file = None;
    assert_eq!(
        start(&config).as_deref(),
        Some("python manage.py runserver 0.0.0.0:$PORT")
    );
}

#[test]
fn test_infer_start_command_reports_missing_evidence() {
    for config in [
        PythonConfig {
            framework: Some(PythonFramework::Streamlit),
            ..PythonConfig::default()
        },
        PythonConfig {
            framework: Some(PythonFramework::Mcp),
            ..PythonConfig::default()
        },
        PythonConfig {
            server: Some(PythonServer::Daphne),
            ..PythonConfig::default()
        },
        PythonConfig {
            server: Some(PythonServer::Hypercorn),
            ..PythonConfig::default()
        },
        PythonConfig {
            server: Some(PythonServer::Uvicorn),
            ..PythonConfig::default()
        },
    ] {
        assert_eq!(start(&config), None);
    }
}

#[test]
fn missing_evidence_is_reported_as_a_warning_when_asked() {
    let config = PythonConfig {
        framework: Some(PythonFramework::Streamlit),
        ..PythonConfig::default()
    };
    let inferred = infer_start_command(&config, true);
    assert_eq!(inferred.command, None);
    assert_eq!(
        inferred.warning.as_deref(),
        Some("no main file was detected for the Streamlit framework")
    );
}

#[test]
fn module_paths_follow_the_python_quirks() {
    assert_eq!(
        file_to_python_path(Some("src/happy.py")).as_deref(),
        Some("src.ha:app")
    );
    assert_eq!(file_to_python_path(Some("")), None);
    assert_eq!(file_to_python_path(None), None);
    assert_eq!(format_app_import("mysite.asgi.application"), "mysite.asgi:application");
    assert_eq!(format_app_import("noapp"), "noapp");
    assert_eq!(format_app_import("trailing."), "trailing.");
}

#[test]
fn detection_evidence_prefers_dependency_files() {
    assert_eq!(
        detection_evidence(true, true, None, false),
        Some(PythonEvidence::DjangoDependencies)
    );
    assert_eq!(
        detection_evidence(true, false, None, false),
        Some(PythonEvidence::Dependencies)
    );
    assert_eq!(
        detection_evidence(false, false, Some("uvicorn main:app"), false),
        Some(PythonEvidence::Command)
    );
    assert_eq!(
        detection_evidence(false, false, Some("node x"), true),
        Some(PythonEvidence::Entrypoint)
    );
    assert_eq!(detection_evidence(false, false, None, false), None);
}

#[test]
fn configured_main_file_wins_over_the_detected_one() {
    assert_eq!(
        resolved_main_file(&Some("run.py".to_owned()), &Some("main.py".to_owned())),
        Some("run.py".to_owned())
    );
    assert_eq!(
        resolved_main_file(&Some(String::new()), &Some("main.py".to_owned())),
        Some("main.py".to_owned())
    );
    let _ = BaseConfig::default();
}
