use clash_nyanpasu::service::error::ServiceError;
use clash_nyanpasu::service::{
    get_service_path, get_service_path_candidates, resolve_service_path, service_file_names,
    PathEnvironment, Platform, ServicePath,
};

fn path(root: &str, parts: &[&str]) -> ServicePath {
    ServicePath { root: root.to_string(), parts: parts.iter().map(|p| p.to_string()).collect() }
}

fn linux_env() -> PathEnvironment {
    PathEnvironment {
        platform: Platform::Linux,
        target_triple: None,
        exe_dir: Some("/opt/app/bin".to_string()),
        program_files: Some("C:\\Program Files".to_string()),
        app_install_dir: Some("/opt/app".to_string()),
        program_data: Some("C:\\ProgramData".to_string()),
    }
}

#[test]
fn file_names_by_platform_and_triple() {
    assert_eq!(service_file_names(Platform::Linux, &None), vec!["nyanpasu-service".to_string()]);
    assert_eq!(
        service_file_names(Platform::Windows, &None),
        vec!["nyanpasu-service.exe".to_string()]
    );
    assert_eq!(
        service_file_names(Platform::Windows, &Some("x86_64-pc-windows-msvc".to_string())),
        vec![
            "nyanpasu-service.exe".to_string(),
            "nyanpasu-service-x86_64-pc-windows-msvc.exe".to_string()
        ]
    );
    assert_eq!(
        service_file_names(Platform::MacOs, &Some("aarch64-apple-darwin".to_string())),
        vec![
            "nyanpasu-service".to_string(),
            "nyanpasu-service-aarch64-apple-darwin".to_string()
        ]
    );
}

#[test]
fn candidates_on_linux_skip_the_windows_directories() {
    let candidates = get_service_path_candidates(&linux_env());
    assert_eq!(
        candidates,
        vec![
            path("/opt/app/bin", &["sidecar", "nyanpasu-service"]),
            path("/opt/app/bin", &["nyanpasu-service"]),
            path("/opt/app", &["sidecar", "nyanpasu-service"]),
            path("/opt/app", &["nyanpasu-service"]),
        ]
    );
}

#[test]
fn candidates_on_windows_in_order() {
    let env = PathEnvironment {
        platform: Platform::Windows,
        target_triple: Some("t".to_string()),
        exe_dir: Some("E".to_string()),
        program_files: Some("P".to_string()),
        app_install_dir: Some("A".to_string()),
        program_data: Some("D".to_string()),
    };
    let candidates = get_service_path_candidates(&env);
    assert_eq!(
        candidates,
        vec![
            path("E", &["sidecar", "nyanpasu-service.exe"]),
            path("E", &["sidecar", "nyanpasu-service-t.exe"]),
            path("E", &["nyanpasu-service.exe"]),
            path("E", &["nyanpasu-service-t.exe"]),
            path("P", &["nyanpasu", "nyanpasu-service.exe"]),
            path("P", &["nyanpasu", "nyanpasu-service-t.exe"]),
            path("A", &["sidecar", "nyanpasu-service.exe"]),
            path("A", &["sidecar", "nyanpasu-service-t.exe"]),
            path("A", &["nyanpasu-service.exe"]),
            path("A", &["nyanpasu-service-t.exe"]),
            path("D", &["nyanpasu-service", "data", "nyanpasu-service.exe"]),
            path("D", &["nyanpasu-service", "data", "nyanpasu-service-t.exe"]),
        ]
    );
}

#[test]
fn candidates_without_any_directory() {
    let env = PathEnvironment {
        platform: Platform::Linux,
        target_triple: None,
        exe_dir: None,
        program_files: None,
        app_install_dir: None,
        program_data: None,
    };
    assert_eq!(get_service_path_candidates(&env), Vec::<ServicePath>::new());
    assert_eq!(get_service_path(&env, &vec![]), Err(ServiceError::InstallDirUnknown));
    assert_eq!(resolve_service_path(&env, &vec![]), None);
}

#[test]
fn the_sidecar_of_the_install_dir_is_found() {
    let env = linux_env();
    let exists = vec![false, false, true, false];
    assert_eq!(
        get_service_path(&env, &exists),
        Ok(path("/opt/app", &["sidecar", "nyanpasu-service"]))
    );
    assert_eq!(
        resolve_service_path(&env, &exists),
        Some(path("/opt/app", &["sidecar", "nyanpasu-service"]))
    );
}

#[test]
fn the_first_existing_candidate_wins() {
    let env = linux_env();
    assert_eq!(
        get_service_path(&env, &vec![false, true, true, true]),
        Ok(path("/opt/app/bin", &["nyanpasu-service"]))
    );
    assert_eq!(
        get_service_path(&env, &vec![true, true, true, true]),
        Ok(path("/opt/app/bin", &["sidecar", "nyanpasu-service"]))
    );
}

#[test]
fn nothing_existing_gives_the_fallback() {
    let env = linux_env();
    assert_eq!(
        get_service_path(&env, &vec![false, false, false, false]),
        Ok(path("/opt/app", &["nyanpasu-service"]))
    );
    assert_eq!(get_service_path(&env, &vec![]), Ok(path("/opt/app", &["nyanpasu-service"])));
    assert_eq!(
        get_service_path(&env, &vec![false, false]),
        Ok(path("/opt/app", &["nyanpasu-service"]))
    );
}

#[test]
fn the_fallback_beside_the_executable() {
    let env = PathEnvironment {
        platform: Platform::Windows,
        target_triple: None,
        exe_dir: Some("E".to_string()),
        program_files: None,
        app_install_dir: None,
        program_data: None,
    };
    assert_eq!(get_service_path(&env, &vec![false, false]), Err(ServiceError::InstallDirUnknown));
    assert_eq!(
        resolve_service_path(&env, &vec![false, false]),
        Some(path("E", &["nyanpasu-service.exe"]))
    );
    assert_eq!(
        resolve_service_path(&env, &vec![false, true]),
        Some(path("E", &["nyanpasu-service.exe"]))
    );
}
