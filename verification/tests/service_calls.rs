//! The request gateway's routing, one test per exposed service call.

use kcl_language_server_core::service::{call_name, parse_service_call, ServiceMethod};

#[test]
fn test_c_api_call_exec_program() {
    assert_eq!(
        parse_service_call("KclvmService.ExecProgram"),
        Some(ServiceMethod::ExecProgram)
    );
    assert_eq!(call_name(ServiceMethod::ExecProgram), "KclvmService.ExecProgram");
    assert!(parse_service_call("exec-program.json").is_none());
    assert!(parse_service_call("exec-program.response.json").is_none());
}

#[test]
fn test_c_api_call_exec_program_with_external_pkg() {
    assert_eq!(
        parse_service_call("KclvmService.ExecProgram"),
        Some(ServiceMethod::ExecProgram)
    );
    assert!(parse_service_call("exec-program-with-external-pkg.json").is_none());
    assert!(parse_service_call("exec-program-with-external-pkg.response.json").is_none());
}

#[test]
fn test_c_api_call_exec_program_with_include_schema_type_path() {
    assert_eq!(
        parse_service_call("KclvmService.ExecProgram"),
        Some(ServiceMethod::ExecProgram)
    );
    assert!(parse_service_call("exec-program-with-include-schema-type-path.json").is_none());
    assert!(
        parse_service_call("exec-program-with-include-schema-type-path.response.json").is_none()
    );
}

#[test]
fn test_c_api_call_exec_program_with_path_selector() {
    assert_eq!(
        parse_service_call("KclvmService.ExecProgram"),
        Some(ServiceMethod::ExecProgram)
    );
    assert!(parse_service_call("exec-program-with-path-selector.json").is_none());
    assert!(parse_service_call("exec-program-with-path-selector.response.json").is_none());
}

#[test]
fn test_c_api_call_override_file() {
    assert_eq!(
        parse_service_call("KclvmService.OverrideFile"),
        Some(ServiceMethod::OverrideFile)
    );
    assert_eq!(call_name(ServiceMethod::OverrideFile), "KclvmService.OverrideFile");
    assert!(parse_service_call("override-file.json").is_none());
    assert!(parse_service_call("override-file.response.json").is_none());
}

#[test]
fn test_c_api_get_schema_type_mapping() {
    assert_eq!(
        parse_service_call("KclvmService.GetSchemaTypeMapping"),
        Some(ServiceMethod::GetSchemaTypeMapping)
    );
    assert_eq!(
        call_name(ServiceMethod::GetSchemaTypeMapping),
        "KclvmService.GetSchemaTypeMapping"
    );
    assert!(parse_service_call("get-schema-type-mapping.json").is_none());
    assert!(parse_service_call("get-schema-type-mapping.response.json").is_none());
}

#[test]
fn test_c_api_format_code() {
    assert_eq!(
        parse_service_call("KclvmService.FormatCode"),
        Some(ServiceMethod::FormatCode)
    );
    assert_eq!(call_name(ServiceMethod::FormatCode), "KclvmService.FormatCode");
    assert!(parse_service_call("format-code.json").is_none());
    assert!(parse_service_call("format-code.response.json").is_none());
}

#[test]
fn test_c_api_format_path() {
    assert_eq!(
        parse_service_call("KclvmService.FormatPath"),
        Some(ServiceMethod::FormatPath)
    );
    assert_eq!(call_name(ServiceMethod::FormatPath), "KclvmService.FormatPath");
    assert!(parse_service_call("format-path.json").is_none());
    assert!(parse_service_call("format-path.response.json").is_none());
}

#[test]
fn test_c_api_lint_path() {
    assert_eq!(
        parse_service_call("KclvmService.LintPath"),
        Some(ServiceMethod::LintPath)
    );
    assert_eq!(call_name(ServiceMethod::LintPath), "KclvmService.LintPath");
    assert!(parse_service_call("lint-path.json").is_none());
    assert!(parse_service_call("lint-path.response.json").is_none());
}

#[test]
fn test_c_api_call_exec_program_with_compile_only() {
    assert_eq!(
        parse_service_call("KclvmService.ExecProgram"),
        Some(ServiceMethod::ExecProgram)
    );
    assert!(parse_service_call("exec-program-with-compile-only.json").is_none());
    assert!(parse_service_call("exec-program-with-compile-only.response.panic").is_none());
}

#[test]
fn test_c_api_call_exec_program_with_recursive() {
    assert_eq!(
        parse_service_call("KclvmService.ExecProgram"),
        Some(ServiceMethod::ExecProgram)
    );
    assert!(parse_service_call("exec-program-with-recursive.json").is_none());
    assert!(parse_service_call("exec-program-with-recursive.response.json").is_none());
}

#[test]
fn test_c_api_validate_code() {
    assert_eq!(
        parse_service_call("KclvmService.ValidateCode"),
        Some(ServiceMethod::ValidateCode)
    );
    assert_eq!(call_name(ServiceMethod::ValidateCode), "KclvmService.ValidateCode");
    assert!(parse_service_call("validate-code.json").is_none());
    assert!(parse_service_call("validate-code.response.json").is_none());
}

#[test]
fn test_c_api_load_settings_files() {
    assert_eq!(
        parse_service_call("KclvmService.LoadSettingsFiles"),
        Some(ServiceMethod::LoadSettingsFiles)
    );
    assert_eq!(
        call_name(ServiceMethod::LoadSettingsFiles),
        "KclvmService.LoadSettingsFiles"
    );
    assert!(parse_service_call("load-settings-files.json").is_none());
    assert!(parse_service_call("load-settings-files.response.json").is_none());
}

#[test]
fn test_c_api_rename() {
    assert_eq!(
        parse_service_call("KclvmService.Rename"),
        Some(ServiceMethod::Rename)
    );
    assert_eq!(call_name(ServiceMethod::Rename), "KclvmService.Rename");
    assert!(parse_service_call("rename.json").is_none());
    assert!(parse_service_call("rename.response.json").is_none());
}

#[test]
fn test_c_api_rename_code() {
    assert_eq!(
        parse_service_call("KclvmService.RenameCode"),
        Some(ServiceMethod::RenameCode)
    );
    assert_eq!(call_name(ServiceMethod::RenameCode), "KclvmService.RenameCode");
    assert!(parse_service_call("rename-code.json").is_none());
    assert!(parse_service_call("rename-code.response.json").is_none());
}

#[test]
fn service_call_names_round_trip() {
    let methods = [
        ServiceMethod::Ping,
        ServiceMethod::ExecProgram,
        ServiceMethod::OverrideFile,
        ServiceMethod::GetSchemaTypeMapping,
        ServiceMethod::FormatCode,
        ServiceMethod::FormatPath,
        ServiceMethod::LintPath,
        ServiceMethod::ValidateCode,
        ServiceMethod::LoadSettingsFiles,
        ServiceMethod::Rename,
        ServiceMethod::RenameCode,
    ];
    for m in methods {
        assert_eq!(parse_service_call(call_name(m).as_str()), Some(m));
    }
    assert!(parse_service_call("KclvmService.").is_none());
    assert!(parse_service_call("").is_none());
}
