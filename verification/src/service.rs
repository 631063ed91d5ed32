//! Routing of the request gateway: the service exposes its operations
//! under dotted call names, and the gateway dispatches each incoming call
//! name to one operation.

use vstd::prelude::*;

verus! {

/// The operations the service exposes to its clients.
#[derive(Clone, Copy, PartialEq, Eq, Structural, Debug)]
pub enum ServiceMethod {
    Ping,
    ExecProgram,
    OverrideFile,
    GetSchemaTypeMapping,
    FormatCode,
    FormatPath,
    LintPath,
    ValidateCode,
    LoadSettingsFiles,
    Rename,
    RenameCode,
}

/// The call name under which an operation is exposed.
pub open spec fn spec_call_name(m: ServiceMethod) -> Seq<char> {
    match m {
        ServiceMethod::Ping => "KclvmService.Ping"@,
        ServiceMethod::ExecProgram => "KclvmService.ExecProgram"@,
        ServiceMethod::OverrideFile => "KclvmService.OverrideFile"@,
        ServiceMethod::GetSchemaTypeMapping => "KclvmService.GetSchemaTypeMapping"@,
        ServiceMethod::FormatCode => "KclvmService.FormatCode"@,
        ServiceMethod::FormatPath => "KclvmService.FormatPath"@,
        ServiceMethod::LintPath => "KclvmService.LintPath"@,
        ServiceMethod::ValidateCode => "KclvmService.ValidateCode"@,
        ServiceMethod::LoadSettingsFiles => "KclvmService.LoadSettingsFiles"@,
        ServiceMethod::Rename => "KclvmService.Rename"@,
        ServiceMethod::RenameCode => "KclvmService.RenameCode"@,
    }
}

/// Whether two strings hold the same characters.
fn str_eq(a: &str, b: &str) -> (r: bool)
    ensures
        r == (a@ == b@),
{
    String::from_str(a) == String::from_str(b)
}

/// Route a call name to the operation it names, or to nothing when no
/// operation is exposed under it.
pub fn parse_service_call(name: &str) -> (r: Option<ServiceMethod>)
    ensures
        match r {
            Some(m) => name@ == spec_call_name(m),
            None => forall|m: ServiceMethod| name@ != spec_call_name(m),
        },
{
    if str_eq(name, "KclvmService.Ping") {
        Some(ServiceMethod::Ping)
    } else if str_eq(name, "KclvmService.ExecProgram") {
        Some(ServiceMethod::ExecProgram)
    } else if str_eq(name, "KclvmService.OverrideFile") {
        Some(ServiceMethod::OverrideFile)
    } else if str_eq(name, "KclvmService.GetSchemaTypeMapping") {
        Some(ServiceMethod::GetSchemaTypeMapping)
    } else if str_eq(name, "KclvmService.FormatCode") {
        Some(ServiceMethod::FormatCode)
    } else if str_eq(name, "KclvmService.FormatPath") {
        Some(ServiceMethod::FormatPath)
    } else if str_eq(name, "KclvmService.LintPath") {
        Some(ServiceMethod::LintPath)
    } else if str_eq(name, "KclvmService.ValidateCode") {
        Some(ServiceMethod::ValidateCode)
    } else if str_eq(name, "KclvmService.LoadSettingsFiles") {
        Some(ServiceMethod::LoadSettingsFiles)
    } else if str_eq(name, "KclvmService.Rename") {
        Some(ServiceMethod::Rename)
    } else if str_eq(name, "KclvmService.RenameCode") {
        Some(ServiceMethod::RenameCode)
    } else {
        proof {
            assert forall|m: ServiceMethod| name@ != spec_call_name(m) by {}
        }
        None
    }
}

/// The call name an operation is exposed under.
pub fn call_name(m: ServiceMethod) -> (r: String)
    ensures
        r@ == spec_call_name(m),
{
    match m {
        ServiceMethod::Ping => String::from_str("KclvmService.Ping"),
        ServiceMethod::ExecProgram => String::from_str("KclvmService.ExecProgram"),
        ServiceMethod::OverrideFile => String::from_str("KclvmService.OverrideFile"),
        ServiceMethod::GetSchemaTypeMapping => String::from_str(
            "KclvmService.GetSchemaTypeMapping",
        ),
        ServiceMethod::FormatCode => String::from_str("KclvmService.FormatCode"),
        ServiceMethod::FormatPath => String::from_str("KclvmService.FormatPath"),
        ServiceMethod::LintPath => String::from_str("KclvmService.LintPath"),
        ServiceMethod::ValidateCode => String::from_str("KclvmService.ValidateCode"),
        ServiceMethod::LoadSettingsFiles => String::from_str("KclvmService.LoadSettingsFiles"),
        ServiceMethod::Rename => String::from_str("KclvmService.Rename"),
        ServiceMethod::RenameCode => String::from_str("KclvmService.RenameCode"),
    }
}

/// Routing is faithful: every operation's call name routes back to it.
pub proof fn lemma_route_round_trip(name: Seq<char>, m: ServiceMethod)
    requires
        name == spec_call_name(m),
    ensures
        forall|m2: ServiceMethod| name == spec_call_name(m2) ==> m2 == m,
{
    assert forall|m2: ServiceMethod| name == spec_call_name(m2) implies m2 == m by {
        if m2 != m {
            reveal_strlit("KclvmService.Ping");
            reveal_strlit("KclvmService.ExecProgram");
            reveal_strlit("KclvmService.OverrideFile");
            reveal_strlit("KclvmService.GetSchemaTypeMapping");
            reveal_strlit("KclvmService.FormatCode");
            reveal_strlit("KclvmService.FormatPath");
            reveal_strlit("KclvmService.LintPath");
            reveal_strlit("KclvmService.ValidateCode");
            reveal_strlit("KclvmService.LoadSettingsFiles");
            reveal_strlit("KclvmService.Rename");
            reveal_strlit("KclvmService.RenameCode");
            assert(spec_call_name(m2).len() != spec_call_name(m).len() || spec_call_name(
                m2,
            )[13] != spec_call_name(m)[13] || spec_call_name(m2)[19] != spec_call_name(m)[19]);
            assert(spec_call_name(m2) != spec_call_name(m));
        }
    }
}

} // verus!
