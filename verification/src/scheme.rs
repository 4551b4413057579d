use vstd::prelude::*;
use crate::text::str_equals;
use vstd::string::StringSliceAdditionalSpecFns;

verus! {

/// How a request to the `vrc-get:` URI scheme of the window is answered.
#[derive(PartialEq, Eq, Structural, Debug, Clone, Copy)]
pub enum SchemeRoute {
    /// The script with the global information of the application.
    GlobalInfo,
    /// Not found: the scheme is not `vrc-get`.
    BadScheme,
    /// Not found: no such path under the scheme.
    BadUrl,
}

/// The route of a request whose URI has the given scheme (if any) and path.
pub open spec fn spec_route(scheme: Option<Seq<char>>, path: Seq<char>) -> SchemeRoute {
    if scheme != Some("vrc-get"@) {
        SchemeRoute::BadScheme
    } else if path == "/global-info.js"@ {
        SchemeRoute::GlobalInfo
    } else {
        SchemeRoute::BadUrl
    }
}

/// Routes a request to the `vrc-get:` scheme by its URI's scheme and path.
pub fn handle_vrc_get_scheme(scheme: Option<&str>, path: &str) -> (r: SchemeRoute)
    ensures
        r == spec_route(
            match scheme {
                Some(s) => Some(s@),
                None => None,
            },
            path@,
        ),
{
    let good_scheme = match scheme {
        Some(s) => str_equals(s, "vrc-get"),
        None => false,
    };
    if !good_scheme {
        SchemeRoute::BadScheme
    } else if str_equals(path, "/global-info.js") {
        SchemeRoute::GlobalInfo
    } else {
        SchemeRoute::BadUrl
    }
}

impl SchemeRoute {
    /// The HTTP status of the answer.
    pub fn status(&self) -> (r: u16)
        ensures
            r == (if *self == SchemeRoute::GlobalInfo {
                200u16
            } else {
                404u16
            }),
    {
        match self {
            SchemeRoute::GlobalInfo => 200,
            _ => 404,
        }
    }

    /// The body of a not-found answer; `None` for the global-info script.
    pub fn not_found_body(&self) -> (r: Option<&'static str>)
        ensures
            match *self {
                SchemeRoute::GlobalInfo => r is None,
                SchemeRoute::BadScheme => r matches Some(b) && b@ == "bad sceme"@,
                SchemeRoute::BadUrl => r matches Some(b) && b@ == "bad url"@,
            },
    {
        match self {
            SchemeRoute::GlobalInfo => None,
            SchemeRoute::BadScheme => Some("bad sceme"),
            SchemeRoute::BadUrl => Some("bad url"),
        }
    }
}

/// The statement that starts the global-info script; the JSON object follows.
pub const GLOBAL_INFO_PREFIX: &'static str = "globalThis.vrcGetGlobalInfo = ";

/// The global-info script: `globalThis.vrcGetGlobalInfo = ` followed by the
/// JSON text of the global information.
pub fn global_info_script(json: &[u8]) -> (r: Vec<u8>)
    ensures
        r@ == GLOBAL_INFO_PREFIX.spec_bytes() + json@,
{
    let prefix = GLOBAL_INFO_PREFIX.as_bytes();
    let mut script: Vec<u8> = Vec::new();
    let mut i: usize = 0;
    while i < prefix.len()
        invariant
            prefix@ == GLOBAL_INFO_PREFIX.spec_bytes(),
            i <= prefix@.len(),
            script@ == prefix@.subrange(0, i as int),
        decreases prefix@.len() - i,
    {
        script.push(prefix[i]);
        i = i + 1;
    }
    let mut j: usize = 0;
    while j < json.len()
        invariant
            prefix@ == GLOBAL_INFO_PREFIX.spec_bytes(),
            j <= json@.len(),
            script@ == prefix@ + json@.subrange(0, j as int),
        decreases json@.len() - j,
    {
        script.push(json[j]);
        j = j + 1;
    }
    assert(json@.subrange(0, j as int) =~= json@);
    script
}

/// The operating systems that the application is built for.
pub enum TargetOs {
    MacOs,
    Windows,
    Linux,
}

/// The name of the operating system as the window's scripts know it.
pub fn os_type_name(os: TargetOs) -> (r: &'static str)
    ensures
        r@ == match os {
            TargetOs::MacOs => "Darwin"@,
            TargetOs::Windows => "WindowsNT"@,
            TargetOs::Linux => "Linux"@,
        },
{
    match os {
        TargetOs::MacOs => "Darwin",
        TargetOs::Windows => "WindowsNT",
        TargetOs::Linux => "Linux",
    }
}

/// The processor architectures that the application is built for.
pub enum TargetArch {
    X86_64,
    Aarch64,
}

/// The name of the processor architecture as the window's scripts know it.
pub fn arch_name(arch: TargetArch) -> (r: &'static str)
    ensures
        r@ == match arch {
            TargetArch::X86_64 => "x86_64"@,
            TargetArch::Aarch64 => "aarch64"@,
        },
{
    match arch {
        TargetArch::X86_64 => "x86_64",
        TargetArch::Aarch64 => "aarch64",
    }
}

} // verus!
