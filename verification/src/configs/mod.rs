//! The launcher's configuration: the adapters it supervises, and the table
//! that maps an adapter type to the executable that runs it.

use vstd::prelude::*;
use vstd::string::StringExecFns;

verus! {

/// Content equality of two string slices.
///
/// Trusted: wraps `str::eq` of the standard library, which holds exactly
/// when both slices are the same sequence of characters.
#[verifier::external_body]
fn same_text(a: &str, b: &str) -> (r: bool)
    ensures
        r == (a@ == b@),
{
    a == b
}

/// Launch parameters as the table gives them: the executable's name, then the
/// name and the value of the environment variable set for the process. An
/// entry without an override has both of the latter empty.
pub type LaunchParams = (Seq<char>, (Seq<char>, Seq<char>));

/// Adapter types served by the shared adapter executable.
pub open spec fn uses_shared_executable(tag: Seq<char>) -> bool {
    ||| tag == "pub-sub-bridge"@
    ||| tag == "historian"@
    ||| tag == "dnp3-master"@
    ||| tag == "dnp3-outstation"@
    ||| tag == "modbus-master"@
    ||| tag == "modbus-outstation"@
}

/// The two roles of the ICCP protocol stack.
pub open spec fn is_iccp(tag: Seq<char>) -> bool {
    tag == "iccp-client"@ || tag == "iccp-server"@
}

/// The two roles of the IEC 61850 protocol stack.
pub open spec fn is_iec61850(tag: Seq<char>) -> bool {
    tag == "IEC61850-client"@ || tag == "IEC61850-server"@
}

/// Adapter types whose executable needs a library search path of its own.
pub open spec fn needs_library_path(tag: Seq<char>) -> bool {
    is_iccp(tag) || is_iec61850(tag)
}

/// The closed set of adapter types.
pub open spec fn is_known_type(tag: Seq<char>) -> bool {
    ||| uses_shared_executable(tag)
    ||| needs_library_path(tag)
    ||| tag == "ocpp"@
    ||| tag == "oes-plug"@
}

/// The resolution table: what to launch for an adapter type, or `None` for a
/// type outside the closed set.
pub open spec fn resolve(tag: Seq<char>) -> Option<LaunchParams> {
    if uses_shared_executable(tag) {
        Some(("openfmb-adapter"@, (Seq::empty(), Seq::empty())))
    } else if is_iccp(tag) {
        Some(("iccp-adapter"@, ("LD_LIBRARY_PATH"@, "/usr/local/lib/iccp"@)))
    } else if is_iec61850(tag) {
        Some(("iec61850-adapter"@, ("LD_LIBRARY_PATH"@, "/usr/local/lib/iec61850"@)))
    } else if tag == "ocpp"@ {
        Some(("ocpp-adapter"@, (Seq::empty(), Seq::empty())))
    } else if tag == "oes-plug"@ {
        Some(("udp-adapter"@, (Seq::empty(), Seq::empty())))
    } else {
        None
    }
}

/// What a resolved entry holds, read as character sequences.
pub open spec fn params_view(r: Option<(String, (String, String))>) -> Option<LaunchParams> {
    match r {
        Some(p) => Some((p.0@, (p.1.0@, p.1.1@))),
        None => None,
    }
}

/// No protocol-stack type is also a type of the shared executable.
proof fn lemma_types_differ()
    ensures
        forall|tag: Seq<char>| needs_library_path(tag) ==> !uses_shared_executable(tag),
{
    reveal_strlit("pub-sub-bridge");
    reveal_strlit("historian");
    reveal_strlit("dnp3-master");
    reveal_strlit("dnp3-outstation");
    reveal_strlit("modbus-master");
    reveal_strlit("modbus-outstation");
    reveal_strlit("iccp-client");
    reveal_strlit("iccp-server");
    reveal_strlit("IEC61850-client");
    reveal_strlit("IEC61850-server");
    assert forall|tag: Seq<char>| needs_library_path(tag) implies !uses_shared_executable(tag) by {
        assert("pub-sub-bridge"@[0] == 'p');
        assert("historian"@[0] == 'h');
        assert("dnp3-master"@[0] == 'd');
        assert("dnp3-outstation"@[0] == 'd');
        assert("modbus-master"@[0] == 'm');
        assert("modbus-outstation"@[0] == 'm');
        assert("iccp-client"@[0] == 'i');
        assert("iccp-server"@[0] == 'i');
        assert("IEC61850-client"@[0] == 'I');
        assert("IEC61850-server"@[0] == 'I');
    }
}

/// The table answers exactly the known types, always with a named
/// executable; the two protocol stacks get a complete environment override
/// and every other known type gets none.
pub proof fn lemma_resolve_table(tag: Seq<char>)
    ensures
        resolve(tag) is Some <==> is_known_type(tag),
        resolve(tag) matches Some(p) ==> p.0.len() > 0,
        resolve(tag) matches Some(p) ==> (needs_library_path(tag) ==> p.1.0.len() > 0 && p.1.1.len()
            > 0),
        resolve(tag) matches Some(p) ==> (!needs_library_path(tag) ==> p.1.0.len() == 0 && p.1.1.len()
            == 0),
{
    lemma_types_differ();
    reveal_strlit("openfmb-adapter");
    reveal_strlit("iccp-adapter");
    reveal_strlit("iec61850-adapter");
    reveal_strlit("ocpp-adapter");
    reveal_strlit("udp-adapter");
    reveal_strlit("LD_LIBRARY_PATH");
    reveal_strlit("/usr/local/lib/iccp");
    reveal_strlit("/usr/local/lib/iec61850");
    assert("openfmb-adapter"@.len() == 15);
    assert("iccp-adapter"@.len() == 12);
    assert("iec61850-adapter"@.len() == 16);
    assert("ocpp-adapter"@.len() == 12);
    assert("udp-adapter"@.len() == 11);
    assert("LD_LIBRARY_PATH"@.len() == 15);
    assert("/usr/local/lib/iccp"@.len() == 19);
    assert("/usr/local/lib/iec61850"@.len() == 23);
}

/// Launcher settings.
#[derive(Debug, Clone, PartialEq)]
pub struct Launcher {
    /// Log level. Possible values are Trace, Debug, Info, Error. Default is Debug.
    pub log_level: Option<String>,
}

/// Stands for the operating-system process that backs an adapter. The token
/// is chosen by whoever started the process and finds it again.
#[derive(Debug, Clone, Copy, PartialEq, Eq, Structural)]
pub struct ProcessHandle {
    pub token: u64,
}

/// One supervised adapter: what was declared for it, and the process that
/// currently backs it.
#[derive(Debug, PartialEq, Eq)]
pub struct Adapter {
    /// Name of the adapter.
    pub name: String,
    /// Type of the adapter (iccp-client, IEC61850-client, ...).
    pub typ: String,
    /// Full path to the adapter's configuration file.
    pub config: String,
    /// Process identifier declared for the adapter, carried through untouched.
    pub pid: Option<u32>,
    /// The process that backs the adapter; `None` while it is not running.
    pub child: Option<ProcessHandle>,
}

/// An adapter as the contracts see it.
pub ghost struct AdapterView {
    pub name: Seq<char>,
    pub typ: Seq<char>,
    pub config: Seq<char>,
    pub pid: Option<u32>,
    pub child: Option<ProcessHandle>,
}

impl AdapterView {
    /// No process backs the adapter: it is due for a launch.
    pub open spec fn is_idle(self) -> bool {
        self.child is None
    }

    /// A process backs the adapter and has not been seen to exit.
    pub open spec fn is_running(self) -> bool {
        self.child is Some
    }

    /// The same adapter, backed by `child`.
    pub open spec fn with_child(self, child: Option<ProcessHandle>) -> AdapterView {
        AdapterView { child, ..self }
    }
}

impl View for Adapter {
    type V = AdapterView;

    open spec fn view(&self) -> AdapterView {
        AdapterView {
            name: self.name@,
            typ: self.typ@,
            config: self.config@,
            pid: self.pid,
            child: self.child,
        }
    }
}

/// The views of a list of adapters, in order.
pub open spec fn adapters_view(adapters: Seq<Adapter>) -> Seq<AdapterView> {
    adapters.map_values(|a: Adapter| a@)
}

/// Launcher configuration.
#[derive(Debug)]
pub struct LauncherConfig {
    /// Launcher settings.
    pub launcher: Launcher,
    /// The adapters, in the order in which they are reconciled.
    pub adapters: Vec<Adapter>,
}

impl LauncherConfig {
    /// Get the executable file name for the specified adapter type, with the
    /// environment variable to set for it (both parts empty where the type
    /// needs none). `None` for an unknown type.
    pub fn get_executable_name(adapter_type: &str) -> (r: Option<(String, (String, String))>)
        ensures
            params_view(r) == resolve(adapter_type@),
            r is Some <==> is_known_type(adapter_type@),
            r matches Some(p) ==> p.0@.len() > 0,
            r matches Some(p) ==> (needs_library_path(adapter_type@) ==> p.1.0@.len() > 0
                && p.1.1@.len() > 0),
            r matches Some(p) ==> (!needs_library_path(adapter_type@) ==> p.1.0@.len() == 0
                && p.1.1@.len() == 0),
    {
        proof {
            lemma_resolve_table(adapter_type@);
        }
        if same_text(adapter_type, "pub-sub-bridge") || same_text(adapter_type, "historian")
            || same_text(adapter_type, "dnp3-master") || same_text(adapter_type, "dnp3-outstation")
            || same_text(adapter_type, "modbus-master") || same_text(
            adapter_type,
            "modbus-outstation",
        ) {
            Some((String::from_str("openfmb-adapter"), (String::new(), String::new())))
        } else if same_text(adapter_type, "iccp-client") || same_text(adapter_type, "iccp-server") {
            Some(
                (
                    String::from_str("iccp-adapter"),
                    (String::from_str("LD_LIBRARY_PATH"), String::from_str("/usr/local/lib/iccp")),
                ),
            )
        } else if same_text(adapter_type, "IEC61850-client") || same_text(
            adapter_type,
            "IEC61850-server",
        ) {
            Some(
                (
                    String::from_str("iec61850-adapter"),
                    (
                        String::from_str("LD_LIBRARY_PATH"),
                        String::from_str("/usr/local/lib/iec61850"),
                    ),
                ),
            )
        } else if same_text(adapter_type, "ocpp") {
            Some((String::from_str("ocpp-adapter"), (String::new(), String::new())))
        } else if same_text(adapter_type, "oes-plug") {
            Some((String::from_str("udp-adapter"), (String::new(), String::new())))
        } else {
            None
        }
    }
}

/// A fatal configuration error, carrying the message shown to the operator.
#[derive(Debug, PartialEq, Eq)]
pub struct ConfigError(String);

impl View for ConfigError {
    type V = Seq<char>;

    closed spec fn view(&self) -> Seq<char> {
        self.0@
    }
}

impl ConfigError {
    /// An error with the message `s`.
    pub fn new(s: String) -> (e: ConfigError)
        ensures
            e@ == s@,
    {
        ConfigError(s)
    }

    /// The error's message.
    pub fn message(&self) -> (s: String)
        ensures
            s@ == self@,
    {
        self.0.clone()
    }
}

} // verus!
