use vstd::prelude::*;
use vstd::string::*;

verus! {

/// Release of the server that is installed when none is asked for.
pub const DEFAULT_VERSION: &'static str = "15.0.1";
/// Files routed to the C++ server unless overridden.
pub const DEFAULT_CPP_PATTERN: &'static str = "**/*.{H,hh,hpp,h++,C,cc,cpp,c++}";
/// Files routed to the C server unless overridden.
pub const DEFAULT_C_PATTERN: &'static str = "**/*.{h,c}";

/// What `str::trim` returns for a string.
pub uninterp spec fn trimmed(s: Seq<char>) -> Seq<char>;

/// A character that every definition of white space counts as such.
pub open spec fn is_ascii_blank(c: char) -> bool {
    c == ' ' || c == '\t' || c == '\n' || c == '\r' || c == '\x0B' || c == '\x0C'
}

/// Relies on `str::trim`: the result is a slice of its argument with white
/// space removed at both ends, so a string of blanks alone becomes empty.
#[verifier::external_body]
fn trim(s: &str) -> (r: &str)
    ensures
        r@ == trimmed(s@),
        (forall|i: int| 0 <= i < s@.len() ==> is_ascii_blank(#[trigger] s@[i])) ==> r@.len() == 0,
{
    s.trim()
}

/// The options a host hands over at initialization, each one absent when the
/// host did not set it.
#[derive(Clone, Debug)]
pub struct HostOptions {
    pub server_path: Option<String>,
    pub system_lsp: Option<bool>,
    pub disabled: Option<bool>,
    pub version: Option<String>,
    pub cpp_pattern: Option<String>,
    pub c_pattern: Option<String>,
    pub server_args: Vec<String>,
}

/// Where the server to launch comes from, by priority.
#[derive(Clone, Debug, PartialEq, Eq)]
pub enum LaunchSource {
    /// A path the user gave, used as it is.
    ExplicitPath(String),
    /// The bare command name, found by the host's own search.
    SystemBinary,
    /// A release downloaded and unpacked by this plugin.
    Managed,
}

/// The single intent that an initialization acts on.
#[derive(Clone, Debug)]
pub struct ResolvedConfiguration {
    pub disabled: bool,
    pub source: LaunchSource,
    pub version: String,
    pub launch_args: Vec<String>,
    pub c_pattern: String,
    pub cpp_pattern: String,
}

/// Ghost view of a configuration.
pub struct ConfigView {
    pub disabled: bool,
    pub source: LaunchSourceView,
    pub version: Seq<char>,
    pub launch_args: Seq<Seq<char>>,
    pub c_pattern: Seq<char>,
    pub cpp_pattern: Seq<char>,
}

pub enum LaunchSourceView {
    ExplicitPath(Seq<char>),
    SystemBinary,
    Managed,
}

impl LaunchSource {
    pub open spec fn view(&self) -> LaunchSourceView {
        match self {
            LaunchSource::ExplicitPath(p) => LaunchSourceView::ExplicitPath(p@),
            LaunchSource::SystemBinary => LaunchSourceView::SystemBinary,
            LaunchSource::Managed => LaunchSourceView::Managed,
        }
    }
}

impl ResolvedConfiguration {
    pub open spec fn view(&self) -> ConfigView {
        ConfigView {
            disabled: self.disabled,
            source: self.source.view(),
            version: self.version@,
            launch_args: self.launch_args@.map_values(|a: String| a@),
            c_pattern: self.c_pattern@,
            cpp_pattern: self.cpp_pattern@,
        }
    }
}

/// A file pattern after an optional override: a fragment that is not blank
/// once trimmed replaces the default, wrapped as `**/*.{fragment}`.
pub open spec fn pattern_spec(default: Seq<char>, over: Option<Seq<char>>) -> Seq<char> {
    match over {
        Some(o) => if trimmed(o).len() > 0 {
            "**/*.{"@ + trimmed(o) + "}"@
        } else {
            default
        },
        None => default,
    }
}

/// The release after an optional override, which is trimmed and ignored when blank.
pub open spec fn version_spec(over: Option<Seq<char>>) -> Seq<char> {
    match over {
        Some(o) => if trimmed(o).len() > 0 {
            trimmed(o)
        } else {
            DEFAULT_VERSION@
        },
        None => DEFAULT_VERSION@,
    }
}

/// The launch source by priority: a non-empty explicit path, then the system
/// binary flag, then a managed install.
pub open spec fn source_spec(path: Option<Seq<char>>, system: Option<bool>) -> LaunchSourceView {
    if path is Some && path->0.len() > 0 {
        LaunchSourceView::ExplicitPath(path->0)
    } else if system == Some(true) {
        LaunchSourceView::SystemBinary
    } else {
        LaunchSourceView::Managed
    }
}

pub open spec fn opt_view(o: Option<String>) -> Option<Seq<char>> {
    match o {
        Some(s) => Some(s@),
        None => None,
    }
}

/// The configuration merged from the defaults and a host's options.
pub open spec fn merge_spec(o: HostOptions) -> ConfigView {
    ConfigView {
        disabled: o.disabled == Some(true),
        source: source_spec(opt_view(o.server_path), o.system_lsp),
        version: version_spec(opt_view(o.version)),
        launch_args: o.server_args@.map_values(|a: String| a@),
        c_pattern: pattern_spec(DEFAULT_C_PATTERN@, opt_view(o.c_pattern)),
        cpp_pattern: pattern_spec(DEFAULT_CPP_PATTERN@, opt_view(o.cpp_pattern)),
    }
}

pub open spec fn all_blank(s: Seq<char>) -> bool {
    forall|i: int| 0 <= i < s.len() ==> is_ascii_blank(#[trigger] s[i])
}

fn merge_pattern(default: &str, over: &Option<String>) -> (r: String)
    ensures
        r@ == pattern_spec(default@, opt_view(*over)),
        (over is Some && all_blank(over->0@)) ==> r@ == default@,
{
    match over {
        Some(o) => {
            let t = trim(o.as_str());
            if t.unicode_len() > 0 {
                let mut p = String::from_str("**/*.{");
                p.append(t);
                p.append("}");
                p
            } else {
                String::from_str(default)
            }
        },
        None => String::from_str(default),
    }
}

fn clone_args(args: &Vec<String>) -> (r: Vec<String>)
    ensures
        r@.map_values(|a: String| a@) == args@.map_values(|a: String| a@),
{
    let mut r: Vec<String> = Vec::new();
    let mut i: usize = 0;
    while i < args.len()
        invariant
            i <= args@.len(),
            r@.map_values(|a: String| a@) == args@.subrange(0, i as int).map_values(|a: String| a@),
        decreases args@.len() - i,
    {
        r.push(String::from_str(args[i].as_str()));
        proof {
            assert(args@.subrange(0, i + 1).map_values(|a: String| a@) =~= args@.subrange(
                0,
                i as int,
            ).map_values(|a: String| a@).push(args@[i as int]@));
        }
        i = i + 1;
    }
    proof {
        assert(args@.subrange(0, i as int) =~= args@);
    }
    r
}

/// Combines the built-in defaults with a host's options into the intent of one
/// initialization. Nothing is read or written.
pub fn merge(o: &HostOptions) -> (r: ResolvedConfiguration)
    ensures
        r.view() == merge_spec(*o),
        o.cpp_pattern is Some && all_blank(o.cpp_pattern->0@) ==> r.cpp_pattern@ == DEFAULT_CPP_PATTERN@,
        o.c_pattern is Some && all_blank(o.c_pattern->0@) ==> r.c_pattern@ == DEFAULT_C_PATTERN@,
{
    let source = match &o.server_path {
        Some(p) if p.as_str().unicode_len() > 0 => LaunchSource::ExplicitPath(String::from_str(p.as_str())),
        _ => match o.system_lsp {
            Some(true) => LaunchSource::SystemBinary,
            _ => LaunchSource::Managed,
        },
    };
    let version = match &o.version {
        Some(v) => {
            let t = trim(v.as_str());
            if t.unicode_len() > 0 {
                String::from_str(t)
            } else {
                String::from_str(DEFAULT_VERSION)
            }
        },
        None => String::from_str(DEFAULT_VERSION),
    };
    let disabled = match o.disabled {
        Some(true) => true,
        _ => false,
    };
    let r = ResolvedConfiguration {
        disabled,
        source,
        version,
        launch_args: clone_args(&o.server_args),
        c_pattern: merge_pattern(DEFAULT_C_PATTERN, &o.c_pattern),
        cpp_pattern: merge_pattern(DEFAULT_CPP_PATTERN, &o.cpp_pattern),
    };
    r
}

} // verus!
