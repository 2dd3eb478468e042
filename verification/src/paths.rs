//! Path text: joining path components, and the default socket and config locations.

use vstd::prelude::*;

verus! {

/// `base` with `name` appended as one more component (what `Path::join` gives
/// for a relative `name`): no separator is added to an empty base or one that
/// already ends with `/`.
pub open spec fn spec_join(base: Seq<char>, name: Seq<char>) -> Seq<char> {
    if base.len() == 0 || base.last() == '/' {
        base + name
    } else {
        base + "/"@ + name
    }
}

/// `base` joined with the relative component `name`.
pub fn join(base: &str, name: &str) -> (r: String)
    ensures
        r@ == spec_join(base@, name@),
{
    let n = base.unicode_len();
    if n == 0 || base.get_char(n - 1) == '/' {
        String::from_str(base).concat(name)
    } else {
        String::from_str(base).concat("/").concat(name)
    }
}

/// The directory of the daemon socket: `$XDG_RUNTIME_DIR`, else `/tmp`.
pub open spec fn spec_runtime_dir_or_tmp(runtime_dir: Option<Seq<char>>) -> Seq<char> {
    match runtime_dir {
        Some(d) => d,
        None => "/tmp"@,
    }
}

/// The model of an optional string slice.
pub open spec fn opt_str(s: Option<&str>) -> Option<Seq<char>> {
    match s {
        Some(s) => Some(s@),
        None => None,
    }
}

/// The daemon's default socket: `trayd.sock` in `$XDG_RUNTIME_DIR` (given
/// as `runtime_dir`, `None` when unset), else in `/tmp`.
pub fn default_socket_path(runtime_dir: Option<&str>) -> (r: String)
    ensures
        r@ == spec_join(spec_runtime_dir_or_tmp(opt_str(runtime_dir)), "trayd.sock"@),
{
    let dir = match runtime_dir {
        Some(d) => d,
        None => "/tmp",
    };
    join(dir, "trayd.sock")
}

/// The base of per-user configuration: `$XDG_CONFIG_HOME`, else
/// `$HOME/.config`, with `/root` standing in for an unset `HOME`.
pub open spec fn spec_config_base(config_home: Option<Seq<char>>, home: Option<Seq<char>>) -> Seq<char> {
    match config_home {
        Some(c) => c,
        None => (match home {
            Some(h) => h,
            None => "/root"@,
        }) + "/.config"@,
    }
}

/// `<config base>/<dir>/<file>`.
pub fn config_file_path(config_home: Option<&str>, home: Option<&str>, dir: &str, file: &str) -> (r: String)
    ensures
        r@ == spec_join(spec_join(spec_config_base(opt_str(config_home), opt_str(home)), dir@), file@),
{
    let base = match config_home {
        Some(c) => String::from_str(c),
        None => {
            let h = match home {
                Some(h) => h,
                None => "/root",
            };
            String::from_str(h).concat("/.config")
        },
    };
    let d = join(base.as_str(), dir);
    join(d.as_str(), file)
}

/// Where a configuration is read from.
#[derive(Debug)]
pub enum ConfigSource {
    /// Parse this file; failing to read or parse it is an error.
    File(String),
    /// Use the defaults.
    Defaults,
}

/// Which configuration file to load: an explicit path always (it must then
/// exist), else the XDG path when it exists, else none: the defaults apply.
pub fn config_source(explicit: Option<String>, xdg: String, xdg_exists: bool) -> (r: ConfigSource)
    ensures
        explicit matches Some(p) ==> (r matches ConfigSource::File(f) && f == p),
        explicit is None && xdg_exists ==> (r matches ConfigSource::File(f) && f == xdg),
        explicit is None && !xdg_exists ==> r is Defaults,
{
    match explicit {
        Some(p) => ConfigSource::File(p),
        None => if xdg_exists {
            ConfigSource::File(xdg)
        } else {
            ConfigSource::Defaults
        },
    }
}

} // verus!
