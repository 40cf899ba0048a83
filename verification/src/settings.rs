//! Persisted settings: how often the keeper taps Scroll Lock.
//!
//! The settings file lives in a per-user directory rather than next to the
//! executable, so that copying the executable into the Startup folder does
//! not make Windows open the settings file at every logon.

use vstd::prelude::*;
use vstd::string::StringExecFns;

verus! {

/// Interval used when nothing was stored yet: four minutes.
pub const DEFAULT_INTERVAL_SECS: u64 = 240;

/// What the program stores between runs.
#[derive(Clone, Copy, Debug, PartialEq, Eq, Structural)]
pub struct Settings {
    pub interval_secs: u64,
}

impl Default for Settings {
    fn default() -> (s: Settings)
        ensures
            s.interval_secs == DEFAULT_INTERVAL_SECS,
    {
        Settings { interval_secs: DEFAULT_INTERVAL_SECS }
    }
}

/// Name of the settings directory, under the per-user application data.
pub const SETTINGS_DIR: &'static str = "ScrollLockKeeper";

/// Name of the settings file in that directory.
pub const SETTINGS_FILE: &'static str = "settings.json";

/// The components of the settings file's path, for the per-user application
/// data directory `appdata` (`None` where it is not set): that directory,
/// then the settings directory, then the file. Without `appdata` the path
/// is relative.
pub fn settings_path_parts(appdata: Option<String>) -> (res: Vec<String>)
    ensures
        res@.map_values(|p: String| p@) == match appdata {
            Some(d) => seq![d@, SETTINGS_DIR@, SETTINGS_FILE@],
            None => seq![SETTINGS_DIR@, SETTINGS_FILE@],
        },
{
    let mut res: Vec<String> = Vec::new();
    let ghost base: Seq<Seq<char>> = if appdata is Some {
        seq![appdata->0@]
    } else {
        Seq::empty()
    };
    match appdata {
        Some(d) => res.push(d),
        None => {},
    }
    assert(res@.map_values(|p: String| p@) =~= base);
    res.push(String::from_str(SETTINGS_DIR));
    res.push(String::from_str(SETTINGS_FILE));
    assert(res@.map_values(|p: String| p@) =~= base + seq![SETTINGS_DIR@, SETTINGS_FILE@]);
    res
}

/// The settings in effect after reading the stored ones: those that were
/// stored, or the defaults where nothing usable was stored (no file, or a
/// file that does not parse).
pub fn settings_or_default(stored: Option<Settings>) -> (s: Settings)
    ensures
        s == match stored {
            Some(st) => st,
            None => Settings { interval_secs: DEFAULT_INTERVAL_SECS },
        },
{
    match stored {
        Some(st) => st,
        None => Settings::default(),
    }
}

/// The text to write to the settings file: the serialized settings, or an
/// empty JSON object where they could not be serialized.
pub fn settings_file_text(serialized: Option<String>) -> (text: String)
    ensures
        text@ == match serialized {
            Some(t) => t@,
            None => "{}"@,
        },
{
    match serialized {
        Some(t) => t,
        None => String::from_str("{}"),
    }
}

} // verus!
