//! User settings and where they live on disk.

use std::path::PathBuf;
use vstd::prelude::*;
use vstd::string::*;

verus! {

/// The user's settings, as stored in `config.json`.
#[derive(Debug, PartialEq, Eq)]
pub struct Config {
    pub hotkey: String,
    pub whisper_model: String,
    pub whisper_device: String,
    /// ISO-639-1 code (e.g. "en", "fr"), or "auto" to let whisper detect the
    /// spoken language of each utterance.
    pub language: String,
    pub autostart: bool,
    /// `None` = the system default input device; `Some(name)` = the device
    /// of that name.
    pub input_device: Option<String>,
}

/// The language used when the settings name none.
pub fn default_language() -> (s: String)
    ensures
        s@ == "en"@,
{
    String::from_str("en")
}

impl Default for Config {
    fn default() -> (c: Self)
        ensures
            c.hotkey@ == "shift+space"@,
            c.whisper_model@ == "base.en-q5_1"@,
            c.whisper_device@ == "cpu"@,
            c.language@ == "en"@,
            c.autostart,
            c.input_device is None,
    {
        Config {
            hotkey: String::from_str("shift+space"),
            whisper_model: String::from_str("base.en-q5_1"),
            whisper_device: String::from_str("cpu"),
            language: default_language(),
            autostart: true,
            input_device: None,
        }
    }
}

/// Why no settings directory could be found.
#[derive(Debug, Clone, Copy, PartialEq, Eq, Structural)]
pub enum ConfigError {
    /// The platform reports no per-user data directory.
    NoDataDir,
}

#[verifier::external_type_specification]
#[verifier::external_body]
pub struct ExPathBuf(std::path::PathBuf);

/// Calls `dirs::data_dir`, the platform's per-user data directory. It is read
/// from the environment, so nothing is claimed of the result.
#[verifier::external_body]
fn platform_data_dir() -> Option<PathBuf> {
    dirs::data_dir()
}

/// A place under the per-user data directory: `base` joined with each of
/// `segments` in turn.
#[derive(Debug)]
pub struct AppPath {
    pub base: PathBuf,
    pub segments: Vec<String>,
}

impl AppPath {
    /// The segments, over character sequences.
    pub open spec fn segment_views(&self) -> Seq<Seq<char>> {
        self.segments@.map_values(|s: String| s@)
    }
}

/// The places the app keeps under the data directory.
#[derive(Debug, Clone, Copy, PartialEq, Eq, Structural)]
pub enum AppEntry {
    /// `WhisperFreeFlow`, the app's own directory.
    AppDir,
    /// `WhisperFreeFlow/models`, where downloaded models are cached.
    ModelsDir,
    /// `WhisperFreeFlow/config.json`, the settings.
    ConfigFile,
}

/// The segments that lead from the data directory to an entry.
pub open spec fn entry_segments(e: AppEntry) -> Seq<Seq<char>> {
    match e {
        AppEntry::AppDir => seq!["WhisperFreeFlow"@],
        AppEntry::ModelsDir => seq!["WhisperFreeFlow"@, "models"@],
        AppEntry::ConfigFile => seq!["WhisperFreeFlow"@, "config.json"@],
    }
}

/// Where an entry lies, given what the platform reported as the data
/// directory: under it, by the entry's segments; `NoDataDir` when there is
/// none.
pub fn locate(data_dir: Option<PathBuf>, entry: AppEntry) -> (r: Result<AppPath, ConfigError>)
    ensures
        match (data_dir, r) {
            (None, Err(e)) => e == ConfigError::NoDataDir,
            (Some(d), Ok(p)) => p.base == d && p.segment_views() == entry_segments(entry),
            _ => false,
        },
{
    match data_dir {
        None => Err(ConfigError::NoDataDir),
        Some(base) => {
            let mut segments: Vec<String> = Vec::new();
            segments.push(String::from_str("WhisperFreeFlow"));
            match entry {
                AppEntry::AppDir => {},
                AppEntry::ModelsDir => segments.push(String::from_str("models")),
                AppEntry::ConfigFile => segments.push(String::from_str("config.json")),
            }
            let p = AppPath { base, segments };
            assert(p.segment_views() =~= entry_segments(entry));
            Ok(p)
        },
    }
}

/// The models directory and the settings file sit side by side in the
/// app's directory, under the same data directory.
pub proof fn law_models_and_config_share_app_dir(
    d: PathBuf,
    models: AppPath,
    config: AppPath,
)
    requires
        models.base == d && models.segment_views() == entry_segments(AppEntry::ModelsDir),
        config.base == d && config.segment_views() == entry_segments(AppEntry::ConfigFile),
    ensures
        models.base == config.base,
        models.segment_views().drop_last() == config.segment_views().drop_last(),
        models.segment_views().drop_last() == entry_segments(AppEntry::AppDir),
{
    assert(models.segment_views().drop_last() =~= entry_segments(AppEntry::AppDir));
    assert(config.segment_views().drop_last() =~= entry_segments(AppEntry::AppDir));
}

/// `<data dir>/WhisperFreeFlow`, or `NoDataDir` when the platform reports
/// no per-user data directory. Whether it reports one is the environment's.
pub fn app_data_dir() -> (r: Result<AppPath, ConfigError>)
    ensures
        r matches Ok(p) ==> p.segment_views() == entry_segments(AppEntry::AppDir),
        r matches Err(e) ==> e == ConfigError::NoDataDir,
{
    locate(platform_data_dir(), AppEntry::AppDir)
}

/// `<data dir>/WhisperFreeFlow/models`, where downloaded models are cached.
pub fn models_dir() -> (r: Result<AppPath, ConfigError>)
    ensures
        r matches Ok(p) ==> p.segment_views() == entry_segments(AppEntry::ModelsDir),
        r matches Err(e) ==> e == ConfigError::NoDataDir,
{
    locate(platform_data_dir(), AppEntry::ModelsDir)
}

/// `<data dir>/WhisperFreeFlow/config.json`.
pub fn config_path() -> (r: Result<AppPath, ConfigError>)
    ensures
        r matches Ok(p) ==> p.segment_views() == entry_segments(AppEntry::ConfigFile),
        r matches Err(e) ==> e == ConfigError::NoDataDir,
{
    locate(platform_data_dir(), AppEntry::ConfigFile)
}

} // verus!

verus! {

/// The settings over character sequences.
pub struct ConfigView {
    pub hotkey: Seq<char>,
    pub whisper_model: Seq<char>,
    pub whisper_device: Seq<char>,
    pub language: Seq<char>,
    pub autostart: bool,
    pub input_device: Option<Seq<char>>,
}

impl View for Config {
    type V = ConfigView;

    open spec fn view(&self) -> ConfigView {
        ConfigView {
            hotkey: self.hotkey@,
            whisper_model: self.whisper_model@,
            whisper_device: self.whisper_device@,
            language: self.language@,
            autostart: self.autostart,
            input_device: crate::tray::opt_view(self.input_device),
        }
    }
}

} // verus!
