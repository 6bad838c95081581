//! The user's settings: who they are on the service and what the presence shows.
use vstd::prelude::*;

verus! {

/// What the user has chosen: their id on the service, and which parts of
/// what they watch the presence may show.
#[derive(Clone, Debug)]
pub struct Settings {
    pub user_id: Option<String>,
    pub show_anime_title: bool,
    pub show_episode_title: bool,
    pub show_episode_number: bool,
    pub show_progress: bool,
    pub show_timestamp: bool,
    pub enabled: bool,
}

/// Every display switch of `s` is on, and the presence is enabled.
pub open spec fn all_shown(s: Settings) -> bool {
    &&& s.show_anime_title
    &&& s.show_episode_title
    &&& s.show_episode_number
    &&& s.show_progress
    &&& s.show_timestamp
    &&& s.enabled
}

/// The view of an optional string.
pub open spec fn opt_view(o: Option<String>) -> Option<Seq<char>> {
    match o {
        Some(s) => Some(s@),
        None => None,
    }
}

impl Default for Settings {
    /// Everything off and no user: the zero value of the type.
    fn default() -> (s: Settings)
        ensures
            s.user_id is None,
            !s.show_anime_title,
            !s.show_episode_title,
            !s.show_episode_number,
            !s.show_progress,
            !s.show_timestamp,
            !s.enabled,
    {
        Settings {
            user_id: None,
            show_anime_title: false,
            show_episode_title: false,
            show_episode_number: false,
            show_progress: false,
            show_timestamp: false,
            enabled: false,
        }
    }
}

impl Settings {
    /// The settings of a user that has chosen nothing yet: everything shown,
    /// with the given user id.
    pub fn everything_shown(user_id: Option<String>) -> (s: Settings)
        ensures
            all_shown(s),
            s.user_id == user_id,
    {
        Settings {
            user_id,
            show_anime_title: true,
            show_episode_title: true,
            show_episode_number: true,
            show_progress: true,
            show_timestamp: true,
            enabled: true,
        }
    }

    /// These settings with the user id replaced by `id`.
    pub fn with_user_id(self, id: String) -> (s: Settings)
        ensures
            s.user_id == Some(id),
            s.show_anime_title == self.show_anime_title,
            s.show_episode_title == self.show_episode_title,
            s.show_episode_number == self.show_episode_number,
            s.show_progress == self.show_progress,
            s.show_timestamp == self.show_timestamp,
            s.enabled == self.enabled,
    {
        Settings { user_id: Some(id), ..self }
    }
}

/// What was found where the settings are kept, as far as reading and
/// decoding it got.
pub enum StoredSettings {
    /// There is no settings file.
    Missing,
    /// The file exists but could not be read; the text describes why.
    Unreadable(String),
    /// The file holds settings in the current layout.
    Current(Settings),
    /// The file holds only the older layout, which had just the user id.
    Legacy(Option<String>),
    /// The file holds neither layout; the text describes why the older one failed.
    Unparsable(String),
}

/// The settings that come out of what was stored, and whether the file is
/// to be written again in the current layout.
pub open spec fn spec_resolve(stored: StoredSettings) -> Result<(Settings, bool), Seq<char>> {
    match stored {
        StoredSettings::Missing => Ok(
            (
                Settings {
                    user_id: None,
                    show_anime_title: true,
                    show_episode_title: true,
                    show_episode_number: true,
                    show_progress: true,
                    show_timestamp: true,
                    enabled: true,
                },
                false,
            ),
        ),
        StoredSettings::Unreadable(e) => Err("Failed to read settings file: "@ + e@),
        StoredSettings::Current(s) => Ok((s, false)),
        StoredSettings::Legacy(id) => Ok(
            (
                Settings {
                    user_id: id,
                    show_anime_title: true,
                    show_episode_title: true,
                    show_episode_number: true,
                    show_progress: true,
                    show_timestamp: true,
                    enabled: true,
                },
                true,
            ),
        ),
        StoredSettings::Unparsable(e) => Err("Failed to parse settings file: "@ + e@),
    }
}

/// Decides the settings from what was stored: defaults with everything shown
/// when there is no file, the stored settings when they are current, an
/// upgrade (to be written back) of the older layout that keeps its user id,
/// and the error otherwise.
pub fn resolve_stored(stored: StoredSettings) -> (r: Result<(Settings, bool), String>)
    ensures
        match (r, spec_resolve(stored)) {
            (Ok(got), Ok(want)) => got == want,
            (Err(e), Err(want)) => e@ == want,
            _ => false,
        },
        stored matches StoredSettings::Current(s) ==> r == Ok::<(Settings, bool), String>((s, false)),
        stored matches StoredSettings::Missing ==> (r matches Ok((s, rewrite)) && !rewrite
            && s.user_id is None && s.enabled && s.show_anime_title && s.show_episode_title
            && s.show_episode_number && s.show_progress && s.show_timestamp),
        stored matches StoredSettings::Legacy(id) ==> (r matches Ok((s, rewrite)) && rewrite
            && s.user_id == id && s.enabled && s.show_anime_title && s.show_episode_title
            && s.show_episode_number && s.show_progress && s.show_timestamp),
        (stored is Unreadable || stored is Unparsable) <==> r is Err,
        stored matches StoredSettings::Unreadable(e) ==> (r matches Err(m) && m@
            == "Failed to read settings file: "@ + e@),
        stored matches StoredSettings::Unparsable(e) ==> (r matches Err(m) && m@
            == "Failed to parse settings file: "@ + e@),
{
    match stored {
        StoredSettings::Missing => Ok((Settings::everything_shown(None), false)),
        StoredSettings::Unreadable(e) => {
            let mut msg = String::from_str("Failed to read settings file: ");
            msg.append(e.as_str());
            Err(msg)
        },
        StoredSettings::Current(s) => Ok((s, false)),
        StoredSettings::Legacy(id) => Ok((Settings::everything_shown(id), true)),
        StoredSettings::Unparsable(e) => {
            let mut msg = String::from_str("Failed to parse settings file: ");
            msg.append(e.as_str());
            Err(msg)
        },
    }
}

/// Settings stored in the current layout come back exactly as stored, field
/// for field, and are not written again.
pub proof fn law_current_settings_are_kept(s: Settings)
    ensures
        spec_resolve(StoredSettings::Current(s)) == Ok::<(Settings, bool), Seq<char>>((s, false)),
        ({
            let r = spec_resolve(StoredSettings::Current(s));
            r matches Ok((t, rewrite)) && !rewrite && t.user_id == s.user_id && t.enabled
                == s.enabled && t.show_anime_title == s.show_anime_title && t.show_episode_title
                == s.show_episode_title && t.show_episode_number == s.show_episode_number
                && t.show_progress == s.show_progress && t.show_timestamp == s.show_timestamp
        }),
{
}

/// Without a file, and from the older layout, the settings show everything
/// and are enabled; the older layout keeps its user id and is written back,
/// a missing file has no user id and is not.
pub proof fn law_defaults_show_everything(id: Option<String>)
    ensures
        spec_resolve(StoredSettings::Missing) matches Ok((s, rewrite)) && !rewrite && s.user_id
            is None && s.enabled && s.show_anime_title && s.show_episode_title
            && s.show_episode_number && s.show_progress && s.show_timestamp,
        spec_resolve(StoredSettings::Legacy(id)) matches Ok((s, rewrite)) && rewrite && s.user_id
            == id && s.enabled && s.show_anime_title && s.show_episode_title
            && s.show_episode_number && s.show_progress && s.show_timestamp,
{
}

/// Why reading or writing the settings file failed, with the underlying
/// error's text.
pub enum SettingsFileError {
    AppDataDir(String),
    CreateDir(String),
    Serialize(String),
    Write(String),
    Delete(String),
}

/// The message reported for a settings file error.
pub open spec fn spec_error_message(e: SettingsFileError) -> Seq<char> {
    match e {
        SettingsFileError::AppDataDir(d) => "Failed to get app data directory: "@ + d@,
        SettingsFileError::CreateDir(d) => "Failed to create app data directory: "@ + d@,
        SettingsFileError::Serialize(d) => "Failed to serialize settings: "@ + d@,
        SettingsFileError::Write(d) => "Failed to write settings file: "@ + d@,
        SettingsFileError::Delete(d) => "Failed to delete settings file: "@ + d@,
    }
}

impl SettingsFileError {
    /// The message reported for this error.
    pub fn message(&self) -> (m: String)
        ensures
            m@ == spec_error_message(*self),
            self matches SettingsFileError::AppDataDir(d) ==> m@
                == "Failed to get app data directory: "@ + d@,
            self matches SettingsFileError::CreateDir(d) ==> m@
                == "Failed to create app data directory: "@ + d@,
            self matches SettingsFileError::Serialize(d) ==> m@ == "Failed to serialize settings: "@
                + d@,
            self matches SettingsFileError::Write(d) ==> m@ == "Failed to write settings file: "@
                + d@,
            self matches SettingsFileError::Delete(d) ==> m@ == "Failed to delete settings file: "@
                + d@,
    {
        let (prefix, detail): (&str, &String) = match self {
            SettingsFileError::AppDataDir(d) => ("Failed to get app data directory: ", d),
            SettingsFileError::CreateDir(d) => ("Failed to create app data directory: ", d),
            SettingsFileError::Serialize(d) => ("Failed to serialize settings: ", d),
            SettingsFileError::Write(d) => ("Failed to write settings file: ", d),
            SettingsFileError::Delete(d) => ("Failed to delete settings file: ", d),
        };
        let mut m = String::from_str(prefix);
        m.append(detail.as_str());
        m
    }
}

} // verus!
