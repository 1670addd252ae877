//! Application configuration.
//!
//! The configuration names where the user's avatar models live and
//! which model to load by default.  Reading and writing the stored
//! configuration file is the surrounding application's business; here
//! stand the data itself and the defaults it falls back to.

use vstd::prelude::*;
use vstd::string::StringExecFns;

verus! {

/// Relies on `directories::ProjectDirs::from` and `data_dir`: the
/// platform's per-user data directory for the application, derived from
/// the system environment.  `from` returns `None` when no home
/// directory can be determined; when it returns a value, the derived
/// path is rooted in a non-empty base directory, so its text is
/// non-empty.
#[verifier::external_body]
fn platform_data_dir(qualifier: &str, organization: &str, application: &str) -> (r: Option<
    String,
>)
    ensures
        r matches Some(dir) ==> dir@.len() > 0,
{
    directories::ProjectDirs::from(qualifier, organization, application).map(
        |dirs| dirs.data_dir().to_string_lossy().into_owned(),
    )
}

/// The user's model directory: a models folder under the platform data
/// directory when the system gives one, else a relative fallback.
fn get_user_vrm_dir() -> (dir: String)
    ensures
        dir@.len() > 0,
{
    match platform_data_dir("", "", "vrm1-face-tracking") {
        Some(base) => base.concat("/vrm_models"),
        None => {
            proof {
                reveal_strlit("user_vrm_models");
            }
            "user_vrm_models".to_owned()
        },
    }
}

/// Application configuration.
#[derive(Clone, Debug)]
pub struct AppConfig {
    /// Directory holding the user's avatar models.
    pub user_vrm_dir: String,
    /// Default model filename in that directory.
    pub default_vrm_model: String,
}

impl Default for AppConfig {
    /// The configuration used when none is stored: the platform's
    /// model directory and a default model name.
    fn default() -> (config: AppConfig)
        ensures
            config.default_vrm_model@ == "model.vrm"@,
            config.user_vrm_dir@.len() > 0,
    {
        AppConfig {
            user_vrm_dir: get_user_vrm_dir(),
            default_vrm_model: "model.vrm".to_owned(),
        }
    }
}

} // verus!
