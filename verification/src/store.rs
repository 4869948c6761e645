//! The configuration file: where it lies, how its content becomes a
//! document, and the steps by which a document is written back so that the
//! file is never seen half written.

use crate::document::{view_of, ConfigDocument, DocumentView};
use crate::error::ConfigError;
use crate::json::pretty_text;
use crate::paths::{extended, has_separator, join, joined, platform_config_dir, with_extension};
use std::path::PathBuf;
use vstd::prelude::*;

verus! {

/// The directory of the application below the user's configuration directory.
pub const APP_DIR: &'static str = "opencode";

/// The name of the configuration file in that directory.
pub const CONFIG_FILE: &'static str = "opencode.json";

/// The extension that the temporary file bears in place of the
/// configuration file's own.
pub const TEMP_EXTENSION: &'static str = "json.tmp";

/// The path of the configuration file below a configuration directory.
pub open spec fn config_path_in(config_dir: PathBuf) -> PathBuf {
    joined(joined(config_dir, APP_DIR@), CONFIG_FILE@)
}

/// The path of the temporary file that stands beside a configuration file.
pub open spec fn temp_path_of(path: PathBuf) -> PathBuf {
    extended(path, TEMP_EXTENSION@)
}

/// The path of the configuration file, given the user's configuration
/// directory, or the error where the platform names none.
pub fn config_path_under(config_dir: Option<PathBuf>) -> (located: Result<PathBuf, ConfigError>)
    ensures
        located == match config_dir {
            Some(dir) => Ok::<PathBuf, ConfigError>(config_path_in(dir)),
            None => Err(ConfigError::PathResolution),
        },
{
    match config_dir {
        Some(dir) => Ok(join(&join(&dir, APP_DIR), CONFIG_FILE)),
        None => Err(ConfigError::PathResolution),
    }
}

/// The path of the configuration file of the user who runs the program.
pub fn get_config_path() -> (located: Result<PathBuf, ConfigError>)
    ensures
        match located {
            Ok(path) => exists|dir: PathBuf| path == config_path_in(dir),
            Err(error) => error == ConfigError::PathResolution,
        },
{
    config_path_under(platform_config_dir())
}

/// The document that the configuration file holds, given the file's content,
/// or `None` where no file exists. A missing file is an error: no document
/// is made up for it.
pub fn read_config(content: Option<&str>) -> (read: Result<ConfigDocument, ConfigError>)
    ensures
        view_of(read) == match content {
            Some(text) => DocumentView::from_text(text@),
            None => Err(ConfigError::NotFound),
        },
        read matches Ok(document) ==> document@.wf(),
{
    match content {
        Some(text) => ConfigDocument::parse(text),
        None => Err(ConfigError::NotFound),
    }
}

/// What a save writes, and where it writes it first.
#[derive(Debug)]
pub struct SavePlan {
    /// The temporary file, beside the configuration file.
    pub temp_path: PathBuf,
    /// The full text of the new configuration file.
    pub content: String,
}

/// One step of a save that touches the file system.
#[derive(Clone, Copy, Debug, PartialEq, Eq, Structural)]
pub enum SaveStep {
    /// Write the whole content to the temporary file.
    WriteTemp,
    /// Rename the temporary file over the configuration file.
    Rename,
}

/// What follows a step: the next step, the end of the save where none is
/// left, or the error where the step failed. The rename follows a temporary
/// file written in full, and nothing else.
pub open spec fn after_step(step: SaveStep, succeeded: bool) -> Result<
    Option<SaveStep>,
    ConfigError,
> {
    if !succeeded {
        Err(ConfigError::Write)
    } else {
        match step {
            SaveStep::WriteTemp => Ok(Some(SaveStep::Rename)),
            SaveStep::Rename => Ok(None),
        }
    }
}

/// Plans the save of a document to the configuration file at `path`. Every
/// document can be saved: the plan holds the text of the whole document, and
/// names the temporary file beside the configuration file.
pub fn plan_save(path: &PathBuf, config: &ConfigDocument) -> (planned: Result<
    SavePlan,
    ConfigError,
>)
    ensures
        planned matches Ok(plan) && plan.temp_path == temp_path_of(*path) && plan.content@
            == pretty_text(config@.to_json()),
{
    let content = config.render()?;
    assert(!has_separator(TEMP_EXTENSION@)) by {
        reveal_strlit("json.tmp");
    }
    Ok(SavePlan { temp_path: with_extension(path, TEMP_EXTENSION), content })
}

/// The first step of every save.
pub fn first_step() -> (step: SaveStep)
    ensures
        step == SaveStep::WriteTemp,
{
    SaveStep::WriteTemp
}

/// Decides what follows a step of a save, given whether the step succeeded.
pub fn next_step(step: SaveStep, succeeded: bool) -> (next: Result<Option<SaveStep>, ConfigError>)
    ensures
        next == after_step(step, succeeded),
{
    if !succeeded {
        Err(ConfigError::Write)
    } else {
        match step {
            SaveStep::WriteTemp => Ok(Some(SaveStep::Rename)),
            SaveStep::Rename => Ok(None),
        }
    }
}

} // verus!
