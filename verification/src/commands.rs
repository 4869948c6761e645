//! The commands of the tool: each one applied to the document in memory,
//! with what is to be reported and whether the file is to be written.

use crate::document::{Change, ConfigDocument, DocumentView};
use crate::laws::unchanged_is_reported;
use vstd::prelude::*;

verus! {

/// The name of the plugin that the tool switches.
pub const PLUGIN_NAME: &'static str = "oh-my-opencode";

/// What the user asks for.
#[derive(Clone, Copy, Debug, PartialEq, Eq, Structural)]
pub enum Command {
    /// Enable the plugin.
    On,
    /// Disable the plugin.
    Off,
    /// Report whether the plugin is enabled.
    Status,
}

/// What the user is told.
#[derive(Clone, Copy, Debug, PartialEq, Eq, Structural)]
pub enum Report {
    /// The plugin was disabled and is now enabled.
    Enabled,
    /// The plugin was enabled already.
    AlreadyEnabled,
    /// The plugin was enabled and is now disabled.
    Disabled,
    /// The plugin was disabled already.
    AlreadyDisabled,
    /// The state of the plugin, unchanged.
    Status { enabled: bool },
}

/// How a command ended.
#[derive(Clone, Copy, Debug, PartialEq, Eq, Structural)]
pub struct Outcome {
    /// Whether the document changed, so that the file is to be written.
    pub save: bool,
    /// What the user is told.
    pub report: Report,
}

/// The document that a command leaves.
pub open spec fn document_after(command: Command, document: DocumentView) -> DocumentView {
    match command {
        Command::On => document.enable(PLUGIN_NAME@),
        Command::Off => document.disable(PLUGIN_NAME@),
        Command::Status => document,
    }
}

/// What a command reports of the document that it found.
pub open spec fn report_of(command: Command, document: DocumentView) -> Report {
    let enabled = document.is_enabled(PLUGIN_NAME@);
    match command {
        Command::On => if enabled {
            Report::AlreadyEnabled
        } else {
            Report::Enabled
        },
        Command::Off => if enabled {
            Report::Disabled
        } else {
            Report::AlreadyDisabled
        },
        Command::Status => Report::Status { enabled },
    }
}

/// Whether the plugin is enabled.
pub fn is_plugin_enabled(config: &ConfigDocument) -> (enabled: bool)
    ensures
        enabled == config@.is_enabled(PLUGIN_NAME@),
{
    config.is_enabled(PLUGIN_NAME)
}

/// Enables the plugin, and says whether that changed the document.
pub fn enable_plugin(config: &mut ConfigDocument) -> (added: bool)
    ensures
        final(config)@ == old(config)@.enable(PLUGIN_NAME@),
        added == !old(config)@.is_enabled(PLUGIN_NAME@),
        added == (final(config)@ != old(config)@),
{
    proof {
        unchanged_is_reported(old(config)@, PLUGIN_NAME@);
    }
    match config.enable(PLUGIN_NAME) {
        Change::Added => true,
        _ => false,
    }
}

/// Disables the plugin, and says whether that changed the document.
pub fn disable_plugin(config: &mut ConfigDocument) -> (removed: bool)
    ensures
        final(config)@ == old(config)@.disable(PLUGIN_NAME@),
        removed == old(config)@.is_enabled(PLUGIN_NAME@),
        removed == (final(config)@ != old(config)@),
{
    proof {
        unchanged_is_reported(old(config)@, PLUGIN_NAME@);
    }
    match config.disable(PLUGIN_NAME) {
        Change::Removed => true,
        _ => false,
    }
}

/// Applies a command to the document. The file is to be written exactly
/// when the document changed.
pub fn run(command: Command, config: &mut ConfigDocument) -> (outcome: Outcome)
    ensures
        final(config)@ == document_after(command, old(config)@),
        outcome.report == report_of(command, old(config)@),
        outcome.save == (final(config)@ != old(config)@),
{
    match command {
        Command::On => {
            if enable_plugin(config) {
                Outcome { save: true, report: Report::Enabled }
            } else {
                Outcome { save: false, report: Report::AlreadyEnabled }
            }
        },
        Command::Off => {
            if disable_plugin(config) {
                Outcome { save: true, report: Report::Disabled }
            } else {
                Outcome { save: false, report: Report::AlreadyDisabled }
            }
        },
        Command::Status => Outcome {
            save: false,
            report: Report::Status { enabled: is_plugin_enabled(config) },
        },
    }
}

} // verus!
