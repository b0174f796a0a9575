//! The settings of a run: which seed it uses, whether its parameters stay
//! within their documented ranges, and whether the layers of its galactic
//! map are closed.

use vstd::prelude::*;
use planet_generator::prelude::{GenerationSettings, SettingsError};
use crate::failure::PipelineError;
use crate::generator::{
    defaults_with, make_defaults, read_seed, read_settings_layers, replace_seed, reseeded,
    settings_map_layers, settings_seed, settings_violations, validate,
};
use crate::layers::{find_open_layer, first_open_layer, layers_are_closed};

verus! {

/// The seed of the settings that are handed out as an example.
pub const DEFAULT_SEED: &'static str = "default";

/// Whether the settings break none of their documented ranges.
pub open spec fn keeps_its_ranges(settings: GenerationSettings) -> bool {
    settings_violations(settings).len() == 0
}

/// Whether the settings can be worked with: they break none of their
/// documented ranges, and every layer of their galactic map is closed.
pub open spec fn is_valid(settings: GenerationSettings) -> bool {
    keeps_its_ranges(settings) && layers_are_closed(settings_map_layers(settings))
}

/// Whether the settings leave the choice of the seed to the run.
pub open spec fn leaves_seed_open(settings: GenerationSettings) -> bool {
    settings_seed(settings).len() == 0
}

/// The settings that a run works with: those given, with the fresh seed in
/// place of an empty one.
pub open spec fn effective_settings(settings: GenerationSettings, fresh_seed: Seq<char>)
    -> GenerationSettings {
    if leaves_seed_open(settings) {
        reseeded(settings, fresh_seed)
    } else {
        settings
    }
}

/// What a check of the settings reports: the number of ranges that they
/// break, or else the first layer that is not closed.
pub open spec fn settings_verdict(settings: GenerationSettings) -> Result<(), PipelineError> {
    if !keeps_its_ranges(settings) {
        Err(PipelineError::InvalidSettings { violations: settings_violations(settings).len() as usize })
    } else if !layers_are_closed(settings_map_layers(settings)) {
        Err(
            PipelineError::OpenLayer {
                layer: first_open_layer(settings_map_layers(settings)) as usize,
            },
        )
    } else {
        Ok(())
    }
}

/// The example settings: the seed `"default"` and every parameter at its
/// documented default. They are valid, and the same on every call.
pub fn default_settings() -> (settings: GenerationSettings)
    ensures
        settings == defaults_with(DEFAULT_SEED@),
        settings_seed(settings) == DEFAULT_SEED@,
        is_valid(settings),
{
    make_defaults(DEFAULT_SEED)
}

/// The seed of the settings.
pub fn seed_of(settings: &GenerationSettings) -> (seed: String)
    ensures
        seed@ == settings_seed(*settings),
{
    read_seed(settings)
}

/// Decides whether the settings leave the choice of the seed to the run.
pub fn wants_fresh_seed(settings: &GenerationSettings) -> (open: bool)
    ensures
        open == leaves_seed_open(*settings),
{
    let seed = read_seed(settings);
    seed.as_str().is_empty()
}

/// The settings with `seed` as their seed and every parameter unchanged.
pub fn with_seed(settings: &GenerationSettings, seed: &str) -> (changed: GenerationSettings)
    ensures
        changed == reseeded(*settings, seed@),
        settings_seed(changed) == seed@,
        is_valid(changed) == is_valid(*settings),
{
    replace_seed(settings, seed)
}

/// Settles the seed of a run: the settings as given where they name a seed,
/// and with `fresh_seed` as their seed where they name none.
pub fn settle_seed(settings: GenerationSettings, fresh_seed: &str) -> (settled: GenerationSettings)
    ensures
        settled == effective_settings(settings, fresh_seed@),
        !leaves_seed_open(settings) ==> settled == settings,
        leaves_seed_open(settings) ==> settings_seed(settled) == fresh_seed@,
        is_valid(settled) == is_valid(settings),
{
    if wants_fresh_seed(&settings) {
        replace_seed(&settings, fresh_seed)
    } else {
        settings
    }
}

/// Every documented range that the settings break; empty exactly where the
/// settings keep their ranges.
pub fn violations(settings: &GenerationSettings) -> (found: Vec<SettingsError>)
    ensures
        found@ == settings_violations(*settings),
        found@.len() == 0 <==> keeps_its_ranges(*settings),
{
    validate(settings)
}

/// Decides whether the settings break none of their documented ranges.
pub fn keeps_ranges(settings: &GenerationSettings) -> (kept: bool)
    ensures
        kept == keeps_its_ranges(*settings),
{
    validate(settings).len() == 0
}

/// The layers of the galactic map that the settings carry, each as the
/// bytes of its text.
pub fn map_layers(settings: &GenerationSettings) -> (layers: Vec<Vec<u8>>)
    ensures
        layers.deep_view() == settings_map_layers(*settings),
{
    read_settings_layers(settings)
}

/// Checks the settings: `Ok` exactly where they are valid; otherwise the
/// number of ranges that they break or, where they break none, the first
/// layer that is not closed.
pub fn check_settings(settings: &GenerationSettings) -> (verdict: Result<(), PipelineError>)
    ensures
        verdict == settings_verdict(*settings),
        verdict is Ok <==> is_valid(*settings),
{
    let found = validate(settings);
    if found.len() != 0 {
        return Err(PipelineError::InvalidSettings { violations: found.len() });
    }
    let layers = read_settings_layers(settings);
    match find_open_layer(&layers) {
        Some(layer) => Err(PipelineError::OpenLayer { layer }),
        None => Ok(()),
    }
}

/// The example settings are fixed: whatever was asked for before, two
/// answers to a request for them are equal, have the seed `"default"`
/// and every parameter at its documented default.
pub proof fn lemma_example_settings_are_fixed(first: GenerationSettings, later: GenerationSettings)
    requires
        first == defaults_with(DEFAULT_SEED@),
        later == defaults_with(DEFAULT_SEED@),
    ensures
        first == later,
        later == defaults_with(DEFAULT_SEED@),
{
}

} // verus!
