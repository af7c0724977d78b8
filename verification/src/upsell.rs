use vstd::prelude::*;

use crate::text::{cat2, cat3, cat5};

verus! {

/// Where settings that were migrated come from.
#[derive(Clone, Copy, Debug, PartialEq, Eq, Structural)]
pub enum MigratedConfigSource {
    DedicatedFile,
    PyprojectToml,
}

/// The tool whose settings were migrated.
#[derive(Clone, Copy, Debug, PartialEq, Eq, Structural)]
pub enum MigratedFromKind {
    Mypy(MigratedConfigSource),
    Pyright(MigratedConfigSource),
}

/// Why a preset is used.
#[derive(Clone, Copy, Debug, PartialEq, Eq, Structural)]
pub enum SynthesizedPresetReason {
    Migrated(MigratedFromKind),
    NoNearbyConfig,
    UserOverride,
}

/// Whether a user is told to set up a configuration.
#[derive(Clone, Copy, Debug, PartialEq, Eq, Structural)]
pub enum UpsellDecision {
    Skip,
    Show(SynthesizedPresetReason),
    /// Decided by the configurations that are used.
    Determine,
}

/// A configuration that is used.
#[derive(Clone, Copy, Debug, PartialEq, Eq, Structural)]
pub struct UsedConfig {
    pub id: u64,
    pub synthesized_preset_reason: Option<SynthesizedPresetReason>,
}

/// The configurations that are known, of those that files use.
pub open spec fn known_configs(configs: Seq<Option<UsedConfig>>) -> Seq<UsedConfig>
    decreases configs.len(),
{
    if configs.len() == 0 {
        Seq::empty()
    } else {
        match configs.last() {
            Some(c) => known_configs(configs.drop_last()).push(c),
            None => known_configs(configs.drop_last()),
        }
    }
}

/// Why a user is told to set up a configuration: where it has to be determined, all files have to
/// use the same one.
pub open spec fn upsell_reason(
    decision: UpsellDecision,
    configs: Seq<Option<UsedConfig>>,
) -> Option<SynthesizedPresetReason> {
    match decision {
        UpsellDecision::Skip => None,
        UpsellDecision::Show(reason) => Some(reason),
        UpsellDecision::Determine => {
            let known = known_configs(configs);
            if known.len() > 0 && forall|i: int|
                0 <= i < known.len() ==> (#[trigger] known[i]).id == known[0].id {
                known[0].synthesized_preset_reason
            } else {
                None
            }
        },
    }
}

/// Decides why a user is told to set up a configuration. `configs` are those of the files, as far
/// as they are known.
pub fn decide_upsell(decision: UpsellDecision, configs: &Vec<Option<UsedConfig>>) -> (r: Option<
    SynthesizedPresetReason,
>)
    ensures
        r == upsell_reason(decision, configs@),
{
    match decision {
        UpsellDecision::Skip => None,
        UpsellDecision::Show(reason) => Some(reason),
        UpsellDecision::Determine => {
            let mut first: Option<UsedConfig> = None;
            let mut same = true;
            let mut i: usize = 0;
            assert(configs@.take(0) =~= Seq::empty());
            while i < configs.len()
                invariant
                    i <= configs@.len(),
                    match first {
                        Some(c) => known_configs(configs@.take(i as int)).len() > 0
                            && known_configs(configs@.take(i as int))[0] == c,
                        None => known_configs(configs@.take(i as int)).len() == 0,
                    },
                    same == forall|k: int|
                        0 <= k < known_configs(configs@.take(i as int)).len() ==> (
                        #[trigger] known_configs(configs@.take(i as int))[k]).id == known_configs(
                            configs@.take(i as int),
                        )[0].id,
                decreases configs@.len() - i,
            {
                let ghost before = known_configs(configs@.take(i as int));
                let ghost after = known_configs(configs@.take(i + 1));
                proof {
                    assert(configs@.take(i + 1).drop_last() =~= configs@.take(i as int));
                    assert(configs@.take(i + 1).last() == configs@[i as int]);
                    assert(forall|k: int| 0 <= k < before.len() ==> after[k] == before[k]);
                }
                if let Some(c) = configs[i] {
                    assert(after == before.push(c));
                    match first {
                        None => {
                            first = Some(c);
                        },
                        Some(f) => {
                            if c.id != f.id {
                                assert(after[before.len() as int].id != after[0].id);
                                same = false;
                            }
                        },
                    }
                }
                assert(same == forall|k: int|
                    0 <= k < after.len() ==> (#[trigger] after[k]).id == after[0].id) by {
                    if !same {
                        if exists|k: int|
                            0 <= k < before.len() && (#[trigger] before[k]).id != before[0].id {
                            let k = choose|k: int|
                                0 <= k < before.len() && (#[trigger] before[k]).id != before[0].id;
                            assert(after[k].id != after[0].id);
                        }
                    }
                }
                i = i + 1;
            }
            assert(configs@.take(i as int) =~= configs@);
            match first {
                Some(c) => if same {
                    c.synthesized_preset_reason
                } else {
                    None
                },
                None => None,
            }
        },
    }
}

/// Where migrated settings were found, and the preset that goes with them.
pub open spec fn migrated_from(kind: MigratedFromKind) -> (Seq<char>, Seq<char>) {
    match kind {
        MigratedFromKind::Mypy(MigratedConfigSource::DedicatedFile) => (
            "your `mypy.ini`"@,
            "legacy"@,
        ),
        MigratedFromKind::Mypy(MigratedConfigSource::PyprojectToml) => (
            "`[tool.mypy]` in your `pyproject.toml`"@,
            "legacy"@,
        ),
        MigratedFromKind::Pyright(MigratedConfigSource::DedicatedFile) => (
            "your `pyrightconfig.json`"@,
            "default"@,
        ),
        MigratedFromKind::Pyright(MigratedConfigSource::PyprojectToml) => (
            "`[tool.pyright]` in your `pyproject.toml`"@,
            "default"@,
        ),
    }
}

/// Where the installation is described.
pub open spec fn docs_url() -> Seq<char> {
    "https://pyrefly.org/en/docs/installation/"@
}

/// What to do next.
pub open spec fn next_steps() -> Seq<char> {
    "Run `pyrefly init` to continue setting up Pyrefly.\nDocs: "@ + docs_url() + "\n"@
}

/// What a user is told about a missing configuration. One who chose a preset is told nothing.
pub open spec fn upsell_text(reason: SynthesizedPresetReason) -> Seq<char> {
    match reason {
        SynthesizedPresetReason::Migrated(kind) => {
            "No `pyrefly.toml` found — using settings imported from "@ + migrated_from(kind).0
                + " (preset: "@ + migrated_from(kind).1 + ").\n"@ + next_steps()
        },
        SynthesizedPresetReason::NoNearbyConfig => {
            "No `pyrefly.toml` found — using preset `basic`.\n"@ + next_steps()
        },
        SynthesizedPresetReason::UserOverride => Seq::empty(),
    }
}

fn write_next_steps() -> (r: String)
    ensures
        r@ == next_steps(),
{
    cat3(
        "Run `pyrefly init` to continue setting up Pyrefly.\nDocs: ",
        "https://pyrefly.org/en/docs/installation/",
        "\n",
    )
}

/// Writes what a user is told about a missing configuration.
pub fn write_unconfigured_upsell(reason: SynthesizedPresetReason) -> (r: String)
    ensures
        r@ == upsell_text(reason),
{
    match reason {
        SynthesizedPresetReason::Migrated(kind) => {
            let (location, preset) = match kind {
                MigratedFromKind::Mypy(MigratedConfigSource::DedicatedFile) => (
                    "your `mypy.ini`",
                    "legacy",
                ),
                MigratedFromKind::Mypy(MigratedConfigSource::PyprojectToml) => (
                    "`[tool.mypy]` in your `pyproject.toml`",
                    "legacy",
                ),
                MigratedFromKind::Pyright(MigratedConfigSource::DedicatedFile) => (
                    "your `pyrightconfig.json`",
                    "default",
                ),
                MigratedFromKind::Pyright(MigratedConfigSource::PyprojectToml) => (
                    "`[tool.pyright]` in your `pyproject.toml`",
                    "default",
                ),
            };
            let head = cat5(
                "No `pyrefly.toml` found — using settings imported from ",
                location,
                " (preset: ",
                preset,
                ").\n",
            );
            let rest = write_next_steps();
            cat2(head.as_str(), rest.as_str())
        },
        SynthesizedPresetReason::NoNearbyConfig => {
            let rest = write_next_steps();
            cat2("No `pyrefly.toml` found — using preset `basic`.\n", rest.as_str())
        },
        SynthesizedPresetReason::UserOverride => String::new(),
    }
}

} // verus!
