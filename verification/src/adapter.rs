//! Choosing the graphics adapter: the renderer options, the configuration
//! derived from them, matching an adapter by name, and the search that falls
//! back from a named adapter to a requested one and then to a fallback one.

use vstd::prelude::*;
use crate::text::{contains_chars, contains_seq, lowercase, lowercase_chars};

verus! {

/// Which kind of adapter to prefer when the platform picks one.
#[derive(Clone, Copy, Debug, PartialEq, Eq, Structural)]
pub enum PowerPreference {
    /// Power usage is not considered.
    NoPreference,
    /// The adapter that uses the least power, often an integrated GPU.
    LowPower,
    /// The adapter with the highest performance, often a discrete GPU.
    HighPerformance,
}

impl Default for PowerPreference {
    fn default() -> (res: Self)
        ensures
            res == PowerPreference::NoPreference,
    {
        PowerPreference::NoPreference
    }
}

/// The options a renderer is created with.
pub struct RendererOptions {
    /// The power preference, if one was given.
    pub power_preference: Option<PowerPreference>,
    /// A part of the name of the adapter to use, compared without regard to case.
    pub adapter: Option<String>,
    /// Whether to stop the process when no adapter has the requested name.
    pub crash_on_invalid_adapter: bool,
}

impl RendererOptions {
    /// The default options: the power preference and adapter name that the
    /// environment gives (`WGPU_POWER_PREF`, `WGPU_ADAPTER_NAME`), and no
    /// stop on an unknown adapter name.
    pub fn from_environment(power_preference: Option<PowerPreference>, adapter: Option<String>) -> (res: Self)
        ensures
            res.power_preference == power_preference,
            res.adapter == adapter,
            !res.crash_on_invalid_adapter,
    {
        RendererOptions { power_preference, adapter, crash_on_invalid_adapter: false }
    }
}

/// The configuration the adapter search works from.
pub struct RenderConfig {
    pub power_preference: PowerPreference,
    pub adapter: Option<String>,
    pub crash_on_invalid_adapter: bool,
}

/// The power preference of the options, else the one from the environment,
/// else the default one.
pub open spec fn resolve_power_preference(
    given: Option<PowerPreference>,
    from_env: Option<PowerPreference>,
) -> PowerPreference {
    match given {
        Some(p) => p,
        None => match from_env {
            Some(p) => p,
            None => PowerPreference::NoPreference,
        },
    }
}

/// A power preference given in the options is always the one used, whatever
/// the environment says; without one, the environment's is used; without
/// either, there is no preference.
pub proof fn law_power_preference(given: Option<PowerPreference>, from_env: Option<PowerPreference>)
    ensures
        given matches Some(p) ==> resolve_power_preference(given, from_env) == p,
        given is None ==> (from_env matches Some(q) ==> resolve_power_preference(given, from_env) == q),
        given is None && from_env is None ==> resolve_power_preference(given, from_env) == PowerPreference::NoPreference,
{
}

impl RenderConfig {
    /// Turns options into a configuration; `env_preference` is what the
    /// environment says of the power preference.
    pub fn from_options(opts: RendererOptions, env_preference: Option<PowerPreference>) -> (res: Self)
        ensures
            res.power_preference == resolve_power_preference(opts.power_preference, env_preference),
            opts.power_preference matches Some(p) ==> res.power_preference == p,
            opts.power_preference is None ==> (env_preference matches Some(p) ==> res.power_preference == p),
            opts.power_preference is None && env_preference is None ==> res.power_preference
                == PowerPreference::NoPreference,
            res.adapter == opts.adapter,
            res.crash_on_invalid_adapter == opts.crash_on_invalid_adapter,
    {
        let fallback = match env_preference {
            Some(p) => p,
            None => PowerPreference::default(),
        };
        let power_preference = match opts.power_preference {
            Some(p) => p,
            None => fallback,
        };
        RenderConfig {
            power_preference,
            adapter: opts.adapter,
            crash_on_invalid_adapter: opts.crash_on_invalid_adapter,
        }
    }
}

/// The position of the first of `hays` that contains `needle`.
pub open spec fn first_containing(hays: Seq<Seq<char>>, needle: Seq<char>) -> Option<nat>
    decreases hays.len(),
{
    if hays.len() == 0 {
        None
    } else if contains_seq(hays[0], needle) {
        Some(0)
    } else {
        match first_containing(hays.drop_first(), needle) {
            Some(i) => Some(i + 1),
            None => None,
        }
    }
}

/// `first_containing` is the least position whose sequence contains the needle.
pub proof fn lemma_first_containing(hays: Seq<Seq<char>>, needle: Seq<char>)
    ensures
        match first_containing(hays, needle) {
            Some(i) => {
                &&& i < hays.len()
                &&& contains_seq(hays[i as int], needle)
                &&& forall|j: int| 0 <= j < i ==> !contains_seq(#[trigger] hays[j], needle)
            },
            None => forall|j: int| 0 <= j < hays.len() ==> !contains_seq(#[trigger] hays[j], needle),
        },
    decreases hays.len(),
{
    if hays.len() > 0 && !contains_seq(hays[0], needle) {
        let rest = hays.drop_first();
        lemma_first_containing(rest, needle);
        assert forall|j: int| 1 <= j < hays.len() implies hays[j] == rest[j - 1] by {}
        match first_containing(rest, needle) {
            Some(i) => {
                assert forall|j: int| 0 <= j < i + 1 implies !contains_seq(#[trigger] hays[j], needle) by {
                    if j > 0 {
                        assert(hays[j] == rest[j - 1]);
                    }
                }
            },
            None => {
                assert forall|j: int| 0 <= j < hays.len() implies !contains_seq(#[trigger] hays[j], needle) by {
                    if j > 0 {
                        assert(hays[j] == rest[j - 1]);
                    }
                }
            },
        }
    }
}

/// The contents of each vector of characters.
pub open spec fn char_views(v: Seq<Vec<char>>) -> Seq<Seq<char>> {
    v.map_values(|c: Vec<char>| c@)
}

/// The contents of each string.
pub open spec fn string_views(v: Seq<String>) -> Seq<Seq<char>> {
    v.map_values(|s: String| s@)
}

/// The position of the first of `lowered_names` that contains `lowered_wanted`.
pub fn pick_adapter_lowered(lowered_names: &Vec<Vec<char>>, lowered_wanted: &Vec<char>) -> (res: Option<usize>)
    ensures
        match (res, first_containing(char_views(lowered_names@), lowered_wanted@)) {
            (Some(i), Some(j)) => i == j,
            (None, None) => true,
            _ => false,
        },
{
    let ghost hays = char_views(lowered_names@);
    proof { lemma_first_containing(hays, lowered_wanted@); }
    let n = lowered_names.len();
    let mut i: usize = 0;
    while i < n
        invariant
            n == lowered_names@.len(),
            hays == char_views(lowered_names@),
            hays.len() == n,
            i <= n,
            forall|j: int| 0 <= j < i ==> !contains_seq(#[trigger] hays[j], lowered_wanted@),
        decreases n - i,
    {
        assert(hays[i as int] == lowered_names@[i as int]@);
        if contains_chars(&lowered_names[i], lowered_wanted) {
            proof {
                lemma_first_containing(hays, lowered_wanted@);
                match first_containing(hays, lowered_wanted@) {
                    Some(k) => {
                        if k < i {
                            assert(!contains_seq(hays[k as int], lowered_wanted@));
                        }
                        if k > i {
                            assert(contains_seq(hays[i as int], lowered_wanted@));
                        }
                    },
                    None => {
                        assert(contains_seq(hays[i as int], lowered_wanted@));
                    },
                }
            }
            return Some(i);
        }
        i = i + 1;
    }
    None
}

/// The names, each lower-cased.
pub open spec fn lowered_all(names: Seq<Seq<char>>) -> Seq<Seq<char>> {
    names.map_values(|name: Seq<char>| lowercase(name))
}

/// The position of the first of `names` whose lower-cased form contains the
/// lower-cased `wanted`: the adapter that a configured name selects.
pub fn pick_adapter_by_name(names: &Vec<String>, wanted: &str) -> (res: Option<usize>)
    ensures
        match (res, first_containing(lowered_all(string_views(names@)), lowercase(wanted@))) {
            (Some(i), Some(j)) => i == j,
            (None, None) => true,
            _ => false,
        },
{
    let lowered_wanted = lowercase_chars(wanted);
    let mut lowered: Vec<Vec<char>> = Vec::new();
    let n = names.len();
    let mut i: usize = 0;
    while i < n
        invariant
            n == names@.len(),
            i <= n,
            lowered@.len() == i,
            forall|j: int| 0 <= j < i ==> (#[trigger] lowered@[j])@ == lowercase(names@[j]@),
        decreases n - i,
    {
        let l = lowercase_chars(names[i].as_str());
        lowered.push(l);
        i = i + 1;
    }
    assert(char_views(lowered@) =~= lowered_all(string_views(names@)));
    pick_adapter_lowered(&lowered, &lowered_wanted)
}

} // verus!
