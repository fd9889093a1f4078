//! The adapter search as a state machine. The caller performs each action
//! (listing the adapters, asking the platform for one) and hands back what
//! it found; the machine decides what comes next.

use vstd::prelude::*;
use crate::adapter::{
    first_containing, lemma_first_containing, lowered_all, pick_adapter_by_name, string_views,
    PowerPreference, RenderConfig,
};
use crate::text::{contains_seq, lowercase, to_lowercase};

verus! {

/// Where the adapter search stands.
#[derive(Clone, Copy, Debug, PartialEq, Eq, Structural)]
pub enum SearchPhase {
    /// Nothing has been done yet.
    Start,
    /// The adapters were asked for, to be matched against the configured name.
    ByName,
    /// An adapter was requested with the configured power preference.
    Primary,
    /// A fallback (software) adapter was requested.
    Fallback,
    /// The search is over.
    Done,
}

/// What the caller reports back after performing an action.
pub enum SearchEvent {
    /// The search begins.
    Begin,
    /// The names of all adapters on all backends, in the order listed.
    Listed(Vec<String>),
    /// Whether the requested adapter was granted.
    Requested(bool),
}

/// What the caller is to do next.
#[derive(Clone, Copy, Debug, PartialEq, Eq, Structural)]
pub enum SearchAction {
    /// List the adapters of every backend and report their names.
    ListAdapters,
    /// Ask the platform for an adapter, without a surface.
    RequestAdapter { power_preference: PowerPreference, force_fallback: bool },
    /// Use the listed adapter at this position.
    UseListed(usize),
    /// Use the adapter that the last request granted.
    UseRequested,
    /// No adapter has the configured name: report it and end the process with status 1.
    ExitUnknownAdapter,
    /// No adapter could be had.
    FailNoAdapter,
}

/// The event is one that the search expects in this phase.
pub open spec fn accepts(config: RenderConfig, phase: SearchPhase, event: SearchEvent) -> bool {
    match phase {
        SearchPhase::Start => event is Begin,
        SearchPhase::ByName => event is Listed && config.adapter is Some,
        SearchPhase::Primary => event is Requested,
        SearchPhase::Fallback => event is Requested,
        SearchPhase::Done => false,
    }
}

/// The position of the listed adapter that the configured name selects.
pub open spec fn listed_choice(config: RenderConfig, names: Seq<Seq<char>>) -> Option<nat> {
    match config.adapter {
        Some(wanted) => first_containing(lowered_all(names), lowercase(wanted@)),
        None => None,
    }
}

/// The request for an adapter with the configured power preference.
pub open spec fn request(config: RenderConfig, force_fallback: bool) -> SearchAction {
    SearchAction::RequestAdapter { power_preference: config.power_preference, force_fallback }
}

/// One step of the search.
pub open spec fn search_next(config: RenderConfig, phase: SearchPhase, event: SearchEvent) -> (SearchPhase, SearchAction) {
    match phase {
        SearchPhase::Start => {
            if config.adapter is Some {
                (SearchPhase::ByName, SearchAction::ListAdapters)
            } else {
                (SearchPhase::Primary, request(config, false))
            }
        },
        SearchPhase::ByName => match event {
            SearchEvent::Listed(names) => match listed_choice(config, string_views(names@)) {
                Some(i) => (SearchPhase::Done, SearchAction::UseListed(i as usize)),
                None => {
                    if config.crash_on_invalid_adapter {
                        (SearchPhase::Done, SearchAction::ExitUnknownAdapter)
                    } else {
                        (SearchPhase::Primary, request(config, false))
                    }
                },
            },
            _ => (SearchPhase::Done, SearchAction::FailNoAdapter),
        },
        SearchPhase::Primary => match event {
            SearchEvent::Requested(found) => {
                if found {
                    (SearchPhase::Done, SearchAction::UseRequested)
                } else {
                    (SearchPhase::Fallback, request(config, true))
                }
            },
            _ => (SearchPhase::Done, SearchAction::FailNoAdapter),
        },
        SearchPhase::Fallback => match event {
            SearchEvent::Requested(found) => {
                if found {
                    (SearchPhase::Done, SearchAction::UseRequested)
                } else {
                    (SearchPhase::Done, SearchAction::FailNoAdapter)
                }
            },
            _ => (SearchPhase::Done, SearchAction::FailNoAdapter),
        },
        SearchPhase::Done => (SearchPhase::Done, SearchAction::FailNoAdapter),
    }
}

/// Whether the search expects `event` in `phase`.
pub fn accepts_event(config: &RenderConfig, phase: SearchPhase, event: &SearchEvent) -> (res: bool)
    ensures
        res == accepts(*config, phase, *event),
{
    match phase {
        SearchPhase::Start => matches!(event, SearchEvent::Begin),
        SearchPhase::ByName => matches!(event, SearchEvent::Listed(_)) && config.adapter.is_some(),
        SearchPhase::Primary => matches!(event, SearchEvent::Requested(_)),
        SearchPhase::Fallback => matches!(event, SearchEvent::Requested(_)),
        SearchPhase::Done => false,
    }
}

/// Takes one step of the search: from the phase and the reported event, the
/// next phase and the next action.
pub fn search_step(config: &RenderConfig, phase: SearchPhase, event: &SearchEvent) -> (res: (SearchPhase, SearchAction))
    requires
        accepts(*config, phase, *event),
    ensures
        res == search_next(*config, phase, *event),
{
    let req = SearchAction::RequestAdapter { power_preference: config.power_preference, force_fallback: false };
    let fallback = SearchAction::RequestAdapter { power_preference: config.power_preference, force_fallback: true };
    match phase {
        SearchPhase::Start => {
            if config.adapter.is_some() {
                (SearchPhase::ByName, SearchAction::ListAdapters)
            } else {
                (SearchPhase::Primary, req)
            }
        },
        SearchPhase::ByName => {
            let wanted = match &config.adapter {
                Some(w) => w,
                None => { return (SearchPhase::Done, SearchAction::FailNoAdapter); },
            };
            match event {
                SearchEvent::Listed(names) => match pick_adapter_by_name(names, wanted.as_str()) {
                    Some(i) => (SearchPhase::Done, SearchAction::UseListed(i)),
                    None => {
                        if config.crash_on_invalid_adapter {
                            (SearchPhase::Done, SearchAction::ExitUnknownAdapter)
                        } else {
                            (SearchPhase::Primary, req)
                        }
                    },
                },
                _ => (SearchPhase::Done, SearchAction::FailNoAdapter),
            }
        },
        SearchPhase::Primary => match event {
            SearchEvent::Requested(found) => {
                if *found {
                    (SearchPhase::Done, SearchAction::UseRequested)
                } else {
                    (SearchPhase::Fallback, fallback)
                }
            },
            _ => (SearchPhase::Done, SearchAction::FailNoAdapter),
        },
        SearchPhase::Fallback => match event {
            SearchEvent::Requested(found) => {
                if *found {
                    (SearchPhase::Done, SearchAction::UseRequested)
                } else {
                    (SearchPhase::Done, SearchAction::FailNoAdapter)
                }
            },
            _ => (SearchPhase::Done, SearchAction::FailNoAdapter),
        },
        SearchPhase::Done => (SearchPhase::Done, SearchAction::FailNoAdapter),
    }
}


/// The text reported when no adapter has the configured name.
pub fn unknown_adapter_message(config: &RenderConfig) -> (res: String)
    requires
        config.adapter is Some,
    ensures
        res@ == "No adapter found with name: "@ + lowercase(config.adapter.unwrap()@),
{
    let mut res = String::from_str("No adapter found with name: ");
    match &config.adapter {
        Some(wanted) => {
            let lowered = to_lowercase(wanted.as_str());
            res.append(lowered.as_str());
        },
        None => {},
    }
    res
}

/// The listed adapter chosen by name, for any configuration with a name:
/// whatever the crash flag says, when some listed name contains the configured
/// name (both in lower case), the search ends using the first such adapter;
/// when none does, it stops the process if asked to, and otherwise requests an
/// adapter with the configured power preference.
pub proof fn law_by_name(config: RenderConfig, names: Vec<String>)
    requires
        config.adapter is Some,
    ensures
        (exists|i: int| 0 <= i < names@.len()
            && contains_seq(lowercase(#[trigger] names@[i]@), lowercase(config.adapter.unwrap()@))) ==> {
            &&& search_next(config, SearchPhase::ByName, SearchEvent::Listed(names)).0 == SearchPhase::Done
            &&& search_next(config, SearchPhase::ByName, SearchEvent::Listed(names)).1 matches SearchAction::UseListed(k)
            &&& k < names@.len()
            &&& contains_seq(lowercase(names@[k as int]@), lowercase(config.adapter.unwrap()@))
            &&& forall|j: int| 0 <= j < k ==>
                !contains_seq(lowercase(#[trigger] names@[j]@), lowercase(config.adapter.unwrap()@))
        },
        (forall|i: int| 0 <= i < names@.len()
            ==> !contains_seq(lowercase(#[trigger] names@[i]@), lowercase(config.adapter.unwrap()@))) ==> {
            search_next(config, SearchPhase::ByName, SearchEvent::Listed(names)) == if config.crash_on_invalid_adapter {
                (SearchPhase::Done, SearchAction::ExitUnknownAdapter)
            } else {
                (
                    SearchPhase::Primary,
                    SearchAction::RequestAdapter { power_preference: config.power_preference, force_fallback: false },
                )
            }
        },
{
    let wanted = lowercase(config.adapter.unwrap()@);
    let views = string_views(names@);
    let lowered = lowered_all(views);
    lemma_first_containing(lowered, wanted);
    assert forall|j: int| 0 <= j < names@.len() implies lowered[j] == lowercase(#[trigger] names@[j]@) by {}
    if exists|i: int| 0 <= i < names@.len()
        && contains_seq(lowercase(#[trigger] names@[i]@), wanted) {
        let i = choose|i: int| 0 <= i < names@.len()
            && contains_seq(lowercase(#[trigger] names@[i]@), wanted);
        assert(contains_seq(lowered[i], wanted));
        match first_containing(lowered, wanted) {
            Some(k) => {
                assert(k <= i);
                assert(names@.len() <= usize::MAX) by {
                    assert(names@.len() == names.len());
                }
            },
            None => {},
        }
    }
}

/// What a caller reports after performing `action`, when the adapters list
/// as `names`, the first request is granted iff `primary_found`, and the
/// fallback request iff `fallback_found`.
pub open spec fn respond(action: SearchAction, names: Vec<String>, primary_found: bool, fallback_found: bool) -> SearchEvent {
    match action {
        SearchAction::ListAdapters => SearchEvent::Listed(names),
        SearchAction::RequestAdapter { force_fallback, .. } => {
            SearchEvent::Requested(if force_fallback { fallback_found } else { primary_found })
        },
        _ => SearchEvent::Begin,
    }
}

/// Steps the search on, at most `fuel` times, answering each action as `respond` does.
pub open spec fn drive(
    config: RenderConfig,
    names: Vec<String>,
    primary_found: bool,
    fallback_found: bool,
    phase: SearchPhase,
    action: SearchAction,
    fuel: nat,
) -> (SearchPhase, SearchAction)
    decreases fuel,
{
    if fuel == 0 || phase is Done {
        (phase, action)
    } else {
        let next = search_next(config, phase, respond(action, names, primary_found, fallback_found));
        drive(config, names, primary_found, fallback_found, next.0, next.1, (fuel - 1) as nat)
    }
}

/// The whole search from its start, with three steps after the first.
pub open spec fn run_search(config: RenderConfig, names: Vec<String>, primary_found: bool, fallback_found: bool) -> (SearchPhase, SearchAction) {
    let first = search_next(config, SearchPhase::Start, SearchEvent::Begin);
    drive(config, names, primary_found, fallback_found, first.0, first.1, 3)
}

/// How the search ends: with the first listed adapter whose name contains the
/// configured one (compared in lower case); else, if that name was configured
/// and an unknown name is to stop the process, with that stop; else with the
/// requested adapter, the fallback one, or no adapter, in that order.
pub open spec fn search_outcome(config: RenderConfig, names: Seq<Seq<char>>, primary_found: bool, fallback_found: bool) -> SearchAction {
    match listed_choice(config, names) {
        Some(i) => SearchAction::UseListed(i as usize),
        None => {
            if config.adapter is Some && config.crash_on_invalid_adapter {
                SearchAction::ExitUnknownAdapter
            } else if primary_found || fallback_found {
                SearchAction::UseRequested
            } else {
                SearchAction::FailNoAdapter
            }
        },
    }
}

/// Driven from its start, the search is over within four steps and ends as
/// `search_outcome` says. The listed adapter it picks, if any, is one whose
/// lower-cased name contains the lower-cased configured name while no adapter listed before it
/// does; the process is stopped only when a name was configured, stopping was
/// asked for, and no adapter matches; the search fails only when neither request
/// was granted.
pub proof fn law_search_outcome(config: RenderConfig, names: Vec<String>, primary_found: bool, fallback_found: bool)
    ensures
        run_search(config, names, primary_found, fallback_found)
            == (SearchPhase::Done, search_outcome(config, string_views(names@), primary_found, fallback_found)),
        listed_choice(config, string_views(names@)) matches Some(i) ==> {
                &&& config.adapter is Some
                &&& i < names@.len()
                &&& contains_seq(lowercase(names@[i as int]@), lowercase(config.adapter.unwrap()@))
                &&& forall|j: int| 0 <= j < i ==>
                    !contains_seq(lowercase(#[trigger] names@[j]@), lowercase(config.adapter.unwrap()@))
            },
        search_outcome(config, string_views(names@), primary_found, fallback_found) is ExitUnknownAdapter ==> {
            &&& config.adapter is Some
            &&& config.crash_on_invalid_adapter
            &&& forall|j: int| 0 <= j < names@.len() ==>
                !contains_seq(lowercase(#[trigger] names@[j]@), lowercase(config.adapter.unwrap()@))
        },
        search_outcome(config, string_views(names@), primary_found, fallback_found) is FailNoAdapter
            ==> !primary_found && !fallback_found,
{
    let views = string_views(names@);
    if let Some(wanted) = config.adapter {
        let lowered = lowered_all(views);
        lemma_first_containing(lowered, lowercase(wanted@));
        assert forall|j: int| 0 <= j < names@.len() implies lowered[j] == lowercase(#[trigger] names@[j]@) by {}
    }
    reveal_with_fuel(drive, 4);
}

/// Every event that a caller reports by answering the action honestly is one
/// the search expects: starting is accepted, and after each accepted step that
/// does not end the search, the answer to its action is accepted.
pub proof fn law_answers_accepted(
    config: RenderConfig,
    phase: SearchPhase,
    event: SearchEvent,
    names: Vec<String>,
    primary_found: bool,
    fallback_found: bool,
)
    requires
        accepts(config, phase, event),
    ensures
        accepts(config, SearchPhase::Start, SearchEvent::Begin),
        search_next(config, phase, event).0 != SearchPhase::Done ==> accepts(
            config,
            search_next(config, phase, event).0,
            respond(search_next(config, phase, event).1, names, primary_found, fallback_found),
        ),
{
}

/// Every adapter request carries the configured power preference, the
/// fallback adapter is asked for only after the first request was refused, and
/// the adapters are listed only when a name was configured.
pub proof fn law_requests(config: RenderConfig, phase: SearchPhase, event: SearchEvent)
    requires
        accepts(config, phase, event),
    ensures
        search_next(config, phase, event).1 matches SearchAction::RequestAdapter { power_preference, force_fallback }
            ==> {
                &&& power_preference == config.power_preference
                &&& force_fallback <==> (phase is Primary && event == SearchEvent::Requested(false))
            },
        search_next(config, phase, event).1 is ListAdapters <==> (phase is Start && config.adapter is Some),
{
}

} // verus!
