//! Which comic a navigation leads to.

use crate::failure::Failure;
use crate::state::{State, StateView};
use vstd::prelude::*;

verus! {

/// `rand::rngs::ThreadRng`, the generator that random navigations draw from.
/// Nothing is known of its state.
#[verifier::external_type_specification]
#[verifier::external_body]
pub struct ExThreadRng(rand::rngs::ThreadRng);

/// A request to show another comic.
#[derive(Debug, Clone, Copy, PartialEq, Eq)]
pub enum SwitchToComic {
    Next,
    Previous,
    Latest,
    First,
    Random,
    Bookmarked,
    Specific(u16),
    LastSeen,
}

impl SwitchToComic {
    /// The navigations that are resolved against the archive's latest comic number.
    pub open spec fn spec_needs_latest(self) -> bool {
        self is Next || self is Latest || self is Random
    }

    /// Whether the archive's latest comic number has to be looked up before this
    /// navigation can be resolved.
    #[verifier::when_used_as_spec(spec_needs_latest)]
    pub fn needs_latest(self) -> (needed: bool)
        ensures
            needed == self.spec_needs_latest(),
    {
        match self {
            SwitchToComic::Next | SwitchToComic::Latest | SwitchToComic::Random => true,
            _ => false,
        }
    }
}

/// The comic that comes before `current`: one less, and never below the first.
pub open spec fn previous_number(current: int) -> int {
    if current - 1 >= 1 {
        current - 1
    } else {
        1
    }
}

/// The comic that comes after `current` in an archive whose latest comic is
/// `latest`: one more, and `current` itself where nothing newer is published.
pub open spec fn next_number(current: int, latest: int) -> int {
    if latest > current {
        current + 1
    } else {
        current
    }
}

/// The comic a navigation leads to from `state`. `latest` is the archive's latest
/// comic number, `None` where it could not be determined; `pick` is the number
/// drawn for a random navigation. A navigation that needs the latest number fails
/// without it, and no other navigation fails.
pub open spec fn resolution(
    switch_to_comic: SwitchToComic,
    state: StateView,
    latest: Option<u16>,
    pick: u16,
) -> Result<u16, Failure> {
    match switch_to_comic {
        SwitchToComic::Next => match latest {
            Some(latest) => Ok(next_number(state.current_comic as int, latest as int) as u16),
            None => Err(Failure::LookupFailed),
        },
        SwitchToComic::Previous => Ok(previous_number(state.current_comic as int) as u16),
        SwitchToComic::Latest => match latest {
            Some(latest) => Ok(latest),
            None => Err(Failure::LookupFailed),
        },
        SwitchToComic::First => Ok(1),
        SwitchToComic::Random => match latest {
            Some(_) => Ok(pick),
            None => Err(Failure::LookupFailed),
        },
        SwitchToComic::Bookmarked => match state.bookmarked_comic {
            Some(bookmark) => Ok(bookmark),
            None => Ok(state.current_comic),
        },
        SwitchToComic::Specific(number) => Ok(number),
        SwitchToComic::LastSeen => Ok(state.current_comic),
    }
}

/// Whether `pick` may be drawn for a random navigation in an archive whose latest
/// comic is `latest`: any comic but the latest itself.
pub open spec fn is_fair_pick(latest: u16, pick: u16) -> bool {
    1 <= pick < latest
}

/// `rand::Rng::gen_range` on the half-open range `low..high`, which must not be
/// empty: the number drawn lies in the range. Which number it is depends on the
/// generator, and nothing more is claimed of it.
#[verifier::external_body]
fn random_in_range(rng: &mut rand::rngs::ThreadRng, low: u16, high: u16) -> (pick: u16)
    requires
        low < high,
    ensures
        low <= pick < high,
{
    rand::Rng::gen_range(rng, low..high)
}

/// Resolves a navigation. `latest` is the archive's latest comic number, `None`
/// where it was not looked up or the lookup failed. `pick` is the number drawn for
/// a random navigation, which must be a comic before the latest; for any other
/// navigation it is not read.
pub fn resolve(
    switch_to_comic: SwitchToComic,
    state: &State,
    latest: Option<u16>,
    pick: u16,
) -> (number: Result<u16, Failure>)
    requires
        switch_to_comic is Random ==> (latest matches Some(latest) ==> is_fair_pick(latest, pick)),
    ensures
        number == resolution(switch_to_comic, state@, latest, pick),
{
    let current = state.current_comic();
    match switch_to_comic {
        SwitchToComic::Next => match latest {
            Some(latest) => Ok(
                if latest > current {
                    current + 1
                } else {
                    current
                },
            ),
            None => Err(Failure::LookupFailed),
        },
        SwitchToComic::Previous => Ok(
            if current > 1 {
                current - 1
            } else {
                1
            },
        ),
        SwitchToComic::Latest => match latest {
            Some(latest) => Ok(latest),
            None => Err(Failure::LookupFailed),
        },
        SwitchToComic::First => Ok(1),
        SwitchToComic::Random => match latest {
            Some(_) => Ok(pick),
            None => Err(Failure::LookupFailed),
        },
        SwitchToComic::Bookmarked => match state.bookmarked_comic() {
            Some(bookmark) => Ok(bookmark),
            None => Ok(current),
        },
        SwitchToComic::Specific(number) => Ok(number),
        SwitchToComic::LastSeen => Ok(current),
    }
}

/// Resolves a navigation. `latest` is the archive's latest comic number, `None`
/// where it was not looked up or the lookup failed. A random navigation draws its
/// number from `rng`, among the comics before the latest; the archive must hold at
/// least two comics for it.
pub fn get_comic_number(
    rng: &mut rand::rngs::ThreadRng,
    state: &State,
    switch_to_comic: SwitchToComic,
    latest: Option<u16>,
) -> (number: Result<u16, Failure>)
    requires
        switch_to_comic is Random ==> (latest matches Some(latest) ==> latest >= 2),
    ensures
        !(switch_to_comic is Random) ==> number == resolution(switch_to_comic, state@, latest, 0),
        switch_to_comic is Random ==> match latest {
            Some(latest) => number matches Ok(pick) && is_fair_pick(latest, pick),
            None => number == Err::<u16, Failure>(Failure::LookupFailed),
        },
{
    let pick = match (switch_to_comic, latest) {
        (SwitchToComic::Random, Some(latest)) => random_in_range(rng, 1, latest),
        _ => 0,
    };
    resolve(switch_to_comic, state, latest, pick)
}

/// A step back from any comic after the first leads to the comic before it,
/// whatever is known of the archive.
pub proof fn law_previous_steps_back(state: StateView, latest: Option<u16>, pick: u16)
    requires
        state.current_comic >= 2,
    ensures
        resolution(SwitchToComic::Previous, state, latest, pick) == Ok::<u16, Failure>(
            (state.current_comic - 1) as u16,
        ),
{
}

/// A step back never leads below the first comic: from the first comic it leads to
/// the first comic, and from no comic does it fail.
pub proof fn law_previous_floor(state: StateView, latest: Option<u16>, pick: u16)
    ensures
        resolution(SwitchToComic::Previous, state, latest, pick) is Ok,
        resolution(SwitchToComic::Previous, state, latest, pick)->Ok_0 >= 1,
        state.current_comic <= 1 ==> resolution(SwitchToComic::Previous, state, latest, pick)
            == Ok::<u16, Failure>(1),
{
}

/// A navigation to a given number leads to that number, whatever the number, the
/// state and the archive are.
pub proof fn law_specific_verbatim(number: u16, state: StateView, latest: Option<u16>, pick: u16)
    ensures
        resolution(SwitchToComic::Specific(number), state, latest, pick) == Ok::<u16, Failure>(
            number,
        ),
{
}

/// A random navigation leads to the number that was drawn, which is a comic of
/// the archive and never the latest.
pub proof fn law_random_excludes_latest(state: StateView, latest: u16, pick: u16)
    requires
        is_fair_pick(latest, pick),
    ensures
        resolution(SwitchToComic::Random, state, Some(latest), pick) == Ok::<u16, Failure>(pick),
        1 <= pick < latest,
{
}

/// A navigation fails only for want of the latest comic number, and only where it
/// needs that number.
pub proof fn law_failure_is_failed_lookup(
    switch_to_comic: SwitchToComic,
    state: StateView,
    latest: Option<u16>,
    pick: u16,
)
    ensures
        resolution(switch_to_comic, state, latest, pick) is Err <==> switch_to_comic.needs_latest()
            && latest is None,
        resolution(switch_to_comic, state, latest, pick) matches Err(failure) ==> failure
            == Failure::LookupFailed,
{
}

/// From a valid state, in an archive that holds at least one comic, every
/// navigation but one to a given number leads to a comic number of 1 or more.
pub proof fn law_resolved_number_is_positive(
    switch_to_comic: SwitchToComic,
    state: StateView,
    latest: Option<u16>,
    pick: u16,
)
    requires
        state.valid(),
        !(switch_to_comic is Specific),
        latest matches Some(number) ==> number >= 1,
        switch_to_comic is Random ==> (latest matches Some(number) ==> is_fair_pick(number, pick)),
    ensures
        resolution(switch_to_comic, state, latest, pick) matches Ok(number) ==> number >= 1,
{
}

} // verus!
