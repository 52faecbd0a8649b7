//! The session state: the comic on screen and the bookmark.

use crate::failure::Failure;
use vstd::prelude::*;

verus! {

/// What a [`State`] holds, as plain values.
pub struct StateView {
    pub current_comic: u16,
    pub bookmarked_comic: Option<u16>,
}

impl StateView {
    /// Comic numbers start at 1, for the comic on screen and for the bookmark.
    pub open spec fn valid(self) -> bool {
        &&& self.current_comic >= 1
        &&& self.bookmarked_comic matches Some(number) ==> number >= 1
    }

    /// The state a toggle of the bookmark leaves: the bookmark is cleared where it
    /// was on the current comic, and set to the current comic otherwise.
    pub open spec fn toggled(self) -> StateView {
        StateView {
            current_comic: self.current_comic,
            bookmarked_comic: if self.bookmarked_comic == Some(self.current_comic) {
                None
            } else {
                Some(self.current_comic)
            },
        }
    }

    /// The state after the comic on screen changed to `number`.
    pub open spec fn moved_to(self, number: u16) -> StateView {
        StateView { current_comic: number, bookmarked_comic: self.bookmarked_comic }
    }

    /// The state of a first run.
    pub open spec fn initial() -> StateView {
        StateView { current_comic: 1, bookmarked_comic: None }
    }

    /// The state that a record of storage holds, current comic first and bookmark
    /// second: none where there is no record, and none where the record is not
    /// valid.
    pub open spec fn stored_record(stored: Option<(u16, Option<u16>)>) -> Option<StateView> {
        match stored {
            Some((current_comic, bookmarked_comic)) => {
                let record = StateView { current_comic, bookmarked_comic };
                if record.valid() {
                    Some(record)
                } else {
                    None
                }
            },
            None => None,
        }
    }

    /// The state that a session starts from, for the record that was read from
    /// storage: the record where there is one and it is valid, and the state of a
    /// first run otherwise.
    pub open spec fn restored(stored: Option<(u16, Option<u16>)>) -> StateView {
        match StateView::stored_record(stored) {
            Some(record) => record,
            None => StateView::initial(),
        }
    }

    /// The state after a navigation to `number`. No comic has the number 0, so the
    /// state stays as it is for it.
    pub open spec fn navigated(self, number: u16) -> StateView {
        if number >= 1 {
            self.moved_to(number)
        } else {
            self
        }
    }
}

/// The comic on screen and the bookmarked comic, as they are kept from one run to
/// the next.
#[derive(Debug, Clone, Copy, PartialEq, Eq)]
pub struct State {
    current_comic: u16,
    bookmarked_comic: Option<u16>,
}

impl View for State {
    type V = StateView;

    closed spec fn view(&self) -> StateView {
        StateView { current_comic: self.current_comic, bookmarked_comic: self.bookmarked_comic }
    }
}

impl Default for State {
    fn default() -> (state: State)
        ensures
            state@ == StateView::initial(),
    {
        State { current_comic: 1, bookmarked_comic: None }
    }
}

impl State {
    /// Every state is valid.
    #[verifier::type_invariant]
    pub open spec fn inv(self) -> bool {
        self@.valid()
    }

    /// The state that the record of the last session holds. `stored` is the record
    /// as it was read from storage, current comic first and bookmark second, and
    /// `None` where there is no record or it cannot be read. The read fails
    /// without a record, and with one that holds the number 0.
    pub fn try_new(stored: Option<(u16, Option<u16>)>) -> (state: Result<State, Failure>)
        ensures
            match state {
                Ok(state) => StateView::stored_record(stored) == Some(state@),
                Err(failure) => StateView::stored_record(stored) is None && failure
                    == Failure::PersistenceReadFailure,
            },
    {
        match stored {
            Some((current_comic, bookmarked_comic)) => {
                let bookmark_valid = match bookmarked_comic {
                    Some(number) => number >= 1,
                    None => true,
                };
                if current_comic >= 1 && bookmark_valid {
                    Ok(State { current_comic, bookmarked_comic })
                } else {
                    Err(Failure::PersistenceReadFailure)
                }
            },
            None => Err(Failure::PersistenceReadFailure),
        }
    }

    /// The state that a session starts from. `stored` is the record of the last
    /// session as it was read from storage, current comic first and bookmark
    /// second, and `None` where there is no record or it cannot be read. A record
    /// that holds the number 0 is not valid. Without a valid record the session
    /// starts at the first comic, with no bookmark.
    pub fn new(stored: Option<(u16, Option<u16>)>) -> (state: State)
        ensures
            state@ == StateView::restored(stored),
    {
        match State::try_new(stored) {
            Ok(state) => state,
            Err(_) => State::default(),
        }
    }

    /// Makes `number` the current comic, unless it is 0, and says whether it
    /// differs from the comic that was current.
    pub fn switch_to(&mut self, number: u16) -> (changed: bool)
        ensures
            final(self)@ == old(self)@.navigated(number),
            changed == (number != old(self)@.current_comic),
    {
        proof {
            use_type_invariant(&*self);
        }
        let changed = number != self.current_comic;
        if number >= 1 {
            self.current_comic = number;
        }
        changed
    }

    /// Sets the bookmark on the current comic, or clears it where it was there
    /// already, and says whether a bookmark is set afterwards.
    pub fn toggle_bookmark(&mut self) -> (bookmarked: bool)
        ensures
            final(self)@ == old(self)@.toggled(),
            bookmarked == final(self)@.bookmarked_comic.is_some(),
    {
        proof {
            use_type_invariant(&*self);
        }
        self.bookmarked_comic = if self.is_bookmarked() {
            None
        } else {
            Some(self.current_comic)
        };
        self.bookmarked_comic.is_some()
    }

    /// Whether the bookmark is on the current comic.
    pub fn is_bookmarked(&self) -> (on_current: bool)
        ensures
            on_current == (self@.bookmarked_comic == Some(self@.current_comic)),
    {
        match self.bookmarked_comic {
            Some(number) => number == self.current_comic,
            None => false,
        }
    }

    /// The bookmarked comic, if one is bookmarked.
    pub fn bookmarked_comic(&self) -> (bookmark: Option<u16>)
        ensures
            bookmark == self@.bookmarked_comic,
            bookmark matches Some(number) ==> number >= 1,
    {
        proof {
            use_type_invariant(self);
        }
        self.bookmarked_comic
    }

    /// The comic on screen.
    pub fn current_comic(&self) -> (number: u16)
        ensures
            number == self@.current_comic,
            number >= 1,
    {
        proof {
            use_type_invariant(self);
        }
        self.current_comic
    }
}

/// Two toggles in a row, with the same comic on screen, leave the bookmark as it
/// was, where it was unset or on the current comic. A bookmark on another comic is
/// replaced by the first toggle and cannot come back.
pub proof fn law_toggle_twice(state: StateView)
    requires
        state.bookmarked_comic is None || state.bookmarked_comic == Some(state.current_comic),
    ensures
        state.toggled().toggled() == state,
{
}

/// After a toggle the bookmark is unset or on the current comic, so from then on
/// two toggles in a row always cancel.
pub proof fn law_toggle_thrice(state: StateView)
    ensures
        state.toggled().toggled().toggled() == state.toggled(),
{
    law_toggle_twice(state.toggled());
}

/// A toggle never touches the current comic, and keeps a valid state valid.
pub proof fn law_toggle_keeps_current(state: StateView)
    ensures
        state.toggled().current_comic == state.current_comic,
        state.valid() ==> state.toggled().valid(),
{
}

/// Whatever was read from storage, the session starts from a valid state, and
/// from the state of a first run where nothing was read.
pub proof fn law_restored_is_valid(stored: Option<(u16, Option<u16>)>)
    ensures
        StateView::restored(stored).valid(),
        stored is None ==> StateView::restored(stored) == StateView::initial(),
{
}

/// A valid state that is written to storage and read again is the same state.
pub proof fn law_record_round_trip(state: StateView)
    requires
        state.valid(),
    ensures
        StateView::restored(Some((state.current_comic, state.bookmarked_comic))) == state,
{
}

} // verus!
