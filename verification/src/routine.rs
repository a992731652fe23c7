//! The routine entity: a daily recurring checklist item with a lazy
//! daily reset applied when it is read back from a document.

use vstd::prelude::*;

use crate::fresh::{fresh_id, now_rfc3339, today_ymd};
use crate::todo::opt_view;

verus! {

/// A daily recurring checklist item.
#[derive(Debug)]
pub struct Routine {
    pub id: String,
    pub text: String,
    pub completed_today: bool,
    pub last_completed_date: Option<String>,
    pub created_at: String,
}

/// The mathematical shape of a routine.
pub ghost struct RoutineV {
    pub id: Seq<char>,
    pub text: Seq<char>,
    pub completed_today: bool,
    pub last_completed_date: Option<Seq<char>>,
    pub created_at: Seq<char>,
}

impl View for Routine {
    type V = RoutineV;

    open spec fn view(&self) -> RoutineV {
        RoutineV {
            id: self.id@,
            text: self.text@,
            completed_today: self.completed_today,
            last_completed_date: opt_view(self.last_completed_date),
            created_at: self.created_at@,
        }
    }
}

impl Clone for Routine {
    /// A clone carries the same shape.
    fn clone(&self) -> (r: Self)
        ensures
            r@ == self@,
    {
        Routine {
            id: self.id.clone(),
            text: self.text.clone(),
            completed_today: self.completed_today,
            last_completed_date: self.last_completed_date.clone(),
            created_at: self.created_at.clone(),
        }
    }
}

/// What a toggle leaves: the flag flipped; flipping it on records the
/// day, flipping it off leaves the recorded day alone.
pub open spec fn spec_toggle(r: RoutineV, today: Seq<char>) -> RoutineV {
    if r.completed_today {
        RoutineV { completed_today: false, ..r }
    } else {
        RoutineV { completed_today: true, last_completed_date: Some(today), ..r }
    }
}

/// What the daily reset leaves: a recorded day other than today forces
/// the flag off; the recorded day itself is never touched.
pub open spec fn spec_daily_reset(r: RoutineV, today: Seq<char>) -> RoutineV {
    match r.last_completed_date {
        Some(d) => if d != today {
            RoutineV { completed_today: false, ..r }
        } else {
            r
        },
        None => r,
    }
}

impl Routine {
    /// Builds a fresh routine from the given identifier and creation
    /// time: not completed today, no recorded day.
    pub fn new_at(id: String, text: String, now: String) -> (r: Self)
        ensures
            r@ == (RoutineV {
                id: id@,
                text: text@,
                completed_today: false,
                last_completed_date: None,
                created_at: now@,
            }),
    {
        Routine { id, text, completed_today: false, last_completed_date: None, created_at: now }
    }

    /// Builds a fresh routine with a generated 8-character identifier
    /// and the current time.
    pub fn new(text: String) -> (r: Self)
        ensures
            r@.id.len() == 8,
            r@.text == text@,
            !r@.completed_today,
            r@.last_completed_date is None,
    {
        let id = fresh_id();
        let now = now_rfc3339();
        Self::new_at(id, text, now)
    }

    /// Flips the flag for the given day, as `spec_toggle` says.
    pub fn toggle_at(&mut self, today: &str)
        ensures
            final(self)@ == spec_toggle(old(self)@, today@),
    {
        self.completed_today = !self.completed_today;
        if self.completed_today {
            self.last_completed_date = Some(today.to_owned());
        }
    }

    /// Flips the flag, recording the current calendar day when flipping
    /// it on.
    pub fn toggle(&mut self)
        ensures
            exists|today: Seq<char>| final(self)@ == spec_toggle(old(self)@, today),
    {
        let today = today_ymd();
        self.toggle_at(today.as_str());
    }

    /// Applies the daily reset against the given day, as
    /// `spec_daily_reset` says. It persists nothing itself.
    pub fn check_daily_reset_on(&mut self, today: &str)
        ensures
            final(self)@ == spec_daily_reset(old(self)@, today@),
    {
        let stale = match &self.last_completed_date {
            Some(d) => !crate::text::str_eq(d.as_str(), today),
            None => false,
        };
        if stale {
            self.completed_today = false;
        }
    }

    /// Applies the daily reset against the current calendar day.
    pub fn check_daily_reset(&mut self)
        ensures
            exists|today: Seq<char>| final(self)@ == spec_daily_reset(old(self)@, today),
    {
        let today = today_ymd();
        self.check_daily_reset_on(today.as_str());
    }
}

/// The daily reset never touches the recorded day, is idempotent, and
/// forces the flag off exactly when a recorded day differs from today.
pub proof fn lemma_daily_reset(r: RoutineV, today: Seq<char>)
    ensures
        spec_daily_reset(r, today).last_completed_date == r.last_completed_date,
        spec_daily_reset(spec_daily_reset(r, today), today) == spec_daily_reset(r, today),
        spec_daily_reset(r, today).completed_today == (r.completed_today && !(r.last_completed_date
            is Some && r.last_completed_date->0 != today)),
{
}

} // verus!
