//! The finish screen: what was brewed and how long it took.
use crate::brew_screen::{time_text, SimpleTime, TimeView};
use crate::text::{decimal, push_decimal, push_str};
use vstd::prelude::*;

verus! {

/// The messages the finish screen reacts to.
#[derive(Debug, Clone)]
pub enum FinishScreenMessage {
    BackHome,
}

/// The state of the finish screen.
#[derive(Debug)]
pub struct FinishScreenState {
    finish_time: SimpleTime,
    finish_weight: i32,
}

/// The mathematical value of a [`FinishScreenState`].
pub struct FinishView {
    pub finish_time: TimeView,
    pub finish_weight: i32,
}

impl View for FinishScreenState {
    type V = FinishView;

    closed spec fn view(&self) -> FinishView {
        FinishView { finish_time: self.finish_time@, finish_weight: self.finish_weight }
    }
}

impl FinishScreenState {
    pub fn new(finish_time: SimpleTime, finish_weight: i32) -> (r: Self)
        ensures
            r@ == (FinishView { finish_time: finish_time@, finish_weight }),
    {
        FinishScreenState { finish_time, finish_weight }
    }

    /// What the finish screen says about the brew.
    pub fn summary_text(&self) -> (r: String)
        ensures
            r@ == "Finished a brew with "@ + decimal(self@.finish_weight as int)
                + "ml of water in "@ + time_text(self@.finish_time),
    {
        let mut s = String::new();
        push_str(&mut s, "Finished a brew with ");
        push_decimal(&mut s, self.finish_weight as i128);
        push_str(&mut s, "ml of water in ");
        self.finish_time.push_text(&mut s);
        assert(s@ =~= "Finished a brew with "@ + decimal(self@.finish_weight as int)
            + "ml of water in "@ + time_text(self@.finish_time));
        s
    }

    pub fn get_finish_time(&self) -> (r: SimpleTime)
        ensures
            r@ == self@.finish_time,
    {
        self.finish_time
    }

    pub fn get_finish_weight(&self) -> (r: i32)
        ensures
            r == self@.finish_weight,
    {
        self.finish_weight
    }
}

} // verus!
