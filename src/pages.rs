//! The static pages of the client. They hold no state and never change on
//! their own; what they show belongs to the view layer.

use vstd::prelude::*;

verus! {

/// The landing page.
pub struct Home {}

/// The page that explains how to start.
pub struct Start {}

impl Home {
    pub fn create() -> (r: Home) {
        Home {}
    }

    /// A static page has no messages to react to.
    pub fn update(&mut self) -> (render: bool)
        ensures
            !render,
    {
        false
    }

    /// A static page has no properties that could change.
    pub fn change(&mut self) -> (render: bool)
        ensures
            !render,
    {
        false
    }
}

impl Start {
    pub fn create() -> (r: Start) {
        Start {}
    }

    /// A static page has no messages to react to.
    pub fn update(&mut self) -> (render: bool)
        ensures
            !render,
    {
        false
    }

    /// A static page has no properties that could change.
    pub fn change(&mut self) -> (render: bool)
        ensures
            !render,
    {
        false
    }
}

} // verus!
