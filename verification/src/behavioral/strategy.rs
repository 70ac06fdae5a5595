//! Strategy: a family of algorithms, each in a class of its own, of which
//! the caller picks one and hands it in.
//!
//! The algorithms find a route between two places; the one moves by
//! bicycle, the other by motorbike.

use crate::transcript::Transcript;
use vstd::prelude::*;

verus! {

/// A route that was found: how long it takes and how far it is.
#[derive(Debug)]
pub struct PathResult {
    pub hour: u8,
    pub kilometers: i64,
}

/// A way of finding a route.
pub trait Route {
    /// The route that this way finds, whatever the places.
    spec fn route(&self) -> PathResult;

    /// The line that finding a route from `from` to `to` puts out.
    spec fn announcement(&self, from: Seq<char>, to: Seq<char>) -> Seq<char>;

    /// Finds a route from `from` to `to`.
    fn build_route(&self, from: &str, to: &str, out: &mut Transcript) -> (path: PathResult)
        ensures
            path == self.route(),
            final(out)@ == old(out)@.push(self.announcement(from@, to@)),
    ;
}

/// By bicycle.
pub struct Bicyle;

impl Route for Bicyle {
    open spec fn route(&self) -> PathResult {
        PathResult { hour: 8, kilometers: 300 }
    }

    open spec fn announcement(&self, from: Seq<char>, to: Seq<char>) -> Seq<char> {
        "moving from "@ + from + " to "@ + to + " by Bicyle take 8hours"@
    }

    fn build_route(&self, from: &str, to: &str, out: &mut Transcript) -> (path: PathResult) {
        let mut line = "moving from ".to_owned();
        line.append(from);
        line.append(" to ");
        line.append(to);
        line.append(" by Bicyle take 8hours");
        out.record(line);
        PathResult { hour: 8, kilometers: 300 }
    }
}

/// By motorbike.
pub struct MotorBike;

impl Route for MotorBike {
    open spec fn route(&self) -> PathResult {
        PathResult { hour: 2, kilometers: 500 }
    }

    open spec fn announcement(&self, from: Seq<char>, to: Seq<char>) -> Seq<char> {
        "moving from "@ + from + " to "@ + to + " by MotorBike take 2hours"@
    }

    fn build_route(&self, from: &str, to: &str, out: &mut Transcript) -> (path: PathResult) {
        let mut line = "moving from ".to_owned();
        line.append(from);
        line.append(" to ");
        line.append(to);
        line.append(" by MotorBike take 2hours");
        out.record(line);
        PathResult { hour: 2, kilometers: 500 }
    }
}

/// A move from one place to another.
pub struct Move<'a> {
    pub from: &'a str,
    pub to: &'a str,
}

impl<'a> Move<'a> {
    /// The move from `from` to `to`.
    pub fn new(from: &'a str, to: &'a str) -> (moving: Self)
        ensures
            moving.from == from,
            moving.to == to,
    {
        Self { from, to }
    }

    /// Finds the route of this move in the way `strategy`.
    pub fn find_path<R: Route>(&self, strategy: R, out: &mut Transcript) -> (path: PathResult)
        ensures
            path == strategy.route(),
            final(out)@ == old(out)@.push(strategy.announcement(self.from@, self.to@)),
    {
        strategy.build_route(self.from, self.to, out)
    }
}

} // verus!
