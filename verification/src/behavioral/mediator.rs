//! Mediator: the parts of a program do not talk to each other but to one
//! object between them, which alone knows how they depend on each other.
//!
//! The trains of a station do not look out for each other: each tells the
//! station that it arrives or departs, and the station, which has one
//! platform, lets it in or has it wait.

use crate::text::{same_text, texts};
use crate::transcript::Transcript;
use std::collections::VecDeque;
use vstd::hash_map::StringHashMap;
use vstd::prelude::*;

verus! {

/// The line of a train that has to wait.
pub open spec fn blocked_line(label: Seq<char>, name: Seq<char>) -> Seq<char> {
    label + " train "@ + name + " Arrival blocked, waiting"@
}

/// The line of a train that is let onto the platform.
pub open spec fn arrived_line(label: Seq<char>, name: Seq<char>) -> Seq<char> {
    label + " train "@ + name + ": Arrived"@
}

/// The line of a train that leaves.
pub open spec fn leaving_line(label: Seq<char>, name: Seq<char>) -> Seq<char> {
    label + " train "@ + name + ": Leaving"@
}

/// The line of the station when the train on the platform is about to
/// leave.
pub open spec fn ready_line(name: Seq<char>) -> Seq<char> {
    "Train "@ + name + " is ready for departure"@
}

/// The line of the station when a train has left.
pub open spec fn departed_line(name: Seq<char>) -> Seq<char> {
    "Train "@ + name + " has departure"@
}

/// The one that the trains talk to.
pub trait Mediator: Sized {
    /// Whether a train that arrives now is let in.
    spec fn lets_in(self) -> bool;

    /// Whether `after` is the mediator once the train `train_name` has
    /// said that it arrives.
    spec fn arrival(self, train_name: Seq<char>, after: Self) -> bool;

    /// Whether the mediator can take the departure of `train_name`.
    spec fn can_release(self, train_name: Seq<char>) -> bool;

    /// Whether `after` is the mediator once the train `train_name` has
    /// said that it departs.
    spec fn departure(self, train_name: Seq<char>, after: Self) -> bool;

    /// The lines that the departure of `train_name` puts out.
    spec fn departure_lines(self, train_name: Seq<char>) -> Seq<Seq<char>>;

    /// Takes note that the train `train_name` arrives, and says whether it
    /// is let in.
    fn notify_about_arrival(&mut self, train_name: &str) -> (let_in: bool)
        ensures
            let_in == (*old(self)).lets_in(),
            (*old(self)).arrival(train_name@, *final(self)),
    ;

    /// Takes note that the train `train_name` departs.
    fn notify_about_departure(&mut self, train_name: &str, out: &mut Transcript)
        requires
            (*old(self)).can_release(train_name@),
        ensures
            (*old(self)).departure(train_name@, *final(self)),
            final(out)@ == old(out)@ + (*old(self)).departure_lines(train_name@),
    ;
}

/// A train. It tells the mediator what it does, says what came of it, and
/// stays as it was.
pub trait Train: Sized {
    /// The line that the train runs on.
    spec fn label(&self) -> Seq<char>;

    /// The name of the train.
    spec fn name_text(&self) -> Seq<char>;

    /// The name of the train.
    fn name(&self) -> (name: &String)
        ensures
            name@ == self.name_text(),
    ;

    /// Says what came of the train's arrival: whether it was let in.
    fn report_arrival(&self, let_in: bool, out: &mut Transcript)
        ensures
            final(out)@ == old(out)@.push(
                if let_in {
                    arrived_line(self.label(), self.name_text())
                } else {
                    blocked_line(self.label(), self.name_text())
                },
            ),
    ;

    /// Tells `mediator` that the train arrives, and says whether it was
    /// let in.
    fn arrive<M: Mediator>(&mut self, mediator: &mut M, out: &mut Transcript)
        ensures
            *final(self) == *old(self),
            (*old(mediator)).arrival(old(self).name_text(), *final(mediator)),
            final(out)@ == old(out)@.push(
                if (*old(mediator)).lets_in() {
                    arrived_line(old(self).label(), old(self).name_text())
                } else {
                    blocked_line(old(self).label(), old(self).name_text())
                },
            ),
    ;

    /// Says that the train leaves, and tells `mediator` so.
    fn depart<M: Mediator>(&mut self, mediator: &mut M, out: &mut Transcript)
        requires
            (*old(mediator)).can_release(old(self).name_text()),
        ensures
            *final(self) == *old(self),
            (*old(mediator)).departure(old(self).name_text(), *final(mediator)),
            final(out)@ == old(out)@.push(leaving_line(old(self).label(), old(self).name_text()))
                + (*old(mediator)).departure_lines(old(self).name_text()),
    ;
}

/// A train of the line HCM.
pub struct HCMTrain {
    pub name: String,
}

/// A train of the line SE.
pub struct SETrain {
    pub name: String,
}

/// What a train says of its arrival or its leaving: the line it runs on,
/// its name, and the words `ending`.
fn train_line(label: &str, name: &str, ending: &str) -> (line: String)
    ensures
        line@ == label@ + " train "@ + name@ + ending@,
{
    let mut line = label.to_owned();
    line.append(" train ");
    line.append(name);
    line.append(ending);
    line
}

impl Train for HCMTrain {
    open spec fn label(&self) -> Seq<char> {
        "HCM"@
    }

    open spec fn name_text(&self) -> Seq<char> {
        self.name@
    }

    fn name(&self) -> (name: &String) {
        &self.name
    }

    fn report_arrival(&self, let_in: bool, out: &mut Transcript) {
        if !let_in {
            out.record(train_line("HCM", self.name.as_str(), " Arrival blocked, waiting"));
            return ;
        }
        out.record(train_line("HCM", self.name.as_str(), ": Arrived"));
    }

    fn arrive<M: Mediator>(&mut self, mediator: &mut M, out: &mut Transcript) {
        let let_in = mediator.notify_about_arrival(self.name.as_str());
        self.report_arrival(let_in, out);
    }

    fn depart<M: Mediator>(&mut self, mediator: &mut M, out: &mut Transcript) {
        out.record(train_line("HCM", self.name.as_str(), ": Leaving"));
        mediator.notify_about_departure(self.name.as_str(), out)
    }
}

impl Train for SETrain {
    open spec fn label(&self) -> Seq<char> {
        "SE"@
    }

    open spec fn name_text(&self) -> Seq<char> {
        self.name@
    }

    fn name(&self) -> (name: &String) {
        &self.name
    }

    fn report_arrival(&self, let_in: bool, out: &mut Transcript) {
        if !let_in {
            out.record(train_line("SE", self.name.as_str(), " Arrival blocked, waiting"));
            return ;
        }
        out.record(train_line("SE", self.name.as_str(), ": Arrived"));
    }

    fn arrive<M: Mediator>(&mut self, mediator: &mut M, out: &mut Transcript) {
        let let_in = mediator.notify_about_arrival(self.name.as_str());
        self.report_arrival(let_in, out);
    }

    fn depart<M: Mediator>(&mut self, mediator: &mut M, out: &mut Transcript) {
        out.record(train_line("SE", self.name.as_str(), ": Leaving"));
        mediator.notify_about_departure(self.name.as_str(), out)
    }
}

/// A train of either line.
pub enum AnyTrain {
    HCM(HCMTrain),
    SE(SETrain),
}

impl Clone for AnyTrain {
    fn clone(&self) -> (copy: Self)
        ensures
            copy == *self,
    {
        match self {
            AnyTrain::HCM(train) => AnyTrain::HCM(HCMTrain { name: train.name.clone() }),
            AnyTrain::SE(train) => AnyTrain::SE(SETrain { name: train.name.clone() }),
        }
    }
}

impl Train for AnyTrain {
    open spec fn label(&self) -> Seq<char> {
        match self {
            AnyTrain::HCM(train) => train.label(),
            AnyTrain::SE(train) => train.label(),
        }
    }

    open spec fn name_text(&self) -> Seq<char> {
        match self {
            AnyTrain::HCM(train) => train.name_text(),
            AnyTrain::SE(train) => train.name_text(),
        }
    }

    fn name(&self) -> (name: &String) {
        match self {
            AnyTrain::HCM(train) => train.name(),
            AnyTrain::SE(train) => train.name(),
        }
    }

    fn report_arrival(&self, let_in: bool, out: &mut Transcript) {
        match self {
            AnyTrain::HCM(train) => train.report_arrival(let_in, out),
            AnyTrain::SE(train) => train.report_arrival(let_in, out),
        }
    }

    fn arrive<M: Mediator>(&mut self, mediator: &mut M, out: &mut Transcript) {
        match self {
            AnyTrain::HCM(train) => train.arrive(mediator, out),
            AnyTrain::SE(train) => train.arrive(mediator, out),
        }
    }

    fn depart<M: Mediator>(&mut self, mediator: &mut M, out: &mut Transcript) {
        match self {
            AnyTrain::HCM(train) => train.depart(mediator, out),
            AnyTrain::SE(train) => train.depart(mediator, out),
        }
    }
}

/// Whether a station with these trains, this queue and this platform can
/// take the departure of `name`. When `name` stands on the platform, the
/// first train of the queue is let in and the one behind it is moved up
/// after it, so two trains must be waiting and the first must be known to
/// the station; when not, the first train of the queue is moved up, so one
/// must be waiting.
pub open spec fn can_take_departure(
    trains: Map<Seq<char>, AnyTrain>,
    queue: Seq<Seq<char>>,
    platform: Option<Seq<char>>,
    name: Seq<char>,
) -> bool {
    if platform == Some(name) {
        queue.len() >= 2 && trains.contains_key(queue[0])
    } else {
        queue.len() >= 1
    }
}

/// The lines that the departure of `name` puts out at such a station.
pub open spec fn lines_of_departure(
    trains: Map<Seq<char>, AnyTrain>,
    queue: Seq<Seq<char>>,
    platform: Option<Seq<char>>,
    name: Seq<char>,
) -> Seq<Seq<char>> {
    if platform == Some(name) {
        seq![
            ready_line(name),
            arrived_line(trains[queue[0]].label(), trains[queue[0]].name_text()),
            departed_line(name),
        ]
    } else {
        seq![departed_line(name)]
    }
}

/// The mediator: a station with one platform. It knows the trains that it
/// has accepted, which of them stands on the platform, and which wait, in
/// the order in which they came.
pub struct TrainStation {
    trains: StringHashMap<AnyTrain>,
    train_queue: VecDeque<String>,
    train_on_platform: Option<String>,
}

impl TrainStation {
    /// The trains that the station knows, by name.
    pub closed spec fn trains(&self) -> Map<Seq<char>, AnyTrain> {
        self.trains@
    }

    /// The names of the trains that wait, the one that came first in front.
    pub closed spec fn queue(&self) -> Seq<Seq<char>> {
        texts(self.train_queue@)
    }

    /// The name of the train on the platform, if one stands there.
    pub closed spec fn platform(&self) -> Option<Seq<char>> {
        match self.train_on_platform {
            Some(name) => Some(name@),
            None => None,
        }
    }

    /// Whether the station knows the trains `trains`, has `queue` waiting
    /// and `platform` on its platform.
    pub open spec fn holds(
        &self,
        trains: Map<Seq<char>, AnyTrain>,
        queue: Seq<Seq<char>>,
        platform: Option<Seq<char>>,
    ) -> bool {
        &&& self.trains() == trains
        &&& self.queue() == queue
        &&& self.platform() == platform
    }

    /// Takes `train` in, unless a train of its name is known already. The
    /// train arrives, on the platform or in the queue, and is known from
    /// then on.
    pub fn accept(&mut self, train: AnyTrain, out: &mut Transcript)
        ensures
            if old(self).trains().contains_key(train.name_text()) {
                &&& final(self).holds(old(self).trains(), old(self).queue(), old(self).platform())
                &&& final(out)@ == old(out)@.push(train.name_text() + " already arrived"@)
            } else if old(self).platform() is None {
                &&& final(self).holds(
                    old(self).trains().insert(train.name_text(), train),
                    old(self).queue(),
                    Some(train.name_text()),
                )
                &&& final(out)@ == old(out)@.push(arrived_line(train.label(), train.name_text()))
            } else {
                &&& final(self).holds(
                    old(self).trains().insert(train.name_text(), train),
                    old(self).queue().push(train.name_text()),
                    old(self).platform(),
                )
                &&& final(out)@ == old(out)@.push(blocked_line(train.label(), train.name_text()))
            },
    {
        if self.trains.contains_key(train.name().as_str()) {
            let mut line = train.name().clone();
            line.append(" already arrived");
            out.record(line);
            return ;
        }
        let mut train = train;
        train.arrive(self, out);
        self.trains.insert(train.name().clone(), train);
    }

    /// Whether [`depart`](Self::depart) can be asked for `name`: no train is
    /// known as `name`, or the station can take the departure of the one
    /// that is.
    pub fn can_depart(&self, name: &str) -> (possible: bool)
        ensures
            possible == (self.trains().contains_key(name@) ==> can_take_departure(
                self.trains().remove(name@),
                self.queue(),
                self.platform(),
                self.trains()[name@].name_text(),
            )),
    {
        match self.trains.get(name) {
            None => true,
            Some(train) => {
                let on_platform = match &self.train_on_platform {
                    Some(current) => same_text(current.as_str(), train.name().as_str()),
                    None => false,
                };
                if on_platform {
                    self.train_queue.len() >= 2 && !same_text(self.train_queue[0].as_str(), name)
                        && self.trains.contains_key(self.train_queue[0].as_str())
                } else {
                    self.train_queue.len() >= 1
                }
            },
        }
    }

    /// Has the train known as `name` depart, if there is one. The station
    /// knows it no longer; the train leaves and tells the station so under
    /// its own name.
    pub fn depart(&mut self, name: &'static str, out: &mut Transcript)
        requires
            old(self).trains().contains_key(name@) ==> can_take_departure(
                old(self).trains().remove(name@),
                old(self).queue(),
                old(self).platform(),
                old(self).trains()[name@].name_text(),
            ),
        ensures
            if old(self).trains().contains_key(name@) {
                let train = old(self).trains()[name@];
                let others = old(self).trains().remove(name@);
                let queue = old(self).queue();
                &&& final(out)@ == old(out)@.push(leaving_line(train.label(), train.name_text()))
                    + lines_of_departure(others, queue, old(self).platform(), train.name_text())
                &&& if old(self).platform() == Some(train.name_text()) {
                    final(self).holds(others, queue.skip(2), Some(queue[1]))
                } else {
                    final(self).holds(others, queue.skip(1), Some(queue[0]))
                }
            } else {
                &&& final(self).holds(old(self).trains(), old(self).queue(), old(self).platform())
                &&& final(out)@ == old(out)@.push(name@ + " is not on the station"@)
            },
    {
        let train = match self.trains.get(name) {
            Some(train) => Some(train.clone()),
            None => None,
        };
        self.trains.remove(name);
        if let Some(mut train) = train {
            train.depart(self, out);
        } else {
            let mut line = name.to_owned();
            line.append(" is not on the station");
            out.record(line);
            assert(self.trains@ =~= old(self).trains@);
        }
    }
}

impl Default for TrainStation {
    /// A station without trains.
    fn default() -> (station: Self)
        ensures
            station.trains() == Map::<Seq<char>, AnyTrain>::empty(),
            station.queue() == Seq::<Seq<char>>::empty(),
            station.platform() == None::<Seq<char>>,
    {
        TrainStation {
            trains: StringHashMap::new(),
            train_queue: VecDeque::new(),
            train_on_platform: None,
        }
    }
}

impl Mediator for TrainStation {
    /// A train is let in when the platform is free.
    open spec fn lets_in(self) -> bool {
        self.platform() is None
    }

    /// The train takes the platform if it is free, and the last place in
    /// the queue if not.
    open spec fn arrival(self, train_name: Seq<char>, after: Self) -> bool {
        if self.platform() is None {
            after.holds(self.trains(), self.queue(), Some(train_name))
        } else {
            after.holds(self.trains(), self.queue().push(train_name), self.platform())
        }
    }

    open spec fn can_release(self, train_name: Seq<char>) -> bool {
        can_take_departure(self.trains(), self.queue(), self.platform(), train_name)
    }

    /// When the train stood on the platform, the first two of the queue
    /// leave it and the second of them is on the platform; when not, the
    /// first of the queue leaves it and is on the platform.
    open spec fn departure(self, train_name: Seq<char>, after: Self) -> bool {
        if self.platform() == Some(train_name) {
            after.holds(self.trains(), self.queue().skip(2), Some(self.queue()[1]))
        } else {
            after.holds(self.trains(), self.queue().skip(1), Some(self.queue()[0]))
        }
    }

    open spec fn departure_lines(self, train_name: Seq<char>) -> Seq<Seq<char>> {
        lines_of_departure(self.trains(), self.queue(), self.platform(), train_name)
    }

    fn notify_about_departure(&mut self, name: &str, out: &mut Transcript) {
        let ghost waiting = self.queue();
        let on_platform = match &self.train_on_platform {
            Some(current) => same_text(current.as_str(), name),
            None => false,
        };
        if on_platform {
            let mut line = "Train ".to_owned();
            line.append(name);
            line.append(" is ready for departure");
            out.record(line);
            self.train_on_platform = None;
            if let Some(next_train_name) = self.train_queue.pop_front() {
                let next_train = self.trains.get(next_train_name.as_str()).unwrap().clone();
                self.trains.remove(next_train_name.as_str());
                let let_in = self.notify_about_arrival(next_train.name().as_str());
                next_train.report_arrival(let_in, out);
                self.trains.insert(next_train_name.clone(), next_train);
                self.train_on_platform = Some(next_train_name);
            }
        }
        let ghost still_waiting = self.queue();
        assert(still_waiting == if on_platform {
            waiting.skip(1)
        } else {
            waiting
        });
        let following = self.train_queue.pop_front().unwrap();
        assert(self.queue() =~= still_waiting.skip(1));
        self.train_on_platform = Some(following);
        assert(self.trains() == old(self).trains());
        assert(self.platform() == Some(still_waiting[0]));

        let mut line = "Train ".to_owned();
        line.append(name);
        line.append(" has departure");
        out.record(line);
        assert(self.queue() =~= if on_platform {
            waiting.skip(2)
        } else {
            waiting.skip(1)
        });
    }

    fn notify_about_arrival(&mut self, train_name: &str) -> (let_in: bool) {
        if self.train_on_platform.is_some() {
            self.train_queue.push_back(train_name.to_owned());
            assert(self.queue() =~= old(self).queue().push(train_name@));
            false
        } else {
            self.train_on_platform = Some(train_name.to_owned());
            true
        }
    }
}

} // verus!
