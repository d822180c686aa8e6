//! The walk along the platform's list of graphics adapters: which position
//! to ask for next, and when the list has ended.
//!
//! The caller asks the platform; the walk decides. What it has recorded at
//! the end is the list that `graphics::enumerate` takes.

use crate::graphics::{AdapterDescription, AdapterDescriptionView};
use vstd::prelude::*;

verus! {

/// What the platform answers when it is asked for the adapter at one
/// position of its list.
#[derive(Clone, Debug)]
pub enum AdapterProbe {
    /// The adapter at that position.
    Described(AdapterDescription),
    /// There is an adapter at that position, but its description could not
    /// be read.
    Unreadable,
    /// There is no adapter at that position: the list has ended.
    NoAdapter,
}

/// A walk along the platform's list of adapters, from position 0 upward.
///
/// The walk says which position to ask the platform for; the caller asks
/// and records the answer. The first answer that is no description ends
/// the walk, and a walk that has ended cannot be taken up again.
#[derive(Clone, Debug)]
pub struct AdapterWalk {
    /// The descriptions recorded so far, each at its position.
    descriptions: Vec<AdapterDescription>,
    finished: bool,
}

/// An `AdapterWalk` as a mathematical value: the descriptions recorded so
/// far, each at its position, and whether the walk has ended.
pub struct AdapterWalkView {
    pub descriptions: Seq<AdapterDescriptionView>,
    pub finished: bool,
}

impl View for AdapterWalk {
    type V = AdapterWalkView;

    closed spec fn view(&self) -> AdapterWalkView {
        AdapterWalkView { descriptions: self.descriptions.deep_view(), finished: self.finished }
    }
}

impl AdapterWalkView {
    /// The position to ask the platform for next: the one after the last
    /// description recorded, as long as the walk has not ended and a 32-bit
    /// index can name it.
    pub open spec fn next_position(self) -> Option<u32> {
        if !self.finished && self.descriptions.len() <= u32::MAX {
            Some(self.descriptions.len() as u32)
        } else {
            None
        }
    }

    /// The walk after the platform's answer for the position it asked for:
    /// a description is recorded at that position, any other answer ends
    /// the walk. Where the walk asks for no position, nothing changes.
    pub open spec fn recorded(
        self,
        description: Option<AdapterDescriptionView>,
    ) -> AdapterWalkView {
        if self.next_position() is None {
            self
        } else {
            match description {
                Some(description) => AdapterWalkView {
                    descriptions: self.descriptions.push(description),
                    finished: false,
                },
                None => AdapterWalkView { descriptions: self.descriptions, finished: true },
            }
        }
    }

    /// The walk after the platform has answered with each of `descriptions`
    /// in turn.
    pub open spec fn recorded_all(
        self,
        descriptions: Seq<AdapterDescriptionView>,
    ) -> AdapterWalkView
        decreases descriptions.len(),
    {
        if descriptions.len() == 0 {
            self
        } else {
            self.recorded_all(descriptions.drop_last()).recorded(Some(descriptions.last()))
        }
    }
}

/// The description that a probe holds, if it holds one.
pub open spec fn probed(probe: AdapterProbe) -> Option<AdapterDescriptionView> {
    match probe {
        AdapterProbe::Described(description) => Some(description@),
        AdapterProbe::Unreadable => None,
        AdapterProbe::NoAdapter => None,
    }
}

impl AdapterWalk {
    /// A walk that stands before position 0.
    pub fn new() -> (walk: Self)
        ensures
            walk@.descriptions.len() == 0,
            !walk@.finished,
            walk@.next_position() == Some(0u32),
    {
        let walk = AdapterWalk { descriptions: Vec::new(), finished: false };
        assert(walk@.descriptions =~= Seq::empty());
        walk
    }

    /// The position to ask the platform for next, or `None` where the walk
    /// has ended.
    pub fn next_position(&self) -> (position: Option<u32>)
        ensures
            position == self@.next_position(),
    {
        if !self.finished && self.descriptions.len() <= 0xffff_ffff {
            Some(self.descriptions.len() as u32)
        } else {
            None
        }
    }

    /// Records the platform's answer for the position that the walk asked
    /// for.
    pub fn record(&mut self, probe: AdapterProbe)
        ensures
            final(self)@ == old(self)@.recorded(probed(probe)),
    {
        if self.next_position().is_some() {
            match probe {
                AdapterProbe::Described(description) => {
                    let ghost earlier = self.descriptions.deep_view();
                    self.descriptions.push(description);
                    assert(self.descriptions.deep_view() =~= earlier.push(description@));
                },
                AdapterProbe::Unreadable => {
                    self.finished = true;
                },
                AdapterProbe::NoAdapter => {
                    self.finished = true;
                },
            }
        }
    }

    /// The descriptions recorded, in the order of their positions.
    pub fn into_descriptions(self) -> (descriptions: Vec<AdapterDescription>)
        ensures
            descriptions.deep_view() == self@.descriptions,
    {
        self.descriptions
    }
}

/// A walk that is answered with each description of a list in turn, and
/// then told that the list has ended, has asked for the positions 0, 1, 2
/// and so on, has recorded the list as it is, and has ended.
pub proof fn lemma_walk_records_the_list(descriptions: Seq<AdapterDescriptionView>)
    requires
        descriptions.len() <= u32::MAX,
    ensures
        ({
            let start = AdapterWalkView { descriptions: Seq::empty(), finished: false };
            &&& forall|k: int|
                0 <= k <= descriptions.len() ==> (#[trigger] start.recorded_all(
                    descriptions.take(k),
                )).next_position() == Some(k as u32)
            &&& start.recorded_all(descriptions).descriptions == descriptions
            &&& start.recorded_all(descriptions).recorded(None) == (AdapterWalkView {
                descriptions,
                finished: true,
            })
            &&& start.recorded_all(descriptions).recorded(None).next_position() is None
        }),
    decreases descriptions.len(),
{
    let start = AdapterWalkView { descriptions: Seq::empty(), finished: false };
    if descriptions.len() > 0 {
        let earlier = descriptions.drop_last();
        lemma_walk_records_the_list(earlier);
        assert(start.recorded_all(earlier).descriptions.push(descriptions.last())
            =~= descriptions);
        assert forall|k: int| 0 <= k <= descriptions.len() implies (#[trigger] start.recorded_all(
            descriptions.take(k),
        )).next_position() == Some(k as u32) by {
            if k < descriptions.len() {
                assert(descriptions.take(k) =~= earlier.take(k));
            } else {
                assert(descriptions.take(k) =~= descriptions);
                assert(earlier.take(k - 1) =~= earlier);
                assert(start.recorded_all(earlier.take(k - 1)).next_position() == Some(
                    (k - 1) as u32,
                ));
            }
        }
    } else {
        assert forall|k: int| 0 <= k <= descriptions.len() implies (#[trigger] start.recorded_all(
            descriptions.take(k),
        )).next_position() == Some(k as u32) by {
            assert(descriptions.take(k) =~= descriptions);
        }
    }
}

} // verus!
