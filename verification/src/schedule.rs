//! The order of a frame: which sets of systems run, in what order, and which of
//! them the pause menu holds back.

use crate::menu::MenuState;
use vstd::prelude::*;

verus! {

/// The sets of systems that a frame is made of.
#[derive(Clone, Copy, PartialEq, Eq, Structural, Debug, Hash)]
pub enum ScheduleSet {
    /// Hears the key of the menu and opens or closes it.
    CheckMenu,
    /// Lets the player's keys and wheel act on the tank and the camera.
    Input,
    /// Moves what moves.
    Physics,
    /// Puts models and camera where the motion model has them.
    UpdateWorld,
    /// Shows the figures of the tank.
    Debug,
    /// Serves the buttons of the pause menu.
    PauseMenu,
}

impl ScheduleSet {
    /// Whether the set runs in a frame whose menu, once checked, is in
    /// `state`: the check and the figures always, the game only while the menu
    /// is closed, the buttons only while it is open.
    pub open spec fn runs_in(self, state: MenuState) -> bool {
        match self {
            ScheduleSet::CheckMenu => true,
            ScheduleSet::Input => state == MenuState::Closed,
            ScheduleSet::Physics => state == MenuState::Closed,
            ScheduleSet::UpdateWorld => state == MenuState::Closed,
            ScheduleSet::PauseMenu => state == MenuState::Open,
            ScheduleSet::Debug => true,
        }
    }

    /// Whether the set belongs to the game proper.
    pub open spec fn is_gameplay(self) -> bool {
        self == ScheduleSet::Input || self == ScheduleSet::Physics || self
            == ScheduleSet::UpdateWorld
    }

    /// Whether the set runs while the menu is in `state`.
    pub fn is_enabled(self, state: MenuState) -> (r: bool)
        ensures
            r == self.runs_in(state),
    {
        match self {
            ScheduleSet::CheckMenu => true,
            ScheduleSet::Input => state == MenuState::Closed,
            ScheduleSet::Physics => state == MenuState::Closed,
            ScheduleSet::UpdateWorld => state == MenuState::Closed,
            ScheduleSet::PauseMenu => state == MenuState::Open,
            ScheduleSet::Debug => true,
        }
    }
}

/// All sets in the order in which a frame takes them up. The sets of the game
/// follow one another; each sees what the one before it has written.
pub open spec fn order() -> Seq<ScheduleSet> {
    seq![
        ScheduleSet::CheckMenu,
        ScheduleSet::Input,
        ScheduleSet::Physics,
        ScheduleSet::UpdateWorld,
        ScheduleSet::PauseMenu,
        ScheduleSet::Debug,
    ]
}

/// The sets that run in a frame whose menu, once checked, is in `state`.
pub open spec fn plan(state: MenuState) -> Seq<ScheduleSet> {
    match state {
        MenuState::Closed => seq![
            ScheduleSet::CheckMenu,
            ScheduleSet::Input,
            ScheduleSet::Physics,
            ScheduleSet::UpdateWorld,
            ScheduleSet::Debug,
        ],
        MenuState::Open => seq![
            ScheduleSet::CheckMenu,
            ScheduleSet::PauseMenu,
            ScheduleSet::Debug,
        ],
    }
}

/// All sets in the order in which a frame takes them up.
pub fn schedule_order() -> (sets: Vec<ScheduleSet>)
    ensures
        sets@ == order(),
{
    let mut sets: Vec<ScheduleSet> = Vec::new();
    sets.push(ScheduleSet::CheckMenu);
    sets.push(ScheduleSet::Input);
    sets.push(ScheduleSet::Physics);
    sets.push(ScheduleSet::UpdateWorld);
    sets.push(ScheduleSet::PauseMenu);
    sets.push(ScheduleSet::Debug);
    assert(sets@ =~= order());
    sets
}

/// The sets that run in a frame whose menu, once checked, is in `state`: each
/// set of the order is asked afresh whether it runs.
pub fn frame_plan(state: MenuState) -> (sets: Vec<ScheduleSet>)
    ensures
        sets@ == plan(state),
{
    let all = schedule_order();
    let mut sets: Vec<ScheduleSet> = Vec::new();
    let mut i: usize = 0;
    while i < all.len()
        invariant
            i <= all.len(),
            all@ == order(),
            sets@ == order().take(i as int).filter(|s: ScheduleSet| s.runs_in(state)),
        decreases all.len() - i,
    {
        proof {
            let keep = |s: ScheduleSet| s.runs_in(state);
            assert(order().take(i + 1) =~= order().take(i as int).push(order()[i as int]));
            lemma_filter_push(order().take(i as int), order()[i as int], keep);
        }
        if all[i].is_enabled(state) {
            sets.push(all[i]);
        }
        i += 1;
    }
    proof {
        assert(order().take(6) =~= order());
        lemma_plan_is_filtered_order(state);
    }
    sets
}

/// Filtering a sequence with one more element keeps or drops that element.
pub proof fn lemma_filter_push<A>(s: Seq<A>, a: A, keep: spec_fn(A) -> bool)
    ensures
        s.push(a).filter(keep) == if keep(a) {
            s.filter(keep).push(a)
        } else {
            s.filter(keep)
        },
{
    reveal(Seq::filter);
    assert(s.push(a).drop_last() =~= s);
}

/// The plan of a frame is the order of the sets, without those that the state
/// of the menu holds back.
pub proof fn lemma_plan_is_filtered_order(state: MenuState)
    ensures
        plan(state) == order().filter(|s: ScheduleSet| s.runs_in(state)),
{
    let keep = |s: ScheduleSet| s.runs_in(state);
    let o = order();
    let s0 = Seq::<ScheduleSet>::empty();
    reveal(Seq::filter);
    assert(s0.filter(keep) =~= s0);
    let s1 = s0.push(o[0]);
    lemma_filter_push(s0, o[0], keep);
    let s2 = s1.push(o[1]);
    lemma_filter_push(s1, o[1], keep);
    let s3 = s2.push(o[2]);
    lemma_filter_push(s2, o[2], keep);
    let s4 = s3.push(o[3]);
    lemma_filter_push(s3, o[3], keep);
    let s5 = s4.push(o[4]);
    lemma_filter_push(s4, o[4], keep);
    let s6 = s5.push(o[5]);
    lemma_filter_push(s5, o[5], keep);
    assert(s6 =~= o);
    assert(plan(state) =~= s6.filter(keep));
}

/// In every frame either the sets of the game run or the set of the pause
/// menu: never both, never neither. The check of the menu and the figures run
/// in every frame.
pub proof fn lemma_menu_exclusivity(state: MenuState)
    ensures
        plan(state).contains(ScheduleSet::PauseMenu) != plan(state).contains(ScheduleSet::Input),
        plan(state).contains(ScheduleSet::Input) == plan(state).contains(ScheduleSet::Physics),
        plan(state).contains(ScheduleSet::Input) == plan(state).contains(
            ScheduleSet::UpdateWorld,
        ),
        plan(state).contains(ScheduleSet::Input) == (state == MenuState::Closed),
        plan(state).contains(ScheduleSet::CheckMenu),
        plan(state).contains(ScheduleSet::Debug),
{
    let p = plan(state);
    assert(p[0] == ScheduleSet::CheckMenu);
    match state {
        MenuState::Closed => {
            assert(p[1] == ScheduleSet::Input);
            assert(p[2] == ScheduleSet::Physics);
            assert(p[3] == ScheduleSet::UpdateWorld);
            assert(p[4] == ScheduleSet::Debug);
        },
        MenuState::Open => {
            assert(p[1] == ScheduleSet::PauseMenu);
            assert(p[2] == ScheduleSet::Debug);
        },
    }
}

/// The sets that run keep the order in which a frame takes them up: the check
/// of the menu comes first and the figures last, and the sets of the game
/// follow one another as they are chained.
pub proof fn lemma_plan_keeps_order(state: MenuState)
    ensures
        plan(state).first() == ScheduleSet::CheckMenu,
        plan(state).last() == ScheduleSet::Debug,
        state == MenuState::Closed ==> plan(state).subrange(1, 4) == seq![
            ScheduleSet::Input,
            ScheduleSet::Physics,
            ScheduleSet::UpdateWorld,
        ],
{
    if state == MenuState::Closed {
        assert(plan(state).subrange(1, 4) =~= seq![
            ScheduleSet::Input,
            ScheduleSet::Physics,
            ScheduleSet::UpdateWorld,
        ]);
    }
}

} // verus!
