//! Screen commands as the command line gives them, and what they ask of a
//! board.

use crate::apply::{ApplyError, Capability};
use crate::board::{BoardError, ScreenPosition};
use crate::features::{Board, HasScreen, Navigation};
use crate::session::{lemma_plan_view_push, plan_view, Exchange};
use crate::text::{lowercase_of, str_eq, to_lowercase};
use crate::tray::daemon::REACTIVE;
use vstd::prelude::*;

verus! {

/// Screen position ID (string-based for board independence)
#[derive(Clone, Debug, PartialEq, Eq)]
pub struct ScreenPositionId(pub String);

impl ScreenPositionId {
    /// Take a position's name in any mix of upper and lower case.
    pub fn parse(s: &str) -> (id: Self)
        ensures
            id.0@ == lowercase_of(s@),
    {
        ScreenPositionId(to_lowercase(s))
    }
}

impl core::str::FromStr for ScreenPositionId {
    type Err = String;

    /// Take a position's name in any mix of upper and lower case. Every
    /// text is taken.
    fn from_str(s: &str) -> (outcome: Result<Self, String>)
        ensures
            outcome matches Ok(id) && id.0@ == lowercase_of(s@),
    {
        Ok(ScreenPositionId::parse(s))
    }
}

/// Screen options:
#[derive(Clone, Debug, PartialEq, Eq)]
pub enum ScreenArgs {
    /// Reset and move the screen to a specific position.
    Screen(ScreenPositionId),
    /// Move the screen up
    Up,
    /// Move the screen down
    Down,
    /// Switch the screen offset
    Switch,
    /// Reactive image/gif mode
    Reactive,
}

/// `i` is the place of the first position of the list with the name.
pub open spec fn is_first_named(positions: Seq<ScreenPosition>, name: Seq<char>, i: int) -> bool {
    &&& 0 <= i < positions.len()
    &&& positions[i].id@ == name
    &&& forall|j: int| 0 <= j < i ==> (#[trigger] positions[j]).id@ != name
}

/// Some position of the list has the name.
pub open spec fn has_position(positions: Seq<ScreenPosition>, name: Seq<char>) -> bool {
    exists|i: int| 0 <= i < positions.len() && (#[trigger] positions[i]).id@ == name
}

/// Find the first screen position with the given name.
pub fn find_position(positions: &[ScreenPosition], name: &str) -> (found: Option<usize>)
    ensures
        found is Some <==> has_position(positions@, name@),
        found matches Some(i) ==> is_first_named(positions@, name@, i as int),
{
    let mut i: usize = 0;
    while i < positions.len()
        invariant
            i <= positions.len(),
            forall|j: int| 0 <= j < i ==> (#[trigger] positions@[j]).id@ != name@,
        decreases positions.len() - i,
    {
        if str_eq(positions[i].id, name) {
            return Some(i);
        }
        i = i + 1;
    }
    None
}

/// The name under which the daemon knows a screen: `reactive` for reactive
/// mode, else the name of the first position of the list that has it.
pub fn resolve_screen(name: &str, positions: &[ScreenPosition]) -> (known: Option<&'static str>)
    ensures
        name@ == REACTIVE@ ==> known == Some(REACTIVE),
        name@ != REACTIVE@ ==> (known is Some <==> has_position(positions@, name@)),
        name@ != REACTIVE@ ==> (known matches Some(id) ==> exists|i: int|
            is_first_named(positions@, name@, i) && id == positions[i].id),
{
    if str_eq(name, REACTIVE) {
        Some(REACTIVE)
    } else {
        match find_position(positions, name) {
            Some(i) => Some(positions[i].id),
            None => None,
        }
    }
}

fn single(exchange: Exchange) -> (plan: Vec<Exchange>)
    ensures
        plan_view(plan@) == seq![exchange@],
{
    let mut plan: Vec<Exchange> = Vec::new();
    proof {
        lemma_plan_view_push(plan@, exchange);
        assert(plan_view(plan@).push(exchange@) =~= seq![exchange@]);
    }
    plan.push(exchange);
    plan
}

/// Work out what a screen command asks of a board. The board may be of any
/// type, a trait object too.
///
/// A board without screen control gives `Unsupported`. Of any other, `Up`,
/// `Down` and `Switch` ask one step of navigation and `Screen` the move to
/// the named position, which must be one of the board's own; reactive mode
/// asks nothing, as it is no single command.
pub fn apply_screen_to<B: Board + ?Sized>(args: &ScreenArgs, board: &B) -> (outcome: Result<
    Vec<Exchange>,
    ApplyError,
>)
    ensures
        match board.screen() {
            None => outcome matches Err(ApplyError::Unsupported(Capability::Screen)),
            Some(screen) => match *args {
                ScreenArgs::Reactive => outcome matches Err(ApplyError::Reactive),
                ScreenArgs::Up => outcome matches Ok(plan) && plan_view(plan@) == seq![
                    screen.navigation(Navigation::Up),
                ],
                ScreenArgs::Down => outcome matches Ok(plan) && plan_view(plan@) == seq![
                    screen.navigation(Navigation::Down),
                ],
                ScreenArgs::Switch => outcome matches Ok(plan) && plan_view(plan@) == seq![
                    screen.navigation(Navigation::Switch),
                ],
                ScreenArgs::Screen(id) => if !has_position(screen.positions(), id.0@) {
                    outcome matches Err(ApplyError::UnknownPosition(name)) && name == id.0
                } else {
                    match screen.screen_change(id.0@) {
                        Some(route) => outcome matches Ok(plan) && plan_view(plan@) == route,
                        None => outcome matches Err(
                            ApplyError::Board(BoardError::InvalidScreenPosition(why)),
                        ) && why@ == screen.refusal(id.0@),
                    }
                },
            },
        },
{
    let screen = match board.as_screen() {
        Some(screen) => screen,
        None => {
            return Err(ApplyError::Unsupported(Capability::Screen));
        },
    };
    match args {
        ScreenArgs::Screen(pos_id) => {
            let positions = screen.screen_positions();
            match find_position(positions.as_slice(), pos_id.0.as_str()) {
                Some(i) => match screen.set_screen(positions[i].id) {
                    Ok(plan) => Ok(plan),
                    Err(e) => Err(ApplyError::Board(e)),
                },
                None => Err(ApplyError::UnknownPosition(pos_id.0.clone())),
            }
        },
        ScreenArgs::Up => Ok(single(screen.screen_up())),
        ScreenArgs::Down => Ok(single(screen.screen_down())),
        ScreenArgs::Switch => Ok(single(screen.screen_switch())),
        ScreenArgs::Reactive => Err(ApplyError::Reactive),
    }
}

/// Work out what a screen command asks of a board. This is
/// `apply_screen_to` for a board held as a trait object.
///
/// A board without screen control gives `Unsupported`. Of any other, `Up`,
/// `Down` and `Switch` ask one step of navigation and `Screen` the move to
/// the named position, which must be one of the board's own; reactive mode
/// asks nothing, as it is no single command.
pub fn apply_screen(args: &ScreenArgs, board: &dyn Board) -> (outcome: Result<
    Vec<Exchange>,
    ApplyError,
>)
    ensures
        match board.screen() {
            None => outcome matches Err(ApplyError::Unsupported(Capability::Screen)),
            Some(screen) => match *args {
                ScreenArgs::Reactive => outcome matches Err(ApplyError::Reactive),
                ScreenArgs::Up => outcome matches Ok(plan) && plan_view(plan@) == seq![
                    screen.navigation(Navigation::Up),
                ],
                ScreenArgs::Down => outcome matches Ok(plan) && plan_view(plan@) == seq![
                    screen.navigation(Navigation::Down),
                ],
                ScreenArgs::Switch => outcome matches Ok(plan) && plan_view(plan@) == seq![
                    screen.navigation(Navigation::Switch),
                ],
                ScreenArgs::Screen(id) => if !has_position(screen.positions(), id.0@) {
                    outcome matches Err(ApplyError::UnknownPosition(name)) && name == id.0
                } else {
                    match screen.screen_change(id.0@) {
                        Some(route) => outcome matches Ok(plan) && plan_view(plan@) == route,
                        None => outcome matches Err(
                            ApplyError::Board(BoardError::InvalidScreenPosition(why)),
                        ) && why@ == screen.refusal(id.0@),
                    }
                },
            },
        },
{
    apply_screen_to(args, board)
}

} // verus!
