//! Application-wide state is stored here.
//! It's driven by the loop defined in the event loop module.
//!
//! The state is a plain value: events turn one into the next,
//! and what the outside can see of it is a function of the value and the time.

pub mod visibility;

use vstd::prelude::*;
use vstd::std_specs::convert::FromSpecImpl;
use crate::animation;
use crate::event_loop;
use crate::event_loop::ActorState;
use crate::imservice::ContentHint;
use crate::imservice::ContentPurpose;
use crate::panel;
use crate::time::Instant;

verus! {

/// Whether a physical keyboard is attached.
#[derive(Debug, Clone, Copy, PartialEq, Eq, Structural)]
pub enum Presence {
    Present,
    Missing,
}

/// What the active text field tells about itself.
#[derive(Debug, Clone, Copy, PartialEq, Eq, Structural)]
pub struct InputMethodDetails {
    pub hint: ContentHint,
    pub purpose: ContentPurpose,
}

/// Whether some text field wants input.
#[derive(Debug, Clone, Copy, PartialEq, Eq, Structural)]
pub enum InputMethod {
    Active(InputMethodDetails),
    InactiveSince(Instant),
}

/// Incoming events.
/// This contains events that cause a change to the internal state.
#[derive(Debug, Clone, Copy, PartialEq, Eq, Structural)]
pub enum Event {
    InputMethod(InputMethod),
    Visibility(visibility::Event),
    PhysicalKeyboard(Presence),
    /// Event triggered because a moment in time passed.
    /// Use to animate state transitions.
    /// The value is the ideal arrival time.
    TimeoutReached(Instant),
}

impl event_loop::Event for Event {
    open spec fn timeout_reached(&self) -> Option<Instant> {
        match *self {
            Event::TimeoutReached(when) => Some(when),
            _ => None,
        }
    }

    fn new_timeout_reached(when: Instant) -> (event: Self)
        ensures
            event == Event::TimeoutReached(when),
    {
        Event::TimeoutReached(when)
    }

    fn get_timeout_reached(&self) -> (reached: Option<Instant>) {
        match *self {
            Event::TimeoutReached(when) => Some(when),
            _ => None,
        }
    }
}

impl From<InputMethod> for Event {
    fn from(im: InputMethod) -> (event: Self) {
        Event::InputMethod(im)
    }
}

impl FromSpecImpl<InputMethod> for Event {
    open spec fn obeys_from_spec() -> bool {
        true
    }

    open spec fn from_spec(im: InputMethod) -> Self {
        Event::InputMethod(im)
    }
}

impl From<visibility::Event> for Event {
    fn from(request: visibility::Event) -> (event: Self) {
        Event::Visibility(request)
    }
}

impl FromSpecImpl<visibility::Event> for Event {
    open spec fn obeys_from_spec() -> bool {
        true
    }

    open spec fn from_spec(request: visibility::Event) -> Self {
        Event::Visibility(request)
    }
}

/// The outwardly visible state.
#[derive(Debug, Clone, Copy, PartialEq, Eq, Structural)]
pub struct Outcome {
    pub visibility: animation::Outcome,
    pub im: InputMethod,
}

/// The actual logic commanding the outside world,
/// as instructions of which each can be left out.
#[derive(Debug, Clone, Copy, PartialEq, Eq, Structural)]
pub struct Commands {
    pub panel_visibility: Option<panel::Command>,
    pub layout_hint_set: Option<InputMethodDetails>,
}

impl event_loop::Outcome for Outcome {
    type Commands = Commands;

    /// The panel gets told where it should be whether or not it is there already,
    /// and, while it shows, which kind of text the layout should suit:
    /// that of the active text field, else ordinary text.
    open spec fn commands_to_reach(&self, desired: &Self) -> Commands {
        Commands {
            panel_visibility: match desired.visibility {
                animation::Outcome::Visible => Some(panel::Command::Show),
                animation::Outcome::Hidden => Some(panel::Command::Hide),
            },
            layout_hint_set: match (desired.visibility, desired.im) {
                (animation::Outcome::Visible, InputMethod::Active(hints)) => Some(hints),
                (animation::Outcome::Visible, InputMethod::InactiveSince(_)) => Some(
                    InputMethodDetails {
                        hint: ContentHint::spec_none(),
                        purpose: ContentPurpose::Normal,
                    },
                ),
                (animation::Outcome::Hidden, _) => None,
            },
        }
    }

    /// Returns the commands needed to apply changes as required by the new state.
    /// This implementation doesn't actually take the old state into account,
    /// instead issuing all the commands as needed to reach the new state.
    /// The receivers of the commands bear the burden
    /// of checking if the commands end up being no-ops.
    fn get_commands_to_reach(&self, desired: &Self) -> (commands: Commands) {
        let layout_hint_set = match (desired.visibility, desired.im) {
            (animation::Outcome::Visible, InputMethod::Active(hints)) => Some(hints),
            (animation::Outcome::Visible, InputMethod::InactiveSince(_)) => Some(
                InputMethodDetails { hint: ContentHint::none(), purpose: ContentPurpose::Normal },
            ),
            (animation::Outcome::Hidden, _) => None,
        };
        let panel_visibility = match desired.visibility {
            animation::Outcome::Visible => Some(panel::Command::Show),
            animation::Outcome::Hidden => Some(panel::Command::Hide),
        };
        Commands { panel_visibility, layout_hint_set }
    }
}

/// The state of the application itself,
/// holding all the information which decides whether the panel shows.
///
/// All state changes return the next state and the outcome.
/// This is the "functional core" of the application:
/// it performs no actions itself.
#[derive(Debug, Clone, Copy, PartialEq, Eq, Structural)]
pub struct Application {
    pub im: InputMethod,
    pub visibility_override: visibility::State,
    pub physical_keyboard: Presence,
}

impl Application {
    /// A conservative default, ignoring the actual state of things.
    /// It will initially show the keyboard for a blink.
    pub fn new(now: Instant) -> (initial: Self)
        ensures
            initial == (Application {
                im: InputMethod::InactiveSince(now),
                visibility_override: visibility::State::NotForced,
                physical_keyboard: Presence::Missing,
            }),
    {
        Application {
            im: InputMethod::InactiveSince(now),
            visibility_override: visibility::State::NotForced,
            physical_keyboard: Presence::Missing,
        }
    }

    /// Whether the panel, left to follow an input method
    /// which went inactive at `since`, is still up at `now`.
    pub open spec fn lingers(since: Instant, now: Instant) -> bool {
        now.nanos < since.nanos + animation::spec_hiding_timeout().nanos
    }
}

impl event_loop::ActorState for Application {
    type Event = Event;

    type Outcome = Outcome;

    open spec fn after_event(self, e: Event, time: Instant) -> Self {
        match e {
            Event::TimeoutReached(_) => self,
            Event::Visibility(visibility::Event::ForceHidden) => Application {
                visibility_override: visibility::State::ForcedHidden,
                ..self
            },
            Event::Visibility(visibility::Event::ForceVisible) => Application {
                visibility_override: visibility::State::ForcedVisible,
                ..self
            },
            Event::PhysicalKeyboard(presence) => Application { physical_keyboard: presence, ..self },
            Event::InputMethod(new_im) => match (self.im, new_im, self.visibility_override) {
                (
                    InputMethod::InactiveSince(_),
                    InputMethod::Active(_),
                    visibility::State::ForcedHidden,
                ) => Application {
                    visibility_override: visibility::State::NotForced,
                    im: new_im,
                    ..self
                },
                (
                    InputMethod::Active(_),
                    InputMethod::InactiveSince(_),
                    visibility::State::ForcedVisible,
                ) => Application {
                    visibility_override: visibility::State::NotForced,
                    im: new_im,
                    ..self
                },
                (InputMethod::InactiveSince(_), InputMethod::InactiveSince(_), _) => self,
                _ => Application { im: new_im, ..self },
            },
        }
    }

    open spec fn outcome(&self, time: Instant) -> Outcome {
        Outcome {
            visibility: match (self.physical_keyboard, self.visibility_override) {
                (_, visibility::State::ForcedHidden) => animation::Outcome::Hidden,
                (_, visibility::State::ForcedVisible) => animation::Outcome::Visible,
                (Presence::Present, visibility::State::NotForced) => animation::Outcome::Hidden,
                (Presence::Missing, visibility::State::NotForced) => match self.im {
                    InputMethod::Active(_) => animation::Outcome::Visible,
                    InputMethod::InactiveSince(since) => if Application::lingers(since, time) {
                        animation::Outcome::Visible
                    } else {
                        animation::Outcome::Hidden
                    },
                },
            },
            im: self.im,
        }
    }

    /// The panel may have to go down at the end of the hiding timeout,
    /// and only then does the state need a wakeup.
    /// Where the clock cannot express that moment, none is asked for.
    open spec fn next_wake(&self, now: Instant) -> Option<Instant> {
        match (self.visibility_override, self.im) {
            (visibility::State::NotForced, InputMethod::InactiveSince(since)) => if since.can_add(
                animation::spec_hiding_timeout(),
            ) && Application::lingers(since, now) {
                Some(since.spec_plus(animation::spec_hiding_timeout()))
            } else {
                None
            },
            _ => None,
        }
    }

    fn apply_event(self, e: Event, time: Instant) -> (next: Self) {
        match e {
            Event::TimeoutReached(_) => self,
            Event::Visibility(request) => Application {
                visibility_override: match request {
                    visibility::Event::ForceHidden => visibility::State::ForcedHidden,
                    visibility::Event::ForceVisible => visibility::State::ForcedVisible,
                },
                ..self
            },
            Event::PhysicalKeyboard(presence) => Application { physical_keyboard: presence, ..self },
            Event::InputMethod(new_im) => match (self.im, new_im, self.visibility_override) {
                // For changes in active state, remove user's visibility override.
                // Both cases spelled out explicitly, rather than by the wildcard,
                // to not lose the notion that it's the opposition that matters
                (
                    InputMethod::InactiveSince(_),
                    InputMethod::Active(_),
                    visibility::State::ForcedHidden,
                ) => Application {
                    visibility_override: visibility::State::NotForced,
                    im: new_im,
                    ..self
                },
                (
                    InputMethod::Active(_),
                    InputMethod::InactiveSince(_),
                    visibility::State::ForcedVisible,
                ) => Application {
                    visibility_override: visibility::State::NotForced,
                    im: new_im,
                    ..self
                },
                // This is a weird case, there's no need to update an inactive input method:
                // the panel keeps counting from the first notice.
                (InputMethod::InactiveSince(_), InputMethod::InactiveSince(_), _) => self,
                _ => Application { im: new_im, ..self },
            },
        }
    }

    fn get_outcome(&self, time: Instant) -> (outcome: Outcome) {
        let visibility = match (self.physical_keyboard, self.visibility_override) {
            (_, visibility::State::ForcedHidden) => animation::Outcome::Hidden,
            (_, visibility::State::ForcedVisible) => animation::Outcome::Visible,
            (Presence::Present, visibility::State::NotForced) => animation::Outcome::Hidden,
            (Presence::Missing, visibility::State::NotForced) => match self.im {
                InputMethod::Active(_) => animation::Outcome::Visible,
                InputMethod::InactiveSince(since) => {
                    if still_lingering(since, time) {
                        animation::Outcome::Visible
                    } else {
                        animation::Outcome::Hidden
                    }
                },
            },
        };
        Outcome { visibility, im: self.im }
    }

    fn get_next_wake(&self, now: Instant) -> (wake: Option<Instant>) {
        match (self.visibility_override, self.im) {
            (visibility::State::NotForced, InputMethod::InactiveSince(since)) => {
                match since.checked_plus(animation::hiding_timeout()) {
                    Some(anim_end) => if now.is_before(anim_end) {
                        Some(anim_end)
                    } else {
                        None
                    },
                    None => None,
                }
            },
            _ => None,
        }
    }
}

/// Tells whether the hiding timeout which started at `since` is still running at `now`.
fn still_lingering(since: Instant, now: Instant) -> (lingering: bool)
    ensures
        lingering == Application::lingers(since, now),
{
    !since.is_before(now) || now.nanos - since.nanos < animation::hiding_timeout().nanos
}

} // verus!
