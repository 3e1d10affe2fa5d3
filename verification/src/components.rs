//! Vocabulary shared by the client's components.

use vstd::prelude::*;

verus! {

/// How far a scroll request moves.
#[derive(Clone, Copy)]
pub enum ScrollType {
    Up,
    Down,
    Home,
    End,
    PageUp,
    PageDown,
}

/// A vertical direction.
#[derive(Clone, Copy)]
pub enum Direction {
    Up,
    Down,
}

/// Whether a component keeps the components after it from offering commands.
#[derive(PartialEq, Eq, Structural)]
pub enum CommandBlocking {
    Blocking,
    PassingOn,
}

/// An input event of `crossterm`, carried through as an opaque value.
#[verifier::external_type_specification]
#[verifier::external_body]
pub struct ExEvent(crossterm::event::Event);

/// The error of `anyhow`, carried through as an opaque value.
#[verifier::external_type_specification]
#[verifier::external_body]
pub struct ExAnyhowError(anyhow::Error);

/// The words that describe a command.
#[derive(Debug)]
pub struct CommandText {
    pub name: String,
    pub desc: String,
    pub group: String,
}

/// A command that a component offers, and whether it can be used now.
#[derive(Debug)]
pub struct CommandInfo {
    pub text: CommandText,
    pub enabled: bool,
    pub quick_bar: bool,
    pub available: bool,
    pub order: i8,
}

/// What a component answers for its visibility: a visible one blocks, a
/// hidden one passes on.
pub open spec fn blocking_for(visible: bool) -> CommandBlocking {
    if visible {
        CommandBlocking::Blocking
    } else {
        CommandBlocking::PassingOn
    }
}

/// Whether the gathering of commands ends after a component that answered
/// `answer`: it does where the component did not pass on, unless all
/// commands are asked for.
pub open spec fn gathering_ends(answer: CommandBlocking, force_all: bool) -> bool {
    answer != CommandBlocking::PassingOn && !force_all
}

/// Whether the delivery of an event ends after a component that answered
/// `answer`: it does where the component consumed the event or failed.
pub open spec fn delivery_ends(answer: Result<bool, anyhow::Error>) -> bool {
    answer != Ok::<bool, anyhow::Error>(false)
}

/// A part of the screen that takes events and offers commands.
pub trait Component {
    /// Adds the commands on offer to `out` and says whether the components
    /// after this one may add theirs.
    fn commands(&self, out: &mut Vec<CommandInfo>, force_all: bool) -> CommandBlocking;

    /// Takes an event; `true` where the event was consumed and must go no
    /// further.
    fn event(&mut self, ev: crossterm::event::Event) -> Result<bool, anyhow::Error>;

    /// Whether the component has the focus: never, unless an implementation
    /// says otherwise.
    fn focused(&self) -> (answer: bool)
        default_ensures
            !answer,
    {
        false
    }

    /// Gives the focus to the component or takes it away.
    fn focus(&mut self, _focus: bool) {
    }

    /// Whether the component is shown: always, unless an implementation says
    /// otherwise.
    fn is_visible(&self) -> (answer: bool)
        default_ensures
            answer,
    {
        true
    }

    /// Stops showing the component.
    fn conceal(&mut self) {
    }

    /// Shows the component. Unless an implementation says otherwise, this
    /// succeeds.
    fn show(&mut self) -> (res: Result<(), anyhow::Error>)
        default_ensures
            res == Ok::<(), anyhow::Error>(()),
    {
        Ok(())
    }

    /// Conceals a component that is shown and shows one that is not.
    fn toggle_visible(&mut self) -> Result<(), anyhow::Error> {
        if self.is_visible() {
            self.conceal();
            Ok(())
        } else {
            self.show()
        }
    }
}

/// The answer of a component whose visibility is `visible`.
pub fn blocking_of(visible: bool) -> (answer: CommandBlocking)
    ensures
        answer == blocking_for(visible),
{
    if visible {
        CommandBlocking::Blocking
    } else {
        CommandBlocking::PassingOn
    }
}

/// `Blocking` for a component that says it is visible, `PassingOn` for one
/// that says it is not.
pub fn visibility_blocking<T: Component>(comp: &T) -> (answer: CommandBlocking) {
    blocking_of(comp.is_visible())
}

/// Whether the gathering of commands stops after the answer `answer`.
pub fn stops_gathering(answer: &CommandBlocking, force_all: bool) -> (stop: bool)
    ensures
        stop == gathering_ends(*answer, force_all),
{
    match answer {
        CommandBlocking::PassingOn => false,
        CommandBlocking::Blocking => !force_all,
    }
}

/// Whether the delivery of an event stops after the answer `answer`.
pub fn ends_delivery(answer: &Result<bool, anyhow::Error>) -> (stop: bool)
    ensures
        stop == delivery_ends(*answer),
{
    match answer {
        Ok(consumed) => *consumed,
        Err(_) => true,
    }
}

/// Hands `ev` to the components in order until one consumes it or fails.
/// Returns `true` where one consumed it, `false` where none did, and the
/// failure of the first that failed.
pub fn event_pump(ev: crossterm::event::Event, components: &mut [&mut dyn Component]) -> (res: Result<
    bool,
    anyhow::Error,
>)
    ensures
        old(components).len() == 0 ==> res == Ok::<bool, anyhow::Error>(false),
{
    let n: usize = components.len();
    let mut i: usize = 0;
    while i < n
        invariant
            components.len() == n,
            n == old(components).len(),
        decreases n - i,
    {
        let answer = components[i].event(ev);
        if ends_delivery(&answer) {
            return answer;
        }
        i = i + 1;
    }
    Ok(false)
}

/// Lets the components add their commands to `out` in order. Unless
/// `force_all` is set, the first component that does not pass on is the
/// last one asked.
pub fn command_pump(out: &mut Vec<CommandInfo>, force_all: bool, components: &[&dyn Component])
    ensures
        components.len() == 0 ==> *final(out) == *old(out),
{
    let mut i: usize = 0;
    while i < components.len()
        invariant
            components.len() == 0 ==> *out == *old(out),
        decreases components.len() - i,
    {
        let answer = components[i].commands(out, force_all);
        if stops_gathering(&answer, force_all) {
            break ;
        }
        i = i + 1;
    }
}

} // verus!
