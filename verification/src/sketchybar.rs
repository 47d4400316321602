//! Render instructions for the status bar: an append-only batch of arguments
//! and the single-item updates built on it.

use vstd::prelude::*;
use vstd::string::*;
use crate::text::{decimal, decimal_string};

verus! {

/// The views of a sequence of borrowed key/value pairs.
pub open spec fn props_view(props: Seq<(&str, &str)>) -> Seq<(Seq<char>, Seq<char>)> {
    Seq::new(props.len(), |i: int| (props[i].0@, props[i].1@))
}

/// One property as the renderer reads it: the key, `=`, the value.
pub open spec fn prop_arg(key: Seq<char>, value: Seq<char>) -> Seq<char> {
    key + seq!['='] + value
}

/// The arguments of a `set` instruction: the flag, the item, then one
/// argument per property, in order.
pub open spec fn set_args(item: Seq<char>, props: Seq<(Seq<char>, Seq<char>)>) -> Seq<Seq<char>> {
    seq!["--set"@, item] + Seq::new(props.len(), |i: int| prop_arg(props[i].0, props[i].1))
}

/// The arguments of an `animate` directive: the flag, the curve, the duration
/// as a decimal numeral.
pub open spec fn animate_args(curve: Seq<char>, duration: nat) -> Seq<Seq<char>> {
    seq!["--animate"@, curve, decimal(duration)]
}

/// An ordered, append-only sequence of renderer arguments for one display.
#[derive(Debug)]
pub struct SketchybarBatch {
    pub args: Vec<String>,
}

impl View for SketchybarBatch {
    type V = Seq<Seq<char>>;

    open spec fn view(&self) -> Seq<Seq<char>> {
        Seq::new(self.args@.len(), |i: int| self.args@[i]@)
    }
}

impl Default for SketchybarBatch {
    fn default() -> (batch: Self)
        ensures
            batch@ == Seq::<Seq<char>>::empty(),
    {
        let batch = SketchybarBatch { args: Vec::new() };
        assert(batch@ =~= Seq::<Seq<char>>::empty());
        batch
    }
}

impl SketchybarBatch {
    /// A batch with no instruction.
    pub fn new() -> (batch: Self)
        ensures
            batch@ == Seq::<Seq<char>>::empty(),
    {
        let batch = SketchybarBatch { args: Vec::new() };
        assert(batch@ =~= Seq::<Seq<char>>::empty());
        batch
    }

    fn push_arg(&mut self, arg: String)
        ensures
            final(self)@ == old(self)@.push(arg@),
    {
        self.args.push(arg);
        assert(self@ =~= old(self)@.push(arg@));
    }

    /// Appends a "set properties on a named item" instruction.
    pub fn set(&mut self, item: &str, props: &[(&str, &str)]) -> (next: &mut Self)
        ensures
            next@ == old(self)@ + set_args(item@, props_view(props@)),
            *final(self) == *final(next),
    {
        self.push_arg(String::from_str("--set"));
        self.push_arg(String::from_str(item));
        let ghost head = old(self)@ + seq!["--set"@, item@];
        assert(self@ =~= head);
        let ghost pv = props_view(props@);
        let n: usize = props.len();
        let mut i: usize = 0;
        while i < n
            invariant
                n == props@.len(),
                i <= n,
                pv == props_view(props@),
                self@ == head + Seq::new(i as nat, |k: int| prop_arg(pv[k].0, pv[k].1)),
            decreases n - i,
        {
            let mut arg = String::from_str(props[i].0);
            arg.append("=");
            arg.append(props[i].1);
            proof {
                reveal_strlit("=");
                assert("="@ =~= seq!['=']);
            }
            self.push_arg(arg);
            assert(self@ =~= head + Seq::new((i + 1) as nat, |k: int| prop_arg(pv[k].0, pv[k].1)));
            i += 1;
        }
        assert(self@ =~= old(self)@ + set_args(item@, pv));
        self
    }

    /// Appends a timing directive that governs the `set` instructions after it.
    pub fn animate(&mut self, curve: &str, duration: u32) -> (next: &mut Self)
        ensures
            next@ == old(self)@ + animate_args(curve@, duration as nat),
            *final(self) == *final(next),
    {
        self.push_arg(String::from_str("--animate"));
        self.push_arg(String::from_str(curve));
        self.push_arg(decimal_string(duration as u64));
        assert(self@ =~= old(self)@ + animate_args(curve@, duration as nat));
        self
    }

    /// Tells whether no instruction was appended.
    pub fn is_empty(&self) -> (empty: bool)
        ensures
            empty == (self@.len() == 0),
    {
        self.args.len() == 0
    }
    /// Begins the execution of the batch: it is over at once, with success,
    /// where no instruction was appended; otherwise all arguments go to the
    /// renderer in one invocation, whose outcome decides the result.
    pub fn execute(&self) -> (step: Execution<'_>)
        ensures
            self@.len() == 0 <==> step == Execution::Done,
            self@.len() > 0 <==> step == Execution::Invoke(&self.args),
    {
        if self.args.len() == 0 {
            Execution::Done
        } else {
            Execution::Invoke(&self.args)
        }
    }
}

/// What is left to do to execute a batch.
#[derive(Debug)]
pub enum Execution<'a> {
    /// Nothing: the batch held no instruction and has succeeded.
    Done,
    /// One invocation of the renderer with these arguments, in this order.
    Invoke(&'a Vec<String>),
}

/// What became of one invocation of the renderer.
#[derive(Debug, Clone, Copy, PartialEq, Eq, Structural)]
pub enum SinkOutcome {
    /// The renderer ran and reported success.
    Succeeded,
    /// The renderer ran and reported a failure status.
    Failed,
    /// The renderer could not be started.
    NotStarted,
}

/// The single error that a batch's execution surfaces.
#[derive(Debug, Clone, Copy, PartialEq, Eq, Structural)]
pub enum RenderError {
    /// The renderer could not be invoked.
    Invocation,
    /// The renderer returned a non-success status.
    Status,
}

impl RenderError {
    /// A line for the log.
    pub fn message(&self) -> (text: &'static str)
        ensures
            *self == RenderError::Status ==> text@ == "sketchybar command failed"@,
            *self == RenderError::Invocation ==> text@ == "sketchybar could not be started"@,
    {
        match self {
            RenderError::Status => "sketchybar command failed",
            RenderError::Invocation => "sketchybar could not be started",
        }
    }
}

/// The result of executing a batch, given what the renderer reported: success
/// only for a renderer that ran and succeeded.
pub fn sink_result(outcome: SinkOutcome) -> (result: Result<(), RenderError>)
    ensures
        outcome == SinkOutcome::Succeeded <==> result is Ok,
        outcome == SinkOutcome::Failed <==> result == Err::<(), RenderError>(RenderError::Status),
        outcome == SinkOutcome::NotStarted <==> result == Err::<(), RenderError>(
            RenderError::Invocation,
        ),
{
    match outcome {
        SinkOutcome::Succeeded => Ok(()),
        SinkOutcome::Failed => Err(RenderError::Status),
        SinkOutcome::NotStarted => Err(RenderError::Invocation),
    }
}

/// The label of a count of percent: the numeral, then `%`.
pub open spec fn percent_label(percentage: nat) -> Seq<char> {
    decimal(percentage) + seq!['%']
}

fn percent_string(percentage: u8) -> (label: String)
    ensures
        label@ == percent_label(percentage as nat),
{
    let mut label = decimal_string(percentage as u64);
    label.append("%");
    proof {
        reveal_strlit("%");
        assert("%"@ =~= seq!['%']);
    }
    label
}

/// A batch that sets the given properties on one item.
pub fn set_item(item: &str, props: &[(&str, &str)]) -> (batch: SketchybarBatch)
    ensures
        batch@ == set_args(item@, props_view(props@)),
{
    let mut batch = SketchybarBatch::new();
    batch.set(item, props);
    assert(batch@ =~= set_args(item@, props_view(props@)));
    batch
}

/// The clock item shows the time as its label.
pub fn update_clock(time: &str) -> (batch: SketchybarBatch)
    ensures
        batch@ == set_args("clock"@, seq![("label"@, time@)]),
{
    let props = [("label", time)];
    assert(props_view(props@) =~= seq![("label"@, time@)]);
    set_item("clock", props.as_slice())
}

/// The battery item shows its icon and the charge in percent.
pub fn update_battery(icon: &str, percentage: u8) -> (batch: SketchybarBatch)
    ensures
        batch@ == set_args(
            "battery"@,
            seq![("icon"@, icon@), ("label"@, percent_label(percentage as nat))],
        ),
{
    let label = percent_string(percentage);
    let props = [("icon", icon), ("label", label.as_str())];
    assert(props_view(props@) =~= seq![
        ("icon"@, icon@),
        ("label"@, percent_label(percentage as nat)),
    ]);
    set_item("battery", props.as_slice())
}

/// The volume item shows its icon and the level in percent.
pub fn update_volume(icon: &str, percentage: u8) -> (batch: SketchybarBatch)
    ensures
        batch@ == set_args(
            "volume"@,
            seq![("icon"@, icon@), ("label"@, percent_label(percentage as nat))],
        ),
{
    let label = percent_string(percentage);
    let props = [("icon", icon), ("label", label.as_str())];
    assert(props_view(props@) =~= seq![
        ("icon"@, icon@),
        ("label"@, percent_label(percentage as nat)),
    ]);
    set_item("volume", props.as_slice())
}

/// The label of the focused application: a chevron, a space, the name.
pub open spec fn front_app_label(app_name: Seq<char>) -> Seq<char> {
    "\u{276f} "@ + app_name
}

/// The front-application item shows the application's icon and name.
pub fn update_front_app(icon: &str, app_name: &str) -> (batch: SketchybarBatch)
    ensures
        batch@ == set_args(
            "front_app"@,
            seq![("icon"@, icon@), ("label"@, front_app_label(app_name@))],
        ),
{
    let mut label = String::from_str("\u{276f} ");
    label.append(app_name);
    let props = [("icon", icon), ("label", label.as_str())];
    assert(props_view(props@) =~= seq![("icon"@, icon@), ("label"@, front_app_label(app_name@))]);
    set_item("front_app", props.as_slice())
}

/// The label of the package item: a check mark where nothing is outdated,
/// else the number of outdated packages.
pub open spec fn brew_label(total: nat) -> Seq<char> {
    if total == 0 {
        "\u{2713}"@
    } else {
        decimal(total)
    }
}

/// The package item shows its icon and how many packages are outdated.
pub fn update_brew(icon: &str, formulae: usize, casks: usize) -> (batch: SketchybarBatch)
    requires
        formulae + casks <= usize::MAX,
    ensures
        batch@ == set_args(
            "brew"@,
            seq![("icon"@, icon@), ("label"@, brew_label((formulae + casks) as nat))],
        ),
{
    let total: usize = formulae + casks;
    let label = if total == 0 {
        String::from_str("\u{2713}")
    } else {
        decimal_string(total as u64)
    };
    let props = [("icon", icon), ("label", label.as_str())];
    assert(props_view(props@) =~= seq![
        ("icon"@, icon@),
        ("label"@, brew_label((formulae + casks) as nat)),
    ]);
    set_item("brew", props.as_slice())
}

/// The label of the chat item: the number of notifications, or nothing
/// where there is none.
pub open spec fn teams_label(notification_count: nat) -> Seq<char> {
    if notification_count > 0 {
        decimal(notification_count)
    } else {
        Seq::<char>::empty()
    }
}

/// The chat item shows its icon in the given colours, the notification count,
/// and is drawn.
pub fn update_teams(icon: &str, icon_color: &str, border_color: &str, notification_count: u32) -> (batch:
    SketchybarBatch)
    ensures
        batch@ == set_args(
            "teams"@,
            seq![
                ("icon"@, icon@),
                ("icon.color"@, icon_color@),
                ("background.border_color"@, border_color@),
                ("label"@, teams_label(notification_count as nat)),
                ("drawing"@, "on"@),
            ],
        ),
{
    let label = if notification_count > 0 {
        decimal_string(notification_count as u64)
    } else {
        String::new()
    };
    let props = [
        ("icon", icon),
        ("icon.color", icon_color),
        ("background.border_color", border_color),
        ("label", label.as_str()),
        ("drawing", "on"),
    ];
    assert(props_view(props@) =~= seq![
        ("icon"@, icon@),
        ("icon.color"@, icon_color@),
        ("background.border_color"@, border_color@),
        ("label"@, teams_label(notification_count as nat)),
        ("drawing"@, "on"@),
    ]);
    set_item("teams", props.as_slice())
}

} // verus!
