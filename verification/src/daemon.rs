//! The daemon's state and its handlers: what each message does to the state
//! and which render instructions it yields.

use vstd::prelude::*;
use vstd::string::*;
use std::collections::HashMap;
use crate::icon_map::{get_icon, icon_for};
use crate::monitor_map::MonitorMapper;
use crate::providers::{
    battery_icon, brew_icon, teams_border_color, teams_icon_color, volume_icon, BatteryInfo,
    BrewInfo, TeamsInfo, VolumeInfo,
};
use crate::sketchybar::{
    animate_args, brew_label, front_app_label, percent_label, props_view, set_args, set_item,
    teams_label, update_battery, update_brew, update_clock, update_front_app, update_teams,
    update_volume, SketchybarBatch,
};
use crate::text::{
    find_space, index_of_space, parse_number, parse_unsigned, str_eq, strs_view, trim, trimmed,
};
use crate::workspace::{
    batches_match, build_workspace_batches, display_order, lemma_display_order_distinct,
    skipped_slots, WorkspaceInfo, WorkspaceRefresh, SLOT_COUNT,
};

verus! {

/// One line received from a client, by its verb.
#[derive(Debug, Clone, Copy, PartialEq, Eq)]
pub enum Message {
    /// Refresh the clock.
    Clock,
    /// Refresh the battery.
    Battery,
    /// Refresh the volume, with the level where the line gave a valid one.
    Volume(Option<u8>),
    /// Resolve the focused application again.
    FocusChange,
    /// Run the workspace refresh.
    WorkspaceChange,
    /// Refresh the count of outdated packages.
    Brew,
    /// Upgrade the packages.
    BrewUpgrade,
    /// Refresh the chat notifications.
    Teams,
    /// Any other line: it is logged and ignored.
    Unknown,
}

/// The fields of a line without surrounding white space: the line is cut at
/// its first and at its second white-space character, and the third field is
/// what remains, uncut.
pub open spec fn fields_of(t: Seq<char>) -> Seq<Seq<char>> {
    let first = index_of_space(t, 0);
    if first >= t.len() {
        seq![t]
    } else {
        let second = index_of_space(t, first + 1);
        if second >= t.len() {
            seq![t.subrange(0, first), t.subrange(first + 1, t.len() as int)]
        } else {
            seq![
                t.subrange(0, first),
                t.subrange(first + 1, second),
                t.subrange(second + 1, t.len() as int),
            ]
        }
    }
}

/// Cuts a line into at most three fields.
pub fn split_fields<'a>(line: &'a str) -> (fields: Vec<&'a str>)
    ensures
        strs_view(fields@) == fields_of(trimmed(line@)),
        1 <= fields@.len() <= 3,
{
    let t = trim(line);
    let n: usize = t.unicode_len();
    let first = find_space(t, 0);
    let mut fields: Vec<&'a str> = Vec::new();
    if first >= n {
        fields.push(t);
        assert(strs_view(fields@) =~= fields_of(t@));
        return fields;
    }
    fields.push(t.substring_char(0, first));
    let second = find_space(t, first + 1);
    if second >= n {
        fields.push(t.substring_char(first + 1, n));
        assert(strs_view(fields@) =~= fields_of(t@));
        return fields;
    }
    fields.push(t.substring_char(first + 1, second));
    fields.push(t.substring_char(second + 1, n));
    assert(strs_view(fields@) =~= fields_of(t@));
    fields
}

/// The level that a `volume` line gives: its second field, where that is an
/// unsigned decimal number of at most 255.
pub open spec fn volume_level(fields: Seq<Seq<char>>) -> Option<u8> {
    if fields.len() < 2 {
        None
    } else {
        match parse_unsigned(fields[1], 255) {
            Some(level) => Some(level as u8),
            None => None,
        }
    }
}

/// The message that a line stands for, by its first field.
pub open spec fn message_of(line: Seq<char>) -> Message {
    let fields = fields_of(trimmed(line));
    let verb = fields[0];
    if verb == "clock"@ {
        Message::Clock
    } else if verb == "battery"@ {
        Message::Battery
    } else if verb == "volume"@ {
        Message::Volume(volume_level(fields))
    } else if verb == "focus-change"@ {
        Message::FocusChange
    } else if verb == "workspace-change"@ {
        Message::WorkspaceChange
    } else if verb == "brew"@ {
        Message::Brew
    } else if verb == "brew-upgrade"@ {
        Message::BrewUpgrade
    } else if verb == "teams"@ {
        Message::Teams
    } else {
        Message::Unknown
    }
}

/// Reads one line of the protocol.
pub fn parse_message(line: &str) -> (message: Message)
    ensures
        message == message_of(line@),
{
    let fields = split_fields(line);
    assert(strs_view(fields@)[0] == fields@[0]@);
    let verb = fields[0];
    if str_eq(verb, "clock") {
        Message::Clock
    } else if str_eq(verb, "battery") {
        Message::Battery
    } else if str_eq(verb, "volume") {
        if fields.len() < 2 {
            Message::Volume(None)
        } else {
            assert(strs_view(fields@)[1] == fields@[1]@);
            match parse_number(fields[1], 255) {
                Some(level) => Message::Volume(Some(level as u8)),
                None => Message::Volume(None),
            }
        }
    } else if str_eq(verb, "focus-change") {
        Message::FocusChange
    } else if str_eq(verb, "workspace-change") {
        Message::WorkspaceChange
    } else if str_eq(verb, "brew") {
        Message::Brew
    } else if str_eq(verb, "brew-upgrade") {
        Message::BrewUpgrade
    } else if str_eq(verb, "teams") {
        Message::Teams
    } else {
        Message::Unknown
    }
}

/// The shortest time between two workspace refreshes, in milliseconds.
pub const DEBOUNCE_MS: u64 = 100;

/// The number of nanoseconds in a millisecond.
pub const NANOS_PER_MS: u64 = 1_000_000;

/// The number of bounce cycles of the upgrade animation.
pub const BOUNCE_CYCLES: u32 = 60;

/// The state that the handlers share. Times are nanoseconds on a clock that
/// never runs backwards.
#[derive(Debug)]
pub struct DaemonState {
    /// The application that was rendered last; empty at the start.
    pub front_app: String,
    /// When the last workspace refresh went ahead, if one did.
    pub last_workspace_refresh: Option<u64>,
    /// The cached monitor mapping.
    pub monitor_mapper: MonitorMapper,
}

/// The whole milliseconds from `last` to `now`; zero where `now` is earlier.
pub open spec fn elapsed_ms(last: u64, now: u64) -> nat {
    if now >= last {
        ((now - last) / NANOS_PER_MS as int) as nat
    } else {
        0
    }
}

/// Whether a refresh asked for at `now` is dropped: one went ahead less than
/// the debounce time before.
pub open spec fn debounced(last: Option<u64>, now: u64) -> bool {
    match last {
        Some(t) => elapsed_ms(t, now) < DEBOUNCE_MS,
        None => false,
    }
}

/// The time of the last refresh after one was asked for at `now`.
pub open spec fn refresh_time_after(last: Option<u64>, now: u64) -> Option<u64> {
    if debounced(last, now) {
        last
    } else {
        Some(now)
    }
}

/// Whether a focus change that resolved to `resolved` is rendered: it
/// resolved, and to another name than the stored one.
pub open spec fn focus_renders(front_app: Seq<char>, resolved: Option<Seq<char>>) -> bool {
    match resolved {
        Some(name) => name != front_app,
        None => false,
    }
}

/// The stored application after a focus change that resolved to `resolved`.
pub open spec fn front_app_after(front_app: Seq<char>, resolved: Option<Seq<char>>) -> Seq<char> {
    match resolved {
        Some(name) => name,
        None => front_app,
    }
}

/// The instructions that show `app_name` as the focused application.
pub open spec fn front_app_args(app_name: Seq<char>) -> Seq<Seq<char>> {
    set_args(
        "front_app"@,
        seq![("icon"@, icon_for(app_name)), ("label"@, front_app_label(app_name))],
    )
}

impl DaemonState {
    /// The state at the start: no application rendered, no refresh made.
    pub fn new(monitor_mapper: MonitorMapper) -> (state: Self)
        ensures
            state.front_app@ == Seq::<char>::empty(),
            state.last_workspace_refresh is None,
            state.monitor_mapper == monitor_mapper,
    {
        DaemonState { front_app: String::new(), last_workspace_refresh: None, monitor_mapper }
    }

    /// Decides whether a workspace refresh asked for at `now` goes ahead, and
    /// records its time if it does. The first request of a burst goes ahead;
    /// those that follow within the debounce time are dropped.
    pub fn should_refresh(&mut self, now: u64) -> (proceed: bool)
        ensures
            proceed == !debounced(old(self).last_workspace_refresh, now),
            final(self).last_workspace_refresh == refresh_time_after(
                old(self).last_workspace_refresh,
                now,
            ),
            final(self).front_app == old(self).front_app,
            final(self).monitor_mapper == old(self).monitor_mapper,
    {
        let proceed = match self.last_workspace_refresh {
            Some(last) => {
                let elapsed: u64 = if now >= last {
                    (now - last) / NANOS_PER_MS
                } else {
                    0
                };
                elapsed >= DEBOUNCE_MS
            },
            None => true,
        };
        if proceed {
            self.last_workspace_refresh = Some(now);
        }
        proceed
    }
}

/// The clock's instructions for a time label.
pub fn handle_clock(time: &str) -> (batch: SketchybarBatch)
    ensures
        batch@ == set_args("clock"@, seq![("label"@, time@)]),
{
    update_clock(time)
}

/// The battery's instructions, where the battery could be read.
pub fn handle_battery(info: Option<BatteryInfo>) -> (batch: Option<SketchybarBatch>)
    ensures
        info is None <==> batch is None,
        batch matches Some(b) ==> b@ == set_args(
            "battery"@,
            seq![
                ("icon"@, battery_icon(info->0.percentage, info->0.charging)),
                ("label"@, percent_label(info->0.percentage as nat)),
            ],
        ),
{
    match info {
        Some(info) => Some(update_battery(info.icon(), info.percentage)),
        None => None,
    }
}

/// The volume to show: the level that the message gave, muted exactly at
/// zero, else what the system reported.
pub open spec fn volume_shown(level: Option<u8>, queried: Option<VolumeInfo>) -> Option<VolumeInfo> {
    match level {
        Some(v) => Some(VolumeInfo { percentage: v, muted: v == 0 }),
        None => queried,
    }
}

/// The volume's instructions. A level given with the message overrides what
/// the system reported; without either nothing is rendered.
pub fn handle_volume(level: Option<u8>, queried: Option<VolumeInfo>) -> (batch: Option<
    SketchybarBatch,
>)
    ensures
        volume_shown(level, queried) is None <==> batch is None,
        batch matches Some(b) ==> b@ == set_args(
            "volume"@,
            seq![
                (
                    "icon"@,
                    volume_icon(
                        volume_shown(level, queried)->0.percentage,
                        volume_shown(level, queried)->0.muted,
                    ),
                ),
                ("label"@, percent_label(volume_shown(level, queried)->0.percentage as nat)),
            ],
        ),
{
    let info = match level {
        Some(v) => VolumeInfo { percentage: v, muted: v == 0 },
        None => match queried {
            Some(info) => info,
            None => {
                return None;
            },
        },
    };
    Some(update_volume(info.icon(), info.percentage))
}

/// The package item's instructions for the counts of outdated packages.
pub fn handle_brew(info: &BrewInfo) -> (batch: SketchybarBatch)
    requires
        info.formulae + info.casks <= usize::MAX,
    ensures
        batch@ == set_args(
            "brew"@,
            seq![
                ("icon"@, brew_icon((info.formulae + info.casks) as nat)),
                ("label"@, brew_label((info.formulae + info.casks) as nat)),
            ],
        ),
{
    update_brew(info.icon(), info.formulae, info.casks)
}

/// The chat item's instructions for the state of the chat application.
pub fn handle_teams(info: &TeamsInfo) -> (batch: SketchybarBatch)
    ensures
        batch@ == set_args(
            "teams"@,
            seq![
                ("icon"@, "\u{f02bb}"@),
                ("icon.color"@, teams_icon_color(info.running, info.notification_count)),
                ("background.border_color"@, teams_border_color(info.notification_count)),
                ("label"@, teams_label(info.notification_count as nat)),
                ("drawing"@, "on"@),
            ],
        ),
{
    update_teams(info.icon(), info.icon_color(), info.border_color(), info.notification_count)
}

/// Handles a focus change that resolved to `app`. Nothing happens where it
/// did not resolve or resolved to the stored application; otherwise the name
/// is stored and the instructions that show it are returned.
pub fn handle_front_app(state: &mut DaemonState, app: Option<&str>) -> (batch: Option<
    SketchybarBatch,
>)
    ensures
        batch is Some == focus_renders(
            old(state).front_app@,
            match app {
                Some(name) => Some(name@),
                None => None,
            },
        ),
        final(state).front_app@ == front_app_after(
            old(state).front_app@,
            match app {
                Some(name) => Some(name@),
                None => None,
            },
        ),
        batch is None ==> *final(state) == *old(state),
        batch matches Some(b) ==> b@ == front_app_args(app->0@),
        final(state).last_workspace_refresh == old(state).last_workspace_refresh,
        final(state).monitor_mapper == old(state).monitor_mapper,
{
    match app {
        Some(app_name) => {
            let icon = get_icon(app_name);
            if str_eq(state.front_app.as_str(), app_name) {
                return None;
            }
            state.front_app = String::from_str(app_name);
            Some(update_front_app(icon, app_name))
        },
        None => None,
    }
}

/// Handles a request for a workspace refresh at `now`, given what the
/// workspace manager reports. A request within the debounce time of the last
/// refresh is dropped: the state stays as it is and nothing is rendered.
/// Otherwise the time is recorded and all nine slots are rendered.
pub fn handle_workspace_refresh(
    state: &mut DaemonState,
    now: u64,
    infos: &HashMap<u32, WorkspaceInfo>,
) -> (refresh: Option<WorkspaceRefresh>)
    ensures
        refresh is None <==> debounced(old(state).last_workspace_refresh, now),
        refresh is None ==> *final(state) == *old(state),
        final(state).last_workspace_refresh == refresh_time_after(
            old(state).last_workspace_refresh,
            now,
        ),
        final(state).front_app == old(state).front_app,
        final(state).monitor_mapper == old(state).monitor_mapper,
        refresh matches Some(r) ==> batches_match(
            r.batches@,
            old(state).monitor_mapper@,
            infos@,
            SLOT_COUNT as nat,
        ) && r.skipped@ == skipped_slots(old(state).monitor_mapper@, infos@, SLOT_COUNT as nat),
        display_order(old(state).monitor_mapper@, infos@, SLOT_COUNT as nat).no_duplicates(),
{
    if !state.should_refresh(now) {
        proof {
            lemma_display_order_distinct(state.monitor_mapper@, infos@, SLOT_COUNT as nat);
        }
        return None;
    }
    let mappings = state.monitor_mapper.get_mappings();
    Some(build_workspace_batches(&mappings, infos))
}

/// One cycle of the upgrade animation: the label moves up, then down again.
pub open spec fn bounce_cycle() -> Seq<Seq<char>> {
    animate_args("sin"@, 15) + set_args("brew"@, seq![("label.y_offset"@, "-3"@)]) + animate_args(
        "sin"@,
        15,
    ) + set_args("brew"@, seq![("label.y_offset"@, "0"@)])
}

/// `cycles` cycles of the upgrade animation.
pub open spec fn bounce(cycles: nat) -> Seq<Seq<char>>
    decreases cycles,
{
    if cycles == 0 {
        Seq::empty()
    } else {
        bounce((cycles - 1) as nat) + bounce_cycle()
    }
}

/// One step of a package upgrade.
#[derive(Debug)]
pub enum UpgradeAction {
    /// Send the batch to the renderer.
    Render(SketchybarBatch),
    /// Run the upgrade to its end, whatever its outcome.
    RunUpgrade,
    /// Handle a refresh of the package counts.
    RefreshBrew,
}

/// A step of a package upgrade, with a batch by its view.
pub enum UpgradeStep {
    Render(Seq<Seq<char>>),
    RunUpgrade,
    RefreshBrew,
}

impl View for UpgradeAction {
    type V = UpgradeStep;

    open spec fn view(&self) -> UpgradeStep {
        match self {
            UpgradeAction::Render(batch) => UpgradeStep::Render(batch@),
            UpgradeAction::RunUpgrade => UpgradeStep::RunUpgrade,
            UpgradeAction::RefreshBrew => UpgradeStep::RefreshBrew,
        }
    }
}

/// The views of a sequence of steps.
pub open spec fn steps_view(actions: Seq<UpgradeAction>) -> Seq<UpgradeStep> {
    Seq::new(actions.len(), |i: int| actions[i]@)
}

/// The instructions that show the busy glyph with the label at rest.
pub open spec fn busy_args() -> Seq<Seq<char>> {
    set_args("brew"@, seq![("label"@, "\u{f409}"@), ("label.y_offset"@, "0"@)])
}

/// The instructions that put the label back to rest.
pub open spec fn reset_args() -> Seq<Seq<char>> {
    set_args("brew"@, seq![("label.y_offset"@, "0"@)])
}

/// The plan of a package upgrade: what is done at once, in order, and what
/// is done after that by a detached unit of work that nobody waits for.
#[derive(Debug)]
pub struct BrewUpgrade {
    /// Done at once, in order.
    pub now: Vec<UpgradeAction>,
    /// Done in order by the detached unit of work.
    pub detached: Vec<UpgradeAction>,
}

/// Plans a package upgrade. At once the busy glyph is rendered and then the
/// bounce cycles, as one batch. Detached from that, the upgrade runs; when it
/// has ended, however it ended, the label is put back and the package counts
/// are refreshed, which overwrites what the animation left.
pub fn handle_brew_upgrade() -> (upgrade: BrewUpgrade)
    ensures
        steps_view(upgrade.now@) == seq![
            UpgradeStep::Render(busy_args()),
            UpgradeStep::Render(bounce(BOUNCE_CYCLES as nat)),
        ],
        steps_view(upgrade.detached@) == seq![
            UpgradeStep::RunUpgrade,
            UpgradeStep::Render(reset_args()),
            UpgradeStep::RefreshBrew,
        ],
{
    let busy_props = [("label", "\u{f409}"), ("label.y_offset", "0")];
    assert(props_view(busy_props@) =~= seq![("label"@, "\u{f409}"@), ("label.y_offset"@, "0"@)]);
    let busy = set_item("brew", busy_props.as_slice());
    let up = [("label.y_offset", "-3")];
    let down = [("label.y_offset", "0")];
    assert(props_view(up@) =~= seq![("label.y_offset"@, "-3"@)]);
    assert(props_view(down@) =~= seq![("label.y_offset"@, "0"@)]);
    let mut animation = SketchybarBatch::new();
    let mut i: u32 = 0;
    while i < BOUNCE_CYCLES
        invariant
            i <= BOUNCE_CYCLES,
            animation@ == bounce(i as nat),
            props_view(up@) == seq![("label.y_offset"@, "-3"@)],
            props_view(down@) == seq![("label.y_offset"@, "0"@)],
        decreases BOUNCE_CYCLES - i,
    {
        animation.animate("sin", 15).set("brew", up.as_slice()).animate("sin", 15).set(
            "brew",
            down.as_slice(),
        );
        i += 1;
    }
    let reset = set_item("brew", down.as_slice());
    let mut now: Vec<UpgradeAction> = Vec::new();
    now.push(UpgradeAction::Render(busy));
    now.push(UpgradeAction::Render(animation));
    let mut detached: Vec<UpgradeAction> = Vec::new();
    detached.push(UpgradeAction::RunUpgrade);
    detached.push(UpgradeAction::Render(reset));
    detached.push(UpgradeAction::RefreshBrew);
    assert(steps_view(now@) =~= seq![
        UpgradeStep::Render(busy_args()),
        UpgradeStep::Render(bounce(BOUNCE_CYCLES as nat)),
    ]);
    assert(steps_view(detached@) =~= seq![
        UpgradeStep::RunUpgrade,
        UpgradeStep::Render(reset_args()),
        UpgradeStep::RefreshBrew,
    ]);
    BrewUpgrade { now, detached }
}

/// Of two requests for a workspace refresh, the first of which goes ahead at
/// `first`: the second, at `second`, is dropped and leaves the recorded time
/// as it is exactly where less than the debounce time lies between them, and
/// goes ahead otherwise. The very first request always goes ahead.
pub proof fn law_debounce_window(last: Option<u64>, first: u64, second: u64)
    requires
        !debounced(last, first),
    ensures
        second - first < DEBOUNCE_MS * NANOS_PER_MS ==> debounced(
            refresh_time_after(last, first),
            second,
        ) && refresh_time_after(refresh_time_after(last, first), second) == Some(first),
        second - first >= DEBOUNCE_MS * NANOS_PER_MS ==> !debounced(
            refresh_time_after(last, first),
            second,
        ),
        !debounced(None, first),
{
}

/// A focus change that resolves to the stored application renders nothing
/// and leaves the stored name; one that resolves to another name renders and
/// stores it, so that the same name again renders nothing.
pub proof fn law_focus_deduplicated(front_app: Seq<char>, name: Seq<char>)
    ensures
        name == front_app ==> !focus_renders(front_app, Some(name)) && front_app_after(
            front_app,
            Some(name),
        ) == front_app,
        name != front_app ==> focus_renders(front_app, Some(name)),
        !focus_renders(front_app_after(front_app, Some(name)), Some(name)),
        !focus_renders(front_app, None) && front_app_after(front_app, None) == front_app,
{
}

} // verus!
