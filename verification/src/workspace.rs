//! The workspace refresh: the visual state of each of the nine workspace slots
//! and the render instructions that show it, grouped by display.

use vstd::prelude::*;
use vstd::string::*;
use vstd::std_specs::hash::*;
use std::collections::HashMap;
use crate::icon_map::{get_icon, icon_for};
use crate::monitor_map::{display_of, find_in, lemma_find_display};
use crate::sketchybar::{props_view, set_args, SketchybarBatch};
use crate::text::{decimal, decimal_string};

verus! {

/// The number of workspace slots; their ids are 1 to this number.
pub const SLOT_COUNT: u32 = 9;

/// The monitor of a slot that the workspace manager did not report.
pub const DEFAULT_MONITOR: u32 = 1;

/// What the workspace manager reports of one workspace.
#[derive(Debug)]
pub struct WorkspaceInfo {
    /// The applications that run in the workspace.
    pub apps: Vec<String>,
    /// The glyphs of those applications, ready to show.
    pub icons: String,
    /// Whether the workspace has the focus.
    pub is_focused: bool,
    /// The workspace manager's id of the monitor that shows the workspace.
    pub monitor_id: u32,
}

/// The views of a sequence of strings.
pub open spec fn names_view(names: Seq<String>) -> Seq<Seq<char>> {
    Seq::new(names.len(), |i: int| names[i]@)
}

/// The glyph names of the applications, in order, with a space between two.
pub open spec fn icon_strip(apps: Seq<Seq<char>>) -> Seq<char>
    decreases apps.len(),
{
    if apps.len() == 0 {
        Seq::empty()
    } else if apps.len() == 1 {
        icon_for(apps[0])
    } else {
        icon_strip(apps.drop_last()) + seq![' '] + icon_for(apps.last())
    }
}

impl WorkspaceInfo {
    /// The report of a workspace with the given applications, whose glyphs
    /// are looked up.
    pub fn new(apps: Vec<String>, is_focused: bool, monitor_id: u32) -> (info: Self)
        ensures
            info.apps == apps,
            info.icons@ == icon_strip(names_view(apps@)),
            info.is_focused == is_focused,
            info.monitor_id == monitor_id,
    {
        let ghost names = names_view(apps@);
        let mut icons = String::new();
        let mut i: usize = 0;
        while i < apps.len()
            invariant
                i <= apps@.len(),
                names == names_view(apps@),
                icons@ == icon_strip(names.take(i as int)),
            decreases apps@.len() - i,
        {
            proof {
                reveal_strlit(" ");
                assert(" "@ =~= seq![' ']);
                assert(names.take(i + 1).drop_last() =~= names.take(i as int));
                assert(names.take(i + 1).last() == apps@[i as int]@);
            }
            if i > 0 {
                icons.append(" ");
            }
            icons.append(get_icon(apps[i].as_str()));
            assert(icons@ =~= icon_strip(names.take(i + 1)));
            i += 1;
        }
        assert(names.take(apps@.len() as int) =~= names);
        WorkspaceInfo { apps, icons, is_focused, monitor_id }
    }
}

/// The four ways a workspace slot is shown.
#[derive(Debug, Clone, Copy, PartialEq, Eq, Structural)]
pub enum VisualState {
    OccupiedFocused,
    OccupiedUnfocused,
    EmptyFocused,
    EmptyUnfocused,
}

/// The visual state that belongs to a pair (has applications, is focused).
pub open spec fn visual_state(has_apps: bool, is_focused: bool) -> VisualState {
    if has_apps && is_focused {
        VisualState::OccupiedFocused
    } else if has_apps {
        VisualState::OccupiedUnfocused
    } else if is_focused {
        VisualState::EmptyFocused
    } else {
        VisualState::EmptyUnfocused
    }
}

/// Classifies a slot by whether it holds applications and has the focus.
pub fn classify(has_apps: bool, is_focused: bool) -> (state: VisualState)
    ensures
        state == visual_state(has_apps, is_focused),
{
    if has_apps && is_focused {
        VisualState::OccupiedFocused
    } else if has_apps {
        VisualState::OccupiedUnfocused
    } else if is_focused {
        VisualState::EmptyFocused
    } else {
        VisualState::EmptyUnfocused
    }
}

/// The background colour of the slot with the given index: blue, pink and
/// green in turn, starting with blue at index 1.
pub open spec fn background_color(index: nat) -> Seq<char> {
    if index % 3 == 1 {
        "0xff83a598"@
    } else if index % 3 == 2 {
        "0xffd3869b"@
    } else {
        "0xff8ec07c"@
    }
}

/// The background colour of the slot with the given index.
pub fn slot_background(index: u32) -> (color: &'static str)
    ensures
        color@ == background_color(index as nat),
{
    let r: u32 = index % 3;
    if r == 1 {
        "0xff83a598"
    } else if r == 2 {
        "0xffd3869b"
    } else {
        "0xff8ec07c"
    }
}

/// The colour of label and icon: dark on a shown background, light otherwise.
pub open spec fn foreground_color(is_focused: bool) -> Seq<char> {
    if is_focused {
        "0xff1d2021"@
    } else {
        "0xffffffff"@
    }
}

/// The name of the slot's item.
pub open spec fn item_name(slot: nat) -> Seq<char> {
    "workspace."@ + decimal(slot)
}

/// The label of an empty slot: a fixed glyph, a space, the slot's id.
pub open spec fn empty_label(slot: nat) -> Seq<char> {
    "\u{f444} "@ + decimal(slot)
}

/// The properties that show a slot in the given visual state on a display.
pub open spec fn slot_props(state: VisualState, slot: nat, icons: Seq<char>, display: nat) -> Seq<
    (Seq<char>, Seq<char>),
> {
    match state {
        VisualState::OccupiedFocused => seq![
            ("label"@, decimal(slot)),
            ("label.color"@, foreground_color(true)),
            ("icon"@, icons),
            ("icon.color"@, foreground_color(true)),
            ("icon.drawing"@, "on"@),
            ("drawing"@, "on"@),
            ("background.drawing"@, "on"@),
            ("background.color"@, background_color(slot)),
            ("display"@, decimal(display)),
        ],
        VisualState::OccupiedUnfocused => seq![
            ("label"@, decimal(slot)),
            ("label.color"@, foreground_color(false)),
            ("icon.color"@, foreground_color(false)),
            ("icon"@, icons),
            ("icon.drawing"@, "on"@),
            ("drawing"@, "on"@),
            ("background.drawing"@, "off"@),
            ("display"@, decimal(display)),
        ],
        VisualState::EmptyFocused => seq![
            ("label"@, empty_label(slot)),
            ("label.color"@, foreground_color(true)),
            ("icon.color"@, foreground_color(true)),
            ("drawing"@, "on"@),
            ("icon.drawing"@, "off"@),
            ("background.drawing"@, "on"@),
            ("background.color"@, background_color(slot)),
            ("display"@, decimal(display)),
        ],
        VisualState::EmptyUnfocused => seq![
            ("label"@, empty_label(slot)),
            ("label.color"@, foreground_color(false)),
            ("icon.color"@, foreground_color(false)),
            ("drawing"@, "on"@),
            ("icon.drawing"@, "off"@),
            ("background.drawing"@, "off"@),
            ("display"@, decimal(display)),
        ],
    }
}

/// The render instruction of one slot on one display.
pub open spec fn slot_instruction(state: VisualState, slot: nat, icons: Seq<char>, display: nat) -> Seq<
    Seq<char>,
> {
    set_args(item_name(slot), slot_props(state, slot, icons, display))
}

/// Appends to `batch` the instruction that shows the slot on the display.
pub fn append_slot(
    batch: &mut SketchybarBatch,
    slot: u32,
    state: VisualState,
    icons: &str,
    display_id: u32,
)
    ensures
        final(batch)@ == old(batch)@ + slot_instruction(
            state,
            slot as nat,
            icons@,
            display_id as nat,
        ),
{
    let ws_id = decimal_string(slot as u64);
    let mut name = String::from_str("workspace.");
    name.append(ws_id.as_str());
    let display = decimal_string(display_id as u64);
    let bg_color = slot_background(slot);
    let ghost want = slot_props(state, slot as nat, icons@, display_id as nat);
    match state {
        VisualState::OccupiedFocused => {
            let props = [
                ("label", ws_id.as_str()),
                ("label.color", "0xff1d2021"),
                ("icon", icons),
                ("icon.color", "0xff1d2021"),
                ("icon.drawing", "on"),
                ("drawing", "on"),
                ("background.drawing", "on"),
                ("background.color", bg_color),
                ("display", display.as_str()),
            ];
            assert(props_view(props@) =~= want);
            batch.set(name.as_str(), props.as_slice());
        },
        VisualState::OccupiedUnfocused => {
            let props = [
                ("label", ws_id.as_str()),
                ("label.color", "0xffffffff"),
                ("icon.color", "0xffffffff"),
                ("icon", icons),
                ("icon.drawing", "on"),
                ("drawing", "on"),
                ("background.drawing", "off"),
                ("display", display.as_str()),
            ];
            assert(props_view(props@) =~= want);
            batch.set(name.as_str(), props.as_slice());
        },
        VisualState::EmptyFocused => {
            let mut label = String::from_str("\u{f444} ");
            label.append(ws_id.as_str());
            let props = [
                ("label", label.as_str()),
                ("label.color", "0xff1d2021"),
                ("icon.color", "0xff1d2021"),
                ("drawing", "on"),
                ("icon.drawing", "off"),
                ("background.drawing", "on"),
                ("background.color", bg_color),
                ("display", display.as_str()),
            ];
            assert(props_view(props@) =~= want);
            batch.set(name.as_str(), props.as_slice());
        },
        VisualState::EmptyUnfocused => {
            let mut label = String::from_str("\u{f444} ");
            label.append(ws_id.as_str());
            let props = [
                ("label", label.as_str()),
                ("label.color", "0xffffffff"),
                ("icon.color", "0xffffffff"),
                ("drawing", "on"),
                ("icon.drawing", "off"),
                ("background.drawing", "off"),
                ("display", display.as_str()),
            ];
            assert(props_view(props@) =~= want);
            batch.set(name.as_str(), props.as_slice());
        },
    }
}

/// Whether the slot holds applications; a slot that was not reported holds none.
pub open spec fn slot_has_apps(infos: Map<u32, WorkspaceInfo>, slot: u32) -> bool {
    infos.contains_key(slot) && infos[slot].apps@.len() > 0
}

/// Whether the slot has the focus; a slot that was not reported has not.
pub open spec fn slot_is_focused(infos: Map<u32, WorkspaceInfo>, slot: u32) -> bool {
    infos.contains_key(slot) && infos[slot].is_focused
}

/// The glyphs of the slot's applications; none for a slot that was not reported.
pub open spec fn slot_icons(infos: Map<u32, WorkspaceInfo>, slot: u32) -> Seq<char> {
    if infos.contains_key(slot) {
        infos[slot].icons@
    } else {
        Seq::empty()
    }
}

/// The monitor of the slot; the default monitor for a slot that was not reported.
pub open spec fn slot_monitor(infos: Map<u32, WorkspaceInfo>, slot: u32) -> u32 {
    if infos.contains_key(slot) {
        infos[slot].monitor_id
    } else {
        DEFAULT_MONITOR
    }
}

/// The display that the slot is rendered on, if the mapping knows its monitor.
pub open spec fn slot_display(
    mappings: Seq<(u32, u32)>,
    infos: Map<u32, WorkspaceInfo>,
    slot: u32,
) -> Option<u32> {
    display_of(mappings, slot_monitor(infos, slot))
}

/// The slot's visual state.
pub open spec fn slot_visual_state(infos: Map<u32, WorkspaceInfo>, slot: u32) -> VisualState {
    visual_state(slot_has_apps(infos, slot), slot_is_focused(infos, slot))
}

/// What the slot adds to the batch of `display`: its instruction where that is
/// the slot's display, nothing otherwise.
pub open spec fn slot_on_display(
    mappings: Seq<(u32, u32)>,
    infos: Map<u32, WorkspaceInfo>,
    slot: u32,
    display: u32,
) -> Seq<Seq<char>> {
    if slot_display(mappings, infos, slot) == Some(display) {
        slot_instruction(
            slot_visual_state(infos, slot),
            slot as nat,
            slot_icons(infos, slot),
            display as nat,
        )
    } else {
        Seq::empty()
    }
}

/// The batch of `display` after the slots 1 to `upto`: their instructions in
/// the order of the slots.
pub open spec fn display_batch(
    mappings: Seq<(u32, u32)>,
    infos: Map<u32, WorkspaceInfo>,
    display: u32,
    upto: nat,
) -> Seq<Seq<char>>
    decreases upto,
{
    if upto == 0 {
        Seq::empty()
    } else {
        display_batch(mappings, infos, display, (upto - 1) as nat) + slot_on_display(
            mappings,
            infos,
            upto as u32,
            display,
        )
    }
}

/// The displays that the slots 1 to `upto` are rendered on, each once, in the
/// order in which the slots first reach them.
pub open spec fn display_order(
    mappings: Seq<(u32, u32)>,
    infos: Map<u32, WorkspaceInfo>,
    upto: nat,
) -> Seq<u32>
    decreases upto,
{
    if upto == 0 {
        Seq::empty()
    } else {
        let before = display_order(mappings, infos, (upto - 1) as nat);
        match slot_display(mappings, infos, upto as u32) {
            Some(display) => if before.contains(display) {
                before
            } else {
                before.push(display)
            },
            None => before,
        }
    }
}

/// The slots among 1 to `upto` whose monitor the mapping does not know, in
/// ascending order.
pub open spec fn skipped_slots(
    mappings: Seq<(u32, u32)>,
    infos: Map<u32, WorkspaceInfo>,
    upto: nat,
) -> Seq<u32>
    decreases upto,
{
    if upto == 0 {
        Seq::empty()
    } else {
        let before = skipped_slots(mappings, infos, (upto - 1) as nat);
        if slot_display(mappings, infos, upto as u32) is None {
            before.push(upto as u32)
        } else {
            before
        }
    }
}

/// The instructions of one refresh for one display.
#[derive(Debug)]
pub struct DisplayBatch {
    /// The renderer's id of the display.
    pub display_id: u32,
    /// The instructions for that display, in the order of the slots.
    pub batch: SketchybarBatch,
}

/// The outcome of one workspace refresh.
#[derive(Debug)]
pub struct WorkspaceRefresh {
    /// One batch for each display that a slot is rendered on.
    pub batches: Vec<DisplayBatch>,
    /// The slots that no display could be found for.
    pub skipped: Vec<u32>,
}

/// `batches` holds, for the slots 1 to `upto`, one batch per display in the
/// order of `display_order`, each with the instructions of `display_batch`.
pub open spec fn batches_match(
    batches: Seq<DisplayBatch>,
    mappings: Seq<(u32, u32)>,
    infos: Map<u32, WorkspaceInfo>,
    upto: nat,
) -> bool {
    &&& batches.len() == display_order(mappings, infos, upto).len()
    &&& forall|i: int|
        0 <= i < batches.len() ==> (#[trigger] batches[i]).display_id == display_order(
            mappings,
            infos,
            upto,
        )[i] && batches[i].batch@ == display_batch(mappings, infos, batches[i].display_id, upto)
}

/// A display that no slot among 1 to `upto` is rendered on has an empty batch.
pub proof fn lemma_absent_display_empty(
    mappings: Seq<(u32, u32)>,
    infos: Map<u32, WorkspaceInfo>,
    display: u32,
    upto: nat,
)
    requires
        !display_order(mappings, infos, upto).contains(display),
    ensures
        display_batch(mappings, infos, display, upto) == Seq::<Seq<char>>::empty(),
    decreases upto,
{
    if upto > 0 {
        let before = display_order(mappings, infos, (upto - 1) as nat);
        let now = display_order(mappings, infos, upto);
        assert(!before.contains(display)) by {
            if before.contains(display) {
                let k = choose|k: int| 0 <= k < before.len() && before[k] == display;
                assert(now[k] == display);
            }
        }
        lemma_absent_display_empty(mappings, infos, display, (upto - 1) as nat);
        if slot_display(mappings, infos, upto as u32) == Some(display) {
            if !before.contains(display) {
                assert(now == before.push(display));
                assert(now[before.len() as int] == display);
            }
        }
        assert(display_batch(mappings, infos, display, upto) =~= Seq::<Seq<char>>::empty());
    }
}

/// No display occurs twice among the displays of a refresh.
pub proof fn lemma_display_order_distinct(
    mappings: Seq<(u32, u32)>,
    infos: Map<u32, WorkspaceInfo>,
    upto: nat,
)
    ensures
        display_order(mappings, infos, upto).no_duplicates(),
    decreases upto,
{
    if upto > 0 {
        lemma_display_order_distinct(mappings, infos, (upto - 1) as nat);
    }
}

fn position_of(batches: &Vec<DisplayBatch>, display_id: u32) -> (found: Option<usize>)
    ensures
        match found {
            Some(i) => i < batches@.len() && batches@[i as int].display_id == display_id,
            None => forall|k: int|
                0 <= k < batches@.len() ==> (#[trigger] batches@[k]).display_id != display_id,
        },
{
    let n: usize = batches.len();
    let mut i: usize = 0;
    while i < n
        invariant
            n == batches@.len(),
            i <= n,
            forall|k: int| 0 <= k < i ==> (#[trigger] batches@[k]).display_id != display_id,
        decreases n - i,
    {
        if batches[i].display_id == display_id {
            return Some(i);
        }
        i += 1;
    }
    None
}

/// Classifies each of the nine slots, finds its display, and appends its
/// instruction to that display's batch; a slot whose monitor the mapping does
/// not know is recorded as skipped and adds nothing.
pub fn build_workspace_batches(
    mappings: &Vec<(u32, u32)>,
    infos: &HashMap<u32, WorkspaceInfo>,
) -> (refresh: WorkspaceRefresh)
    ensures
        batches_match(refresh.batches@, mappings@, infos@, SLOT_COUNT as nat),
        display_order(mappings@, infos@, SLOT_COUNT as nat).no_duplicates(),
        refresh.skipped@ == skipped_slots(mappings@, infos@, SLOT_COUNT as nat),
{
    broadcast use group_hash_axioms;

    let mut batches: Vec<DisplayBatch> = Vec::new();
    let mut skipped: Vec<u32> = Vec::new();
    let mut slot: u32 = 1;
    while slot <= SLOT_COUNT
        invariant
            1 <= slot <= SLOT_COUNT + 1,
            batches_match(batches@, mappings@, infos@, (slot - 1) as nat),
            display_order(mappings@, infos@, (slot - 1) as nat).no_duplicates(),
            skipped@ == skipped_slots(mappings@, infos@, (slot - 1) as nat),
        decreases SLOT_COUNT + 1 - slot,
    {
        let ghost order = display_order(mappings@, infos@, (slot - 1) as nat);
        let info = infos.get(&slot);
        let has_apps = match info {
            Some(i) => i.apps.len() > 0,
            None => false,
        };
        let is_focused = match info {
            Some(i) => i.is_focused,
            None => false,
        };
        let icons: &str = match info {
            Some(i) => i.icons.as_str(),
            None => "",
        };
        let workspace_monitor = match info {
            Some(i) => i.monitor_id,
            None => DEFAULT_MONITOR,
        };
        proof {
            reveal_strlit("");
            assert(""@ =~= Seq::<char>::empty());
        }
        assert(has_apps == slot_has_apps(infos@, slot));
        assert(is_focused == slot_is_focused(infos@, slot));
        assert(icons@ == slot_icons(infos@, slot));
        assert(workspace_monitor == slot_monitor(infos@, slot));
        let state = classify(has_apps, is_focused);
        match find_in(mappings, workspace_monitor) {
            Some(display_id) => {
                let ghost before = batches@;
                match position_of(&batches, display_id) {
                    Some(idx) => {
                        append_slot(&mut batches[idx].batch, slot, state, icons, display_id);
                        proof {
                            assert(order[idx as int] == display_id);
                            assert(order.contains(display_id));
                            assert(display_order(mappings@, infos@, slot as nat) == order);
                            assert forall|i: int| 0 <= i < batches@.len() implies (
                            #[trigger] batches@[i]).display_id == order[i] && batches@[i].batch@
                                == display_batch(
                                mappings@,
                                infos@,
                                batches@[i].display_id,
                                slot as nat,
                            ) by {
                                assert(before[i].display_id == order[i]);
                                if i != idx as int {
                                    assert(batches@[i] == before[i]);
                                    assert(order[i] != order[idx as int]);
                                    assert(slot_on_display(mappings@, infos@, slot, order[i])
                                        =~= Seq::<Seq<char>>::empty());
                                    assert(display_batch(mappings@, infos@, order[i], slot as nat)
                                        =~= display_batch(
                                        mappings@,
                                        infos@,
                                        order[i],
                                        (slot - 1) as nat,
                                    ));
                                }
                            }
                        }
                    },
                    None => {
                        let mut batch = SketchybarBatch::new();
                        append_slot(&mut batch, slot, state, icons, display_id);
                        batches.push(DisplayBatch { display_id, batch });
                        proof {
                            assert(!order.contains(display_id)) by {
                                if order.contains(display_id) {
                                    let k = choose|k: int| 0 <= k < order.len() && order[k] == display_id;
                                    assert(before[k].display_id == display_id);
                                }
                            }
                            let next = display_order(mappings@, infos@, slot as nat);
                            assert(next == order.push(display_id));
                            assert(next.no_duplicates());
                            assert(display_batch(mappings@, infos@, display_id, (slot - 1) as nat)
                                =~= Seq::<Seq<char>>::empty()) by {
                                lemma_absent_display_empty(
                                    mappings@,
                                    infos@,
                                    display_id,
                                    (slot - 1) as nat,
                                );
                            }
                            assert forall|i: int| 0 <= i < batches@.len() implies (
                            #[trigger] batches@[i]).display_id == next[i] && batches@[i].batch@
                                == display_batch(
                                mappings@,
                                infos@,
                                batches@[i].display_id,
                                slot as nat,
                            ) by {
                                if i < before.len() {
                                    assert(batches@[i] == before[i]);
                                    assert(before[i].display_id == order[i]);
                                    assert(order[i] != display_id);
                                    assert(slot_on_display(mappings@, infos@, slot, order[i])
                                        =~= Seq::<Seq<char>>::empty());
                                    assert(display_batch(mappings@, infos@, order[i], slot as nat)
                                        =~= display_batch(
                                        mappings@,
                                        infos@,
                                        order[i],
                                        (slot - 1) as nat,
                                    ));
                                } else {
                                    assert(batches@[i].batch@ =~= display_batch(
                                        mappings@,
                                        infos@,
                                        display_id,
                                        slot as nat,
                                    ));
                                }
                            }
                        }
                    },
                }
            },
            None => {
                skipped.push(slot);
                proof {
                    assert(display_order(mappings@, infos@, slot as nat) == order);
                    assert forall|i: int| 0 <= i < batches@.len() implies display_batch(
                        mappings@,
                        infos@,
                        (#[trigger] batches@[i]).display_id,
                        slot as nat,
                    ) == batches@[i].batch@ by {
                        assert(slot_on_display(mappings@, infos@, slot, batches@[i].display_id)
                            =~= Seq::<Seq<char>>::empty());
                        assert(display_batch(
                            mappings@,
                            infos@,
                            batches@[i].display_id,
                            slot as nat,
                        ) =~= display_batch(
                            mappings@,
                            infos@,
                            batches@[i].display_id,
                            (slot - 1) as nat,
                        ));
                    }
                }
            },
        }
        slot += 1;
    }
    WorkspaceRefresh { batches, skipped }
}

/// The background colour depends on the slot's index modulo 3 alone: it
/// repeats with period 3, is blue, pink, green at the indices 1, 2, 3, and
/// these three colours differ from each other.
pub proof fn law_background_rotation(index: nat)
    ensures
        background_color(index + 3) == background_color(index),
        index % 3 == 1 ==> background_color(index) == "0xff83a598"@,
        index % 3 == 2 ==> background_color(index) == "0xffd3869b"@,
        index % 3 == 0 ==> background_color(index) == "0xff8ec07c"@,
        background_color(1) != background_color(2),
        background_color(2) != background_color(3),
        background_color(3) != background_color(1),
{
    reveal_strlit("0xff83a598");
    reveal_strlit("0xffd3869b");
    reveal_strlit("0xff8ec07c");
    assert("0xff83a598"@[4] == '8');
    assert("0xffd3869b"@[4] == 'd');
    assert("0xff8ec07c"@[5] == 'e');
    assert("0xff83a598"@[5] == '3');
    assert("0xffd3869b"@[5] == '3');
}

/// Each pair (has applications, is focused) selects exactly one of the four
/// visual states, and the pair alone decides which.
pub proof fn law_visual_state_partition(has_apps: bool, is_focused: bool)
    ensures
        visual_state(has_apps, is_focused) == VisualState::OccupiedFocused <==> has_apps
            && is_focused,
        visual_state(has_apps, is_focused) == VisualState::OccupiedUnfocused <==> has_apps
            && !is_focused,
        visual_state(has_apps, is_focused) == VisualState::EmptyFocused <==> !has_apps
            && is_focused,
        visual_state(has_apps, is_focused) == VisualState::EmptyUnfocused <==> !has_apps
            && !is_focused,
{
}

/// Two slots that agree on whether they hold applications and on whether they
/// have the focus are in the same visual state, whatever their ids.
pub proof fn law_visual_state_ignores_slot(infos: Map<u32, WorkspaceInfo>, a: u32, b: u32)
    requires
        slot_has_apps(infos, a) == slot_has_apps(infos, b),
        slot_is_focused(infos, a) == slot_is_focused(infos, b),
    ensures
        slot_visual_state(infos, a) == slot_visual_state(infos, b),
{
}

/// The skipped slots are exactly the slots from 1 to `upto` that have no
/// display.
pub proof fn lemma_skipped_slots(
    mappings: Seq<(u32, u32)>,
    infos: Map<u32, WorkspaceInfo>,
    upto: nat,
    slot: u32,
)
    requires
        upto <= u32::MAX,
    ensures
        skipped_slots(mappings, infos, upto).contains(slot) <==> 1 <= slot <= upto && slot_display(
            mappings,
            infos,
            slot,
        ) is None,
    decreases upto,
{
    if upto > 0 {
        let before = skipped_slots(mappings, infos, (upto - 1) as nat);
        lemma_skipped_slots(mappings, infos, (upto - 1) as nat, slot);
        if slot_display(mappings, infos, upto as u32) is None {
            let now = before.push(upto as u32);
            assert(now[before.len() as int] == upto as u32);
            if before.contains(slot) {
                let k = choose|k: int| 0 <= k < before.len() && before[k] == slot;
                assert(now[k] == slot);
            }
            if now.contains(slot) && slot != upto as u32 {
                let k = choose|k: int| 0 <= k < now.len() && now[k] == slot;
                assert(before[k] == slot);
            }
        }
    }
}

/// A slot whose monitor id no entry of the mapping has is skipped: it is
/// among the skipped slots of the refresh and adds no instruction to the
/// batch of any display.
pub proof fn law_unmapped_slot_skipped(
    mappings: Seq<(u32, u32)>,
    infos: Map<u32, WorkspaceInfo>,
    slot: u32,
)
    requires
        1 <= slot <= SLOT_COUNT,
        forall|i: int| 0 <= i < mappings.len() ==> (#[trigger] mappings[i]).1 != slot_monitor(infos, slot),
    ensures
        skipped_slots(mappings, infos, SLOT_COUNT as nat).contains(slot),
        forall|display: u32| #[trigger]
            slot_on_display(mappings, infos, slot, display) == Seq::<Seq<char>>::empty(),
{
    lemma_find_display(mappings, slot_monitor(infos, slot), 0);
    lemma_skipped_slots(mappings, infos, SLOT_COUNT as nat, slot);
}

} // verus!
