//! The correspondence between the renderer's display ids and the workspace
//! manager's monitor ids.

use vstd::prelude::*;
use crate::text::{parse_number, parse_unsigned, split_lines, strs_view, trimmed_lines};

verus! {

/// No display id and no monitor id occurs in two entries.
pub open spec fn injective(m: Seq<(u32, u32)>) -> bool {
    forall|i: int, j: int|
        0 <= i < j < m.len() ==> (#[trigger] m[i]).0 != (#[trigger] m[j]).0 && m[i].1 != m[j].1
}

/// Some entry of `m` has the display id or the monitor id of `pair`.
pub open spec fn conflicts(m: Seq<(u32, u32)>, pair: (u32, u32)) -> bool {
    exists|i: int| 0 <= i < m.len() && ((#[trigger] m[i]).0 == pair.0 || m[i].1 == pair.1)
}

/// What is kept of the first `n` candidates: each one, in order, unless an
/// entry kept before it has its display id or its monitor id.
pub open spec fn kept(candidates: Seq<(u32, u32)>, n: nat) -> Seq<(u32, u32)>
    decreases n,
{
    if n == 0 || n > candidates.len() {
        Seq::empty()
    } else {
        let before = kept(candidates, (n - 1) as nat);
        if conflicts(before, candidates[n - 1]) {
            before
        } else {
            before.push(candidates[n - 1])
        }
    }
}

/// The display of the first entry from index `from` on whose monitor id is
/// `monitor`, if there is one.
pub open spec fn find_display(m: Seq<(u32, u32)>, monitor: u32, from: int) -> Option<u32>
    decreases m.len() - from,
{
    if from < 0 || from >= m.len() {
        None
    } else if m[from].1 == monitor {
        Some(m[from].0)
    } else {
        find_display(m, monitor, from + 1)
    }
}

/// The display that shows the monitor `monitor`: that of the first matching
/// entry.
pub open spec fn display_of(m: Seq<(u32, u32)>, monitor: u32) -> Option<u32> {
    find_display(m, monitor, 0)
}

/// Pairs the displays and the monitors by their position in the two lists.
pub open spec fn by_position(displays: Seq<u32>, monitors: Seq<u32>) -> Seq<(u32, u32)> {
    Seq::new(
        if displays.len() <= monitors.len() {
            displays.len()
        } else {
            monitors.len()
        },
        |i: int| (displays[i], monitors[i]),
    )
}

/// `find_display` finds nothing exactly where no entry from `from` on has the
/// monitor id, and what it finds is the display of such an entry.
pub proof fn lemma_find_display(m: Seq<(u32, u32)>, monitor: u32, from: int)
    requires
        0 <= from,
    ensures
        find_display(m, monitor, from) is None <==> forall|i: int|
            from <= i < m.len() ==> (#[trigger] m[i]).1 != monitor,
        find_display(m, monitor, from) matches Some(d) ==> exists|i: int|
            from <= i < m.len() && #[trigger] m[i] == (d, monitor),
    decreases m.len() - from,
{
    if from < m.len() {
        if m[from].1 == monitor {
            assert(m[from] == (m[from].0, monitor));
        } else {
            lemma_find_display(m, monitor, from + 1);
            assert forall|i: int| from <= i < m.len() && find_display(m, monitor, from) is None
                implies (#[trigger] m[i]).1 != monitor by {
                if i > from {
                }
            }
        }
    }
}

/// What is kept of any candidates is injective.
pub proof fn law_kept_injective(candidates: Seq<(u32, u32)>, n: nat)
    ensures
        injective(kept(candidates, n)),
    decreases n,
{
    if n > 0 && n <= candidates.len() {
        law_kept_injective(candidates, (n - 1) as nat);
    }
}

/// In an injective mapping the entry of a monitor is the only one with that
/// monitor id, so it is the one that is found.
pub proof fn law_injective_single_match(m: Seq<(u32, u32)>, at: int)
    requires
        injective(m),
        0 <= at < m.len(),
    ensures
        display_of(m, m[at].1) == Some(m[at].0),
{
    lemma_single_match_from(m, at, 0);
}

proof fn lemma_single_match_from(m: Seq<(u32, u32)>, at: int, from: int)
    requires
        injective(m),
        0 <= from <= at < m.len(),
    ensures
        find_display(m, m[at].1, from) == Some(m[at].0),
    decreases at - from,
{
    if from < at {
        assert(m[from].1 != m[at].1);
        lemma_single_match_from(m, at, from + 1);
    }
}

/// The cached mapping from display ids to monitor ids.
#[derive(Debug)]
pub struct MonitorMapper {
    mappings: Vec<(u32, u32)>,
}

impl View for MonitorMapper {
    type V = Seq<(u32, u32)>;

    closed spec fn view(&self) -> Seq<(u32, u32)> {
        self.mappings@
    }
}

impl MonitorMapper {
    #[verifier::type_invariant]
    closed spec fn well_formed(&self) -> bool {
        injective(self.mappings@)
    }

    /// A mapping without entries.
    pub fn new() -> (mapper: Self)
        ensures
            mapper@ == Seq::<(u32, u32)>::empty(),
    {
        MonitorMapper { mappings: Vec::new() }
    }

    /// Adds the entry unless its display id or its monitor id is taken, and
    /// tells whether it was added.
    pub fn insert(&mut self, display_id: u32, monitor_id: u32) -> (added: bool)
        ensures
            added == !conflicts(old(self)@, (display_id, monitor_id)),
            added ==> final(self)@ == old(self)@.push((display_id, monitor_id)),
            !added ==> final(self)@ == old(self)@,
    {
        proof {
            use_type_invariant(&*self);
        }
        let n: usize = self.mappings.len();
        let mut i: usize = 0;
        while i < n
            invariant
                n == self.mappings@.len(),
                i <= n,
                *self == *old(self),
                forall|k: int|
                    0 <= k < i ==> (#[trigger] self.mappings@[k]).0 != display_id
                        && self.mappings@[k].1 != monitor_id,
            decreases n - i,
        {
            if self.mappings[i].0 == display_id || self.mappings[i].1 == monitor_id {
                return false;
            }
            i += 1;
        }
        let mut list = copy_pairs(&self.mappings);
        list.push((display_id, monitor_id));
        *self = MonitorMapper { mappings: list };
        true
    }

    /// The mapping made of the candidates, in order, each kept unless an entry
    /// kept before it has its display id or its monitor id.
    pub fn from_candidates(candidates: &Vec<(u32, u32)>) -> (mapper: Self)
        ensures
            mapper@ == kept(candidates@, candidates@.len()),
    {
        let mut mapper = MonitorMapper::new();
        let n: usize = candidates.len();
        let mut i: usize = 0;
        while i < n
            invariant
                n == candidates@.len(),
                i <= n,
                mapper@ == kept(candidates@, i as nat),
            decreases n - i,
        {
            mapper.insert(candidates[i].0, candidates[i].1);
            i += 1;
        }
        mapper
    }

    /// The current mapping as an ordered list of (display id, monitor id).
    pub fn get_mappings(&self) -> (list: Vec<(u32, u32)>)
        ensures
            list@ == self@,
            injective(list@),
    {
        proof {
            use_type_invariant(self);
        }
        copy_pairs(&self.mappings)
    }

    /// The display that shows `monitor_id`, or `None` where the mapping has no
    /// entry for it.
    pub fn display_for(&self, monitor_id: u32) -> (display: Option<u32>)
        ensures
            display == display_of(self@, monitor_id),
    {
        find_in(&self.mappings, monitor_id)
    }
}

fn copy_pairs(pairs: &Vec<(u32, u32)>) -> (copy: Vec<(u32, u32)>)
    ensures
        copy@ == pairs@,
{
    let n: usize = pairs.len();
    let mut copy: Vec<(u32, u32)> = Vec::new();
    let mut i: usize = 0;
    while i < n
        invariant
            n == pairs@.len(),
            i <= n,
            copy@ == pairs@.take(i as int),
        decreases n - i,
    {
        copy.push(pairs[i]);
        assert(pairs@.take(i + 1) =~= pairs@.take(i as int).push(pairs@[i as int]));
        i += 1;
    }
    assert(pairs@.take(n as int) =~= pairs@);
    copy
}

/// The display of the first entry of `mappings` whose monitor id is
/// `monitor_id`.
pub fn find_in(mappings: &Vec<(u32, u32)>, monitor_id: u32) -> (display: Option<u32>)
    ensures
        display == display_of(mappings@, monitor_id),
{
    let n: usize = mappings.len();
    let mut i: usize = 0;
    while i < n
        invariant
            n == mappings@.len(),
            i <= n,
            display_of(mappings@, monitor_id) == find_display(mappings@, monitor_id, i as int),
        decreases n - i,
    {
        if mappings[i].1 == monitor_id {
            return Some(mappings[i].0);
        }
        i += 1;
    }
    None
}

/// The candidate pairs that match the two lists position by position.
pub fn ordinal_candidates(displays: &Vec<u32>, monitors: &Vec<u32>) -> (pairs: Vec<(u32, u32)>)
    ensures
        pairs@ == by_position(displays@, monitors@),
{
    let n: usize = if displays.len() <= monitors.len() {
        displays.len()
    } else {
        monitors.len()
    };
    let mut pairs: Vec<(u32, u32)> = Vec::new();
    let mut i: usize = 0;
    while i < n
        invariant
            n <= displays@.len(),
            n <= monitors@.len(),
            n == by_position(displays@, monitors@).len(),
            i <= n,
            pairs@.len() == i,
            forall|k: int| 0 <= k < i ==> pairs@[k] == (displays@[k], monitors@[k]),
        decreases n - i,
    {
        pairs.push((displays[i], monitors[i]));
        i += 1;
    }
    assert(pairs@ =~= by_position(displays@, monitors@));
    pairs
}

/// The ids among `lines`: each line that is an unsigned decimal number of at
/// most 32 bits, in order.
pub open spec fn ids_of(lines: Seq<Seq<char>>) -> Seq<u32>
    decreases lines.len(),
{
    if lines.len() == 0 {
        Seq::empty()
    } else {
        match parse_unsigned(lines.last(), u32::MAX as nat) {
            Some(id) => ids_of(lines.drop_last()).push(id as u32),
            None => ids_of(lines.drop_last()),
        }
    }
}

/// Reads a listing of ids, one per line; lines that hold no id are passed
/// over.
pub fn parse_ids(listing: &str) -> (ids: Vec<u32>)
    ensures
        ids@ == ids_of(trimmed_lines(listing@, 0)),
{
    let lines = split_lines(listing);
    let ghost views = strs_view(lines@);
    let mut ids: Vec<u32> = Vec::new();
    let mut i: usize = 0;
    while i < lines.len()
        invariant
            i <= lines@.len(),
            views == strs_view(lines@),
            ids@ == ids_of(views.take(i as int)),
        decreases lines@.len() - i,
    {
        assert(views.take(i + 1).drop_last() =~= views.take(i as int));
        assert(views.take(i + 1).last() == lines@[i as int]@);
        match parse_number(lines[i], 0xffff_ffff) {
            Some(id) => {
                ids.push(id as u32);
            },
            None => {},
        }
        i += 1;
    }
    assert(views.take(lines@.len() as int) =~= views);
    ids
}

} // verus!
