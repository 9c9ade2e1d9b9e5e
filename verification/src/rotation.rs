//! The response rotator: an ordered list of scripted responses and a cursor
//! that walks it round and round.
//!
//! The rotator is the one piece of state that connections share. It offers a
//! single operation, [`Rotator::next`], which selects and advances in one
//! step; a caller that holds the rotator exclusively for the length of that
//! call can therefore never see an index that another caller saw.

use vstd::prelude::*;
use vstd::string::StringSliceAdditionalSpecFns;

verus! {

/// One scripted response: the body to send and the status to send it under.
#[derive(Debug, PartialEq, Eq)]
pub struct ResponseEntry {
    pub body: Vec<u8>,
    pub status: u16,
}

impl Clone for ResponseEntry {
    fn clone(&self) -> (copy: ResponseEntry)
        ensures
            copy@ == self@,
    {
        ResponseEntry { body: self.body.clone(), status: self.status }
    }
}

/// What a [`ResponseEntry`] holds, as mathematical values.
pub struct EntryView {
    pub body: Seq<u8>,
    pub status: u16,
}

impl View for ResponseEntry {
    type V = EntryView;

    open spec fn view(&self) -> EntryView {
        EntryView { body: self.body@, status: self.status }
    }
}

/// The views of a list of entries, in order.
pub open spec fn entry_views(entries: Seq<ResponseEntry>) -> Seq<EntryView> {
    entries.map_values(|entry: ResponseEntry| entry@)
}

/// The response that is served when no entry is configured: the body `Hello`
/// under status 200.
pub open spec fn default_entry() -> EntryView {
    EntryView { body: "Hello".spec_bytes(), status: 200 }
}

/// Builds the default response.
pub fn default_response() -> (entry: ResponseEntry)
    ensures
        entry@ == default_entry(),
{
    ResponseEntry { body: vstd::slice::slice_to_vec("Hello".as_bytes()), status: 200 }
}

/// The rotation as a mathematical value: the configured entries and the
/// number of selections made from them so far.
pub struct RotationState {
    pub entries: Seq<EntryView>,
    pub cursor: nat,
}

impl RotationState {
    /// The state at startup: the cursor stands at zero.
    pub open spec fn initial(entries: Seq<EntryView>) -> RotationState {
        RotationState { entries, cursor: 0 }
    }

    /// The index that the cursor selects, where there is an entry to select.
    pub open spec fn index(self) -> int
        recommends
            self.entries.len() > 0,
    {
        (self.cursor % self.entries.len()) as int
    }

    /// The response for the current request: the entry under the cursor, or
    /// the default response where no entry is configured.
    pub open spec fn selected(self) -> EntryView {
        if self.entries.len() == 0 {
            default_entry()
        } else {
            self.entries[self.index()]
        }
    }

    /// The state that one selection leaves behind: the cursor has moved on by
    /// exactly one, unless there is nothing to rotate through.
    pub open spec fn advanced(self) -> RotationState {
        if self.entries.len() == 0 {
            self
        } else {
            RotationState { entries: self.entries, cursor: self.cursor + 1 }
        }
    }

    /// The state after `calls` selections in a row.
    pub open spec fn after(self, calls: nat) -> RotationState
        decreases calls,
    {
        if calls == 0 {
            self
        } else {
            self.advanced().after((calls - 1) as nat)
        }
    }
}

/// Where the rotation stands. The cursor itself is ghost, so it can grow
/// without bound; at run time only its residue is kept.
struct Place {
    slot: usize,
    cursor: Ghost<nat>,
}

/// The shared rotation state. Entries are fixed at construction; the cursor
/// moves only through [`Rotator::next`].
pub struct Rotator {
    entries: Vec<ResponseEntry>,
    place: Place,
}

impl View for Rotator {
    type V = RotationState;

    closed spec fn view(&self) -> RotationState {
        RotationState { entries: entry_views(self.entries@), cursor: self.place.cursor@ }
    }
}

/// Moving the cursor on by one moves its residue on by one, round the end.
proof fn lemma_successor_residue(cursor: nat, count: nat)
    requires
        count > 0,
    ensures
        (cursor + 1) % count == if cursor % count + 1 == count {
            0
        } else {
            cursor % count + 1
        },
{
    vstd::arithmetic::div_mod::lemma_add_mod_noop(cursor as int, 1, count as int);
    vstd::arithmetic::div_mod::lemma_mod_bound(cursor as int, count as int);
    if count == 1 {
    } else {
        vstd::arithmetic::div_mod::lemma_small_mod(1, count);
        if cursor % count + 1 == count {
            vstd::arithmetic::div_mod::lemma_mod_self_0(count as int);
        } else {
            vstd::arithmetic::div_mod::lemma_small_mod(cursor % count + 1, count);
        }
    }
}

impl Rotator {
    #[verifier::type_invariant]
    spec fn well_formed(self) -> bool {
        if self.entries@.len() == 0 {
            self.place.slot == 0
        } else {
            self.place.slot == self.place.cursor@ % self.entries@.len()
        }
    }

    /// A rotator over `entries`, with the cursor at zero.
    pub fn new(entries: Vec<ResponseEntry>) -> (rotator: Rotator)
        ensures
            rotator@ == RotationState::initial(entry_views(entries@)),
    {
        proof {
            if entries@.len() > 0 {
                vstd::arithmetic::div_mod::lemma_small_mod(0, entries@.len());
            }
        }
        Rotator { entries, place: Place { slot: 0, cursor: Ghost(0) } }
    }

    /// Returns the response for the current request and moves the cursor on.
    ///
    /// With no entry configured the default response is returned and nothing
    /// changes. Otherwise the entry under the cursor is returned and the
    /// cursor grows by exactly one. The call cannot fail.
    pub fn next(&mut self) -> (entry: ResponseEntry)
        ensures
            entry@ == old(self)@.selected(),
            final(self)@ == old(self)@.advanced(),
    {
        proof {
            use_type_invariant(&*self);
        }
        let count = self.entries.len();
        if count == 0 {
            return default_response();
        }
        let slot = self.place.slot;
        let entry = self.entries[slot].clone();
        let following: usize = if slot + 1 == count {
            0
        } else {
            slot + 1
        };
        proof {
            lemma_successor_residue(self.place.cursor@, count as nat);
        }
        self.place = Place { slot: following, cursor: Ghost(self.place.cursor@ + 1) };
        entry
    }

    /// The index of the entry that the next call of [`Rotator::next`]
    /// returns, or `None` where no entry is configured.
    pub fn position(&self) -> (slot: Option<usize>)
        ensures
            self@.entries.len() == 0 ==> slot is None,
            self@.entries.len() > 0 ==> slot == Some(self@.index() as usize),
    {
        proof {
            use_type_invariant(self);
        }
        if self.entries.len() == 0 {
            None
        } else {
            Some(self.place.slot)
        }
    }

    /// The number of configured entries.
    pub fn len(&self) -> (count: usize)
        ensures
            count == self@.entries.len(),
    {
        self.entries.len()
    }

    /// Whether no entry is configured, so that every request gets the default
    /// response.
    pub fn is_empty(&self) -> (empty: bool)
        ensures
            empty == (self@.entries.len() == 0),
    {
        self.entries.len() == 0
    }
}

/// The views of a list of bodies, in order.
pub open spec fn body_views(bodies: Seq<Vec<u8>>) -> Seq<Seq<u8>> {
    bodies.map_values(|body: Vec<u8>| body@)
}

/// Bodies and statuses paired by position. Pairing stops at the end of the
/// shorter list; what the longer list holds beyond that is left out.
pub open spec fn paired(bodies: Seq<Seq<u8>>, statuses: Seq<u16>) -> Seq<EntryView> {
    Seq::new(
        if bodies.len() <= statuses.len() {
            bodies.len()
        } else {
            statuses.len()
        },
        |i: int| EntryView { body: bodies[i], status: statuses[i] },
    )
}

/// Builds the rotation entries from the two configured lists, the `i`-th
/// body with the `i`-th status. Lists of different lengths are no error: the
/// surplus of the longer one is dropped.
pub fn pair_entries(bodies: &[Vec<u8>], statuses: &[u16]) -> (entries: Vec<ResponseEntry>)
    ensures
        entry_views(entries@) == paired(body_views(bodies@), statuses@),
{
    let count = if bodies.len() <= statuses.len() {
        bodies.len()
    } else {
        statuses.len()
    };
    let mut entries: Vec<ResponseEntry> = Vec::new();
    let mut i: usize = 0;
    while i < count
        invariant
            i <= count,
            count <= bodies@.len(),
            count <= statuses@.len(),
            entries@.len() == i,
            forall|j: int|
                0 <= j < i ==> (#[trigger] entries@[j])@ == (EntryView {
                    body: bodies@[j]@,
                    status: statuses@[j],
                }),
        decreases count - i,
    {
        entries.push(ResponseEntry { body: bodies[i].clone(), status: statuses[i] });
        i += 1;
    }
    assert(entry_views(entries@) =~= paired(body_views(bodies@), statuses@));
    entries
}

/// Pairing makes as many entries as the shorter list is long, and the entry
/// at each index holds the body and the status that stood at that index.
pub proof fn lemma_pairing_stops_at_the_shorter_list(bodies: Seq<Seq<u8>>, statuses: Seq<u16>)
    ensures
        paired(bodies, statuses).len() <= bodies.len(),
        paired(bodies, statuses).len() <= statuses.len(),
        paired(bodies, statuses).len() == bodies.len() || paired(bodies, statuses).len()
            == statuses.len(),
        forall|i: int|
            0 <= i < paired(bodies, statuses).len() ==> (#[trigger] paired(bodies, statuses)[i])
                == (EntryView { body: bodies[i], status: statuses[i] }),
{
}

/// Selections never touch the entries, and each one moves the cursor on by
/// one: after `calls` of them the cursor has grown by `calls`. With nothing
/// to rotate through, the state stays as it is.
pub proof fn lemma_cursor_counts_selections(state: RotationState, calls: nat)
    ensures
        state.after(calls).entries == state.entries,
        state.after(calls).cursor >= state.cursor,
        state.entries.len() > 0 ==> state.after(calls).cursor == state.cursor + calls,
        state.entries.len() == 0 ==> state.after(calls) == state,
    decreases calls,
{
    if calls > 0 {
        lemma_cursor_counts_selections(state.advanced(), (calls - 1) as nat);
    }
}

/// One selection after `calls` selections makes `calls + 1` of them.
pub proof fn lemma_one_more(state: RotationState, calls: nat)
    ensures
        state.after(calls).advanced() == state.after(calls + 1),
    decreases calls,
{
    assert(state.after(calls + 1) == state.advanced().after(calls));
    if calls > 0 {
        lemma_one_more(state.advanced(), (calls - 1) as nat);
    } else {
        assert(state.advanced().after(0) == state.advanced());
    }
}

/// Served one after another from startup, the `k`-th request (counting from
/// zero) receives the entry at index `k` modulo the number of entries.
pub proof fn lemma_sequential_rotation(entries: Seq<EntryView>, k: nat)
    requires
        entries.len() > 0,
    ensures
        RotationState::initial(entries).after(k).selected() == entries[(k % entries.len()) as int],
{
    lemma_cursor_counts_selections(RotationState::initial(entries), k);
}

/// With no entry configured, every request receives the default response,
/// however many came before it.
pub proof fn lemma_empty_rotation_serves_default(state: RotationState, k: nat)
    requires
        state.entries.len() == 0,
    ensures
        state.after(k).selected() == default_entry(),
        state.after(k).selected().status == 200,
        state.after(k).selected().body == "Hello".spec_bytes(),
{
    lemma_cursor_counts_selections(state, k);
}

/// No two selections observe the same cursor, and selections that lie less
/// than one full cycle apart are given different indices. So `K` requests
/// against `N` entries, `K` at most `N`, receive `K` distinct indices, in
/// whatever order the requests reach the rotator.
pub proof fn lemma_no_index_twice(state: RotationState, i: nat, j: nat)
    requires
        state.entries.len() > 0,
        i < j,
        j - i < state.entries.len(),
    ensures
        state.after(i).cursor != state.after(j).cursor,
        state.after(i).index() != state.after(j).index(),
{
    lemma_cursor_counts_selections(state, i);
    lemma_cursor_counts_selections(state, j);
    let n = state.entries.len() as int;
    let a = (state.cursor + i) as int;
    let b = (state.cursor + j) as int;
    if a % n == b % n {
        vstd::arithmetic::div_mod::lemma_fundamental_div_mod(a, n);
        vstd::arithmetic::div_mod::lemma_fundamental_div_mod(b, n);
        assert(b - a == n * (b / n - a / n)) by (nonlinear_arith)
            requires
                a == n * (a / n) + a % n,
                b == n * (b / n) + b % n,
                a % n == b % n,
        ;
        let cycles = b / n - a / n;
        assert(b - a >= n) by (nonlinear_arith)
            requires
                0 < b - a,
                0 < n,
                b - a == n * cycles,
        ;
    }
}

} // verus!
