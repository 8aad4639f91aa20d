//! The named event states derived from a configuration.

use crate::decimal::{decimal_text, push_decimal};
use crate::fcu_module_data::{parsed, MergModuleDataSet, UserEventView};
use crate::filtering::lemma_filter_push;
use crate::json_text::{pretty_rows, pretty_rows_text};
use vstd::prelude::*;

verus! {

/// State of a CBus event.
#[derive(Clone, Copy, Debug, PartialEq, Eq, Structural)]
pub enum State {
    /// Not observed yet.
    UNKN,
    /// Off.
    ZERO,
    /// On.
    ONE,
}

/// The state of one named CBus event.
#[derive(Clone, Debug)]
pub struct CbusState {
    /// Item name.
    pub name: String,
    /// Event number, as `N<node>E<value>`.
    pub event: String,
    /// Current state of the event.
    pub state: State,
}

/// What a [`CbusState`] holds.
pub struct CbusStateView {
    pub name: Seq<char>,
    pub event: Seq<char>,
    pub state: State,
}

impl View for CbusState {
    type V = CbusStateView;

    open spec fn view(&self) -> CbusStateView {
        CbusStateView { name: self.name@, event: self.event@, state: self.state }
    }
}

impl DeepView for CbusState {
    type V = CbusStateView;

    open spec fn deep_view(&self) -> CbusStateView {
        self@
    }
}

/// The event states of a configuration, in document order.
#[derive(Clone, Debug)]
pub struct CBusInterface {
    /// One entry for each user event that its own node raises.
    pub cbusstates: Vec<CbusState>,
}

impl View for CBusInterface {
    type V = Seq<CbusStateView>;

    open spec fn view(&self) -> Seq<CbusStateView> {
        self.cbusstates.deep_view()
    }
}

/// The event number of an event raised by `node` with `value`: the letter
/// `N`, the node in decimal, the letter `E`, the value in decimal.
pub open spec fn event_text(node: u16, value: u16) -> Seq<char> {
    seq!['N'] + decimal_text(node as nat) + seq!['E'] + decimal_text(value as nat)
}

/// Whether the node that owns `event` is the one that raises it.
pub open spec fn is_local(event: UserEventView) -> bool {
    event.ownerNode == event.eventNode
}

/// The state entry that `event` gives rise to.
pub open spec fn event_state(event: UserEventView) -> CbusStateView {
    CbusStateView {
        name: event.eventName,
        event: event_text(event.eventNode, event.eventValue),
        state: State::UNKN,
    }
}

/// The state entries of `events`: one for each local event, in the order of
/// the events.
pub open spec fn local_event_states(events: Seq<UserEventView>) -> Seq<CbusStateView> {
    events.filter(|e: UserEventView| is_local(e)).map_values(|e: UserEventView| event_state(e))
}

/// The word that stands for `state` in JSON.
pub open spec fn state_text(state: State) -> Seq<char> {
    match state {
        State::UNKN => "UNKN"@,
        State::ZERO => "ZERO"@,
        State::ONE => "ONE"@,
    }
}

/// The JSON members of one state entry: `name`, `event` and `state`, in
/// that order.
pub open spec fn state_row(entry: CbusStateView) -> Seq<(Seq<char>, Seq<char>)> {
    seq![("name"@, entry.name), ("event"@, entry.event), ("state"@, state_text(entry.state))]
}

/// The JSON rows of `entries`, one for each entry, in their order.
pub open spec fn state_rows(entries: Seq<CbusStateView>) -> Seq<Seq<(Seq<char>, Seq<char>)>> {
    entries.map_values(|entry: CbusStateView| state_row(entry))
}

/// The JSON text of `entries`: an object whose one member, `cbusstates`, is
/// the array of their rows.
pub open spec fn rendered(entries: Seq<CbusStateView>) -> Seq<char> {
    pretty_rows_text("cbusstates"@, state_rows(entries))
}

impl State {
    /// The word that stands for the state in JSON.
    pub fn as_str(&self) -> (text: &'static str)
        ensures
            text@ == state_text(*self),
    {
        match self {
            State::UNKN => "UNKN",
            State::ZERO => "ZERO",
            State::ONE => "ONE",
        }
    }
}

/// Builds the event number of `node` and `value`.
pub fn event_string(node: u16, value: u16) -> (text: String)
    ensures
        text@ == event_text(node, value),
{
    proof {
        reveal_strlit("N");
        reveal_strlit("E");
    }
    let mut text = "N".to_owned();
    assert(text@ =~= seq!['N']);
    push_decimal(&mut text, node);
    text.append("E");
    push_decimal(&mut text, value);
    assert(text@ =~= event_text(node, value));
    text
}

impl CBusInterface {
    /// Keeps the events of `fcu_config` that their own node raises, each
    /// with its name, its event number and an unknown state.
    pub fn new(fcu_config: MergModuleDataSet) -> (interface: CBusInterface)
        ensures
            interface@ == local_event_states(fcu_config@.userEvents),
    {
        let events = &fcu_config.userEvents;
        let ghost all = events.deep_view();
        let ghost local = |e: UserEventView| is_local(e);
        let mut cbusstates: Vec<CbusState> = Vec::new();
        let mut i: usize = 0;
        while i < events.len()
            invariant
                i <= events.len(),
                all == events.deep_view(),
                all.len() == events.len(),
                local == |e: UserEventView| is_local(e),
                cbusstates.deep_view() == local_event_states(all.take(i as int)),
            decreases events.len() - i,
        {
            let event = &events[i];
            let ghost before = all.take(i as int);
            let ghost states = cbusstates.deep_view();
            proof {
                assert(all[i as int] == event@);
                assert(all.take(i + 1) =~= before.push(event@));
                lemma_filter_push(before, event@, local);
            }
            if event.ownerNode == event.eventNode {
                let name = event.eventName.clone();
                let text = event_string(event.eventNode, event.eventValue);
                cbusstates.push(CbusState { name, event: text, state: State::UNKN });
                proof {
                    assert(cbusstates.deep_view() =~= states.push(event_state(event@)));
                    assert(local_event_states(all.take(i + 1)) =~= states.push(
                        event_state(event@),
                    ));
                }
            } else {
                assert(cbusstates.deep_view() =~= local_event_states(all.take(i + 1)));
            }
            i += 1;
        }
        assert(all.take(i as int) =~= all);
        CBusInterface { cbusstates }
    }

    /// The JSON members of each entry, in the order of the entries.
    pub fn rows(&self) -> (rows: Vec<Vec<(String, String)>>)
        ensures
            rows.deep_view() == state_rows(self@),
    {
        let mut rows: Vec<Vec<(String, String)>> = Vec::new();
        let mut i: usize = 0;
        while i < self.cbusstates.len()
            invariant
                i <= self.cbusstates.len(),
                rows.deep_view() == state_rows(self@.take(i as int)),
            decreases self.cbusstates.len() - i,
        {
            let entry = &self.cbusstates[i];
            let mut row: Vec<(String, String)> = Vec::new();
            row.push(("name".to_owned(), entry.name.clone()));
            row.push(("event".to_owned(), entry.event.clone()));
            row.push(("state".to_owned(), entry.state.as_str().to_owned()));
            proof {
                assert(row.deep_view() =~= state_row(entry@));
                assert(self@.take(i + 1) =~= self@.take(i as int).push(entry@));
            }
            let ghost before = rows.deep_view();
            rows.push(row);
            assert(rows.deep_view() =~= before.push(state_row(entry@)));
            assert(rows.deep_view() =~= state_rows(self@.take(i + 1)));
            i += 1;
        }
        assert(self@.take(i as int) =~= self@);
        rows
    }

    /// The entries as indented JSON text.
    pub fn pretty_print(&self) -> (text: String)
        ensures
            text@ == rendered(self@),
    {
        let rows = self.rows();
        pretty_rows("cbusstates", &rows)
    }
}

/// An event that another node owns leaves no trace: with it or without it,
/// wherever it stands among the events, the states are the same.
pub proof fn lemma_foreign_event_is_left_out(
    events: Seq<UserEventView>,
    event: UserEventView,
    at: int,
)
    requires
        0 <= at <= events.len(),
        event.ownerNode != event.eventNode,
    ensures
        local_event_states(events.insert(at, event)) == local_event_states(events),
{
    let local = |e: UserEventView| is_local(e);
    let front = events.take(at);
    let back = events.skip(at);
    assert(events.insert(at, event) =~= front.push(event) + back);
    assert(events =~= front + back);
    lemma_filter_push(front, event, local);
    Seq::filter_distributes_over_add(front.push(event), back, local);
    Seq::filter_distributes_over_add(front, back, local);
}

/// An event that its own node raises gives one state, at the place of the
/// event: behind the states of the events before it and before those of
/// the events behind it, whatever these hold.
pub proof fn lemma_local_event_is_kept(events: Seq<UserEventView>, event: UserEventView, at: int)
    requires
        0 <= at <= events.len(),
        event.ownerNode == event.eventNode,
    ensures
        local_event_states(events.insert(at, event)) == local_event_states(events.take(at)).push(
            event_state(event),
        ) + local_event_states(events.skip(at)),
{
    let local = |e: UserEventView| is_local(e);
    let front = events.take(at);
    let back = events.skip(at);
    assert(events.insert(at, event) =~= front.push(event) + back);
    lemma_filter_push(front, event, local);
    Seq::filter_distributes_over_add(front.push(event), back, local);
    assert(local_event_states(events.insert(at, event)) =~= local_event_states(front).push(
        event_state(event),
    ) + local_event_states(back));
}

/// Each state stands for a local event, and each local event has its
/// state: there are as many states as local events, and the state at an
/// index is that of the local event at the same index.
pub proof fn lemma_states_match_local_events(events: Seq<UserEventView>)
    ensures
        local_event_states(events).len() == events.filter(|e: UserEventView| is_local(e)).len(),
        local_event_states(events).len() <= events.len(),
        forall|i: int|
            0 <= i < local_event_states(events).len() ==> {
                let source = events.filter(|e: UserEventView| is_local(e))[i];
                &&& events.contains(source)
                &&& source.ownerNode == source.eventNode
                &&& #[trigger] local_event_states(events)[i] == event_state(source)
            },
{
    let local = |e: UserEventView| is_local(e);
    events.lemma_filter_len(local);
    assert forall|i: int| 0 <= i < local_event_states(events).len() implies {
        let source = events.filter(local)[i];
        &&& events.contains(source)
        &&& source.ownerNode == source.eventNode
        &&& #[trigger] local_event_states(events)[i] == event_state(source)
    } by {
        events.lemma_filter_pred(local, i);
        lemma_filtered_item_is_an_item(events, local, i);
    }
}

/// What a filter keeps was there before.
proof fn lemma_filtered_item_is_an_item<A>(items: Seq<A>, keep: spec_fn(A) -> bool, i: int)
    requires
        0 <= i < items.filter(keep).len(),
    ensures
        items.contains(items.filter(keep)[i]),
    decreases items.len(),
{
    reveal(Seq::filter);
    if items.len() > 0 {
        let front = items.drop_last();
        if i < front.filter(keep).len() {
            lemma_filtered_item_is_an_item(front, keep, i);
            let j = choose|j: int| 0 <= j < front.len() && front[j] == front.filter(keep)[i];
            assert(items[j] == items.filter(keep)[i]);
        } else {
            assert(items[items.len() - 1] == items.filter(keep)[i]);
        }
    }
}

/// Two views built from datasets that hold the same hold the same: what is
/// built depends on the user events alone.
pub proof fn lemma_same_dataset_same_states(
    first: MergModuleDataSet,
    second: MergModuleDataSet,
    one: CBusInterface,
    other: CBusInterface,
)
    requires
        first@.userEvents == second@.userEvents,
        one@ == local_event_states(first@.userEvents),
        other@ == local_event_states(second@.userEvents),
    ensures
        one@ == other@,
        rendered(one@) == rendered(other@),
{
}

/// No user events, or none that its own node raises, give no states.
pub proof fn lemma_no_local_events_no_states(events: Seq<UserEventView>)
    requires
        forall|i: int| 0 <= i < events.len() ==> !is_local(#[trigger] events[i]),
    ensures
        local_event_states(events) == Seq::<CbusStateView>::empty(),
        rendered(local_event_states(events)) == pretty_rows_text("cbusstates"@, Seq::empty()),
    decreases events.len(),
{
    let local = |e: UserEventView| is_local(e);
    if events.len() > 0 {
        let front = events.drop_last();
        lemma_no_local_events_no_states(front);
        assert(events =~= front.push(events.last()));
        lemma_filter_push(front, events.last(), local);
        assert(front.filter(local) =~= Seq::<UserEventView>::empty()) by {
            assert(local_event_states(front).len() == front.filter(local).len());
        }
    } else {
        events.lemma_filter_len(local);
    }
    assert(local_event_states(events) =~= Seq::<CbusStateView>::empty());
    assert(state_rows(Seq::<CbusStateView>::empty()) =~= Seq::empty());
}

/// Each row of the JSON text has the three members `name`, `event` and
/// `state`, in this order, and no other; the state is one of three words.
pub proof fn lemma_rows_have_three_members(entries: Seq<CbusStateView>)
    ensures
        state_rows(entries).len() == entries.len(),
        forall|i: int|
            0 <= i < entries.len() ==> {
                let row = #[trigger] state_rows(entries)[i];
                &&& row.len() == 3
                &&& row[0] == ("name"@, entries[i].name)
                &&& row[1] == ("event"@, entries[i].event)
                &&& row[2].0 == "state"@
                &&& (row[2].1 == "UNKN"@ || row[2].1 == "ZERO"@ || row[2].1 == "ONE"@)
            },
{
}

/// Loading a document, building the view and rendering it gives the JSON
/// text of one row for each local user event of the document, in document
/// order, each row with the members `name`, `event` and `state`.
pub proof fn lemma_document_to_text(
    bytes: Seq<u8>,
    data: MergModuleDataSet,
    view: CBusInterface,
    text: String,
)
    requires
        parsed(bytes) == Some(data@),
        view@ == local_event_states(data@.userEvents),
        text@ == rendered(view@),
    ensures
        text@ == pretty_rows_text(
            "cbusstates"@,
            state_rows(local_event_states(parsed(bytes).unwrap().userEvents)),
        ),
        state_rows(view@).len() <= data@.userEvents.len(),
        forall|i: int|
            0 <= i < view@.len() ==> {
                let row = #[trigger] state_rows(view@)[i];
                row.len() == 3 && row[0].0 == "name"@ && row[1].0 == "event"@ && row[2]
                    == ("state"@, "UNKN"@)
            },
{
    lemma_states_match_local_events(data@.userEvents);
    lemma_rows_have_three_members(view@);
}

} // verus!
