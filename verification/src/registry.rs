//! The server's `users` table as the session's statements shape it: one row
//! per client that completed its handshake and is still connected.
use vstd::prelude::*;
use crate::protocol::{received, request_of, RequestView};
use crate::session::{handshake_of, step_of, HandshakeView, ReadEventView, StepView};
use crate::sql::{
    delete_user_sql, lemma_setup_effect, lemma_statement_effects, sql_effect, SqlEffect, SETUP_SQL,
};

verus! {

/// A row of the `users` table, apart from its address.
pub struct UserRow {
    pub name: Seq<char>,
    pub radio: bool,
}

/// Whether a row other than the one at `owner` is named `name`.
pub open spec fn name_taken(t: Map<Seq<char>, UserRow>, name: Seq<char>, owner: Seq<char>) -> bool {
    exists|a: Seq<char>| #[trigger] t.dom().contains(a) && a != owner && t[a].name == name
}

/// What the table `t` (rows by address) becomes when SQL carries out a
/// statement with the effect `e`, under the table's UNIQUE constraints on
/// name and address: `None` where a constraint refuses the statement.
pub open spec fn run_statement(t: Map<Seq<char>, UserRow>, e: SqlEffect) -> Option<Map<Seq<char>, UserRow>> {
    match e {
        SqlEffect::Register { address, name } => if t.dom().contains(address) || name_taken(
            t,
            name,
            address,
        ) {
            Some(t)
        } else {
            Some(t.insert(address, UserRow { name, radio: false }))
        },
        SqlEffect::Rename { address, name } => if !t.dom().contains(address) {
            Some(t)
        } else if name_taken(t, name, address) {
            None
        } else {
            Some(t.insert(address, UserRow { name, radio: t[address].radio }))
        },
        SqlEffect::SetRadio { address, flag } => if t.dom().contains(address) {
            Some(t.insert(address, UserRow { name: t[address].name, radio: flag }))
        } else {
            Some(t)
        },
        SqlEffect::Remove { address } => Some(t.remove(address)),
        SqlEffect::LookupName { .. } => Some(t),
        SqlEffect::Reset => Some(Map::empty()),
        SqlEffect::Other => Some(t),
    }
}

/// The table after the statement `st`, or unchanged where it is refused.
pub open spec fn carry_out(t: Map<Seq<char>, UserRow>, st: Seq<char>) -> Map<Seq<char>, UserRow> {
    match run_statement(t, sql_effect(st)) {
        Some(u) => u,
        None => t,
    }
}

/// Something that happens to one client's connection.
pub enum LinkEvent {
    /// The TLS handshake with the client at the address succeeded.
    Admitted(Seq<char>),
    /// A read from the client at the address.
    Read(Seq<char>, ReadEventView),
    /// Writing to the client at the address failed.
    Lost(Seq<char>),
}

/// The address of the client that `e` concerns.
pub open spec fn event_peer(e: LinkEvent) -> Seq<char> {
    match e {
        LinkEvent::Admitted(p) => p,
        LinkEvent::Read(p, _) => p,
        LinkEvent::Lost(p) => p,
    }
}

/// The table after the connection of `peer` is lost: its row is removed.
pub open spec fn after_failure(t: Map<Seq<char>, UserRow>, peer: Seq<char>) -> Map<
    Seq<char>,
    UserRow,
> {
    carry_out(t, delete_user_sql(peer))
}

/// The table after the server carries out the session's step for `e`. A
/// statement that the table refuses fails the connection.
pub open spec fn table_after(t: Map<Seq<char>, UserRow>, should_log: bool, e: LinkEvent) -> Map<
    Seq<char>,
    UserRow,
> {
    match e {
        LinkEvent::Admitted(p) => match handshake_of(p, should_log, true) {
            HandshakeView::Admit { register, .. } => carry_out(t, register),
            HandshakeView::Reject { .. } => t,
        },
        LinkEvent::Read(p, ev) => match step_of(p, should_log, ev) {
            StepView::Disconnect { remove, .. } => carry_out(t, remove),
            StepView::Abort { remove } => carry_out(t, remove),
            StepView::Update { statement, .. } => match run_statement(t, sql_effect(statement)) {
                Some(u) => u,
                None => after_failure(t, p),
            },
            _ => t,
        },
        LinkEvent::Lost(p) => after_failure(t, p),
    }
}

/// Whether the connection that `e` concerns is open after the server's step.
pub open spec fn open_after(t: Map<Seq<char>, UserRow>, should_log: bool, e: LinkEvent) -> bool {
    match e {
        LinkEvent::Admitted(_) => true,
        LinkEvent::Lost(_) => false,
        LinkEvent::Read(p, ev) => match step_of(p, should_log, ev) {
            StepView::Disconnect { .. } => false,
            StepView::Abort { .. } => false,
            StepView::Update { statement, .. } => run_statement(t, sql_effect(statement)) is Some,
            _ => true,
        },
    }
}

/// The addresses of the connected clients after the server's step for `e`.
pub open spec fn live_after(
    t: Map<Seq<char>, UserRow>,
    live: Set<Seq<char>>,
    should_log: bool,
    e: LinkEvent,
) -> Set<Seq<char>> {
    if open_after(t, should_log, e) {
        live.insert(event_peer(e))
    } else {
        live.remove(event_peer(e))
    }
}

/// Whether `e` can happen while the clients at `live` are connected: a
/// client is admitted only when it is not connected yet, and a connection is
/// read or lost only while it is open.
pub open spec fn event_fits(live: Set<Seq<char>>, e: LinkEvent) -> bool {
    match e {
        LinkEvent::Admitted(p) => !live.contains(p),
        LinkEvent::Read(p, _) => live.contains(p),
        LinkEvent::Lost(p) => live.contains(p),
    }
}

/// The `users` table holds exactly one row per connected client: each of
/// the session's steps keeps that true. A newly admitted client gets a row named
/// by its address with the radio flag off, a successful `setname` names the
/// sender's row, and no step touches another client's row. Excluded: a
/// client admitted at an address that another client has taken as its name
/// (the table ignores the registration).
pub proof fn lemma_table_lists_live_clients(
    t: Map<Seq<char>, UserRow>,
    live: Set<Seq<char>>,
    should_log: bool,
    e: LinkEvent,
)
    requires
        t.dom() == live,
        event_fits(live, e),
        e matches LinkEvent::Admitted(p) ==> !name_taken(t, p, p),
    ensures
        table_after(t, should_log, e).dom() == live_after(t, live, should_log, e),
        forall|a: Seq<char>|
            a != event_peer(e) && #[trigger] t.dom().contains(a) ==> table_after(t, should_log, e)[a]
                == t[a],
        e matches LinkEvent::Admitted(p) ==> table_after(t, should_log, e)[p] == (UserRow {
            name: p,
            radio: false,
        }),
        e matches LinkEvent::Read(p, ReadEventView::Data(b)) ==> (request_of(received(b)) matches RequestView::SetName(
            n,
        ) ==> (!name_taken(t, n, p) ==> table_after(t, should_log, e)[p] == (UserRow {
            name: n,
            radio: t[p].radio,
        }))),
        e matches LinkEvent::Read(p, ReadEventView::Data(b)) ==> (request_of(received(b)) matches RequestView::SetRadio(
            f,
        ) ==> table_after(t, should_log, e)[p] == (UserRow { name: t[p].name, radio: f })),
{
    let p = event_peer(e);
    lemma_statement_effects(p, p, false);
    match e {
        LinkEvent::Admitted(_) => {
            assert(table_after(t, should_log, e) == t.insert(p, UserRow { name: p, radio: false }));
        },
        LinkEvent::Lost(_) => {},
        LinkEvent::Read(_, ev) => {
            match ev {
                ReadEventView::Data(b) => {
                    match request_of(received(b)) {
                        RequestView::SetName(n) => {
                            lemma_statement_effects(n, p, false);
                        },
                        RequestView::SetRadio(f) => {
                            lemma_statement_effects(p, p, f);
                        },
                        _ => {},
                    }
                },
                _ => {},
            }
        },
    }
    assert(table_after(t, should_log, e).dom() =~= live_after(t, live, should_log, e));
}

/// The users table and the addresses of the connected clients.
pub struct LinkState {
    pub table: Map<Seq<char>, UserRow>,
    pub live: Set<Seq<char>>,
}

/// The state once the server has started on a table `before` left from an
/// earlier run: the set-up statement has run and no client is connected.
pub open spec fn started(before: Map<Seq<char>, UserRow>) -> LinkState {
    LinkState { table: carry_out(before, SETUP_SQL@), live: Set::empty() }
}

/// The state after the server's step for `e`.
pub open spec fn next_state(s: LinkState, should_log: bool, e: LinkEvent) -> LinkState {
    LinkState {
        table: table_after(s.table, should_log, e),
        live: live_after(s.table, s.live, should_log, e),
    }
}

/// The state after the server's steps for `events`, in order.
pub open spec fn run_events(s: LinkState, should_log: bool, events: Seq<LinkEvent>) -> LinkState
    decreases events.len(),
{
    if events.len() == 0 {
        s
    } else {
        next_state(run_events(s, should_log, events.drop_last()), should_log, events.last())
    }
}

/// Whether `e` can happen in the state `s`, apart from the admission of a
/// client at an address that another client has taken as its name.
pub open spec fn admissible(s: LinkState, e: LinkEvent) -> bool {
    &&& event_fits(s.live, e)
    &&& e matches LinkEvent::Admitted(p) ==> !name_taken(s.table, p, p)
}

/// Whether every one of `events` can happen in the state that the ones
/// before it leave.
pub open spec fn run_admissible(s: LinkState, should_log: bool, events: Seq<LinkEvent>) -> bool
    decreases events.len(),
{
    events.len() == 0 || (run_admissible(s, should_log, events.drop_last()) && admissible(
        run_events(s, should_log, events.drop_last()),
        events.last(),
    ))
}

/// From the server's start, through any run of connections, handshakes,
/// requests, messages, disconnections and failures, the `users` table holds
/// exactly one row per connected client. Excluded: the admission of a
/// client at an address that another client has taken as its name.
pub proof fn lemma_run_lists_live_clients(
    before: Map<Seq<char>, UserRow>,
    should_log: bool,
    events: Seq<LinkEvent>,
)
    requires
        run_admissible(started(before), should_log, events),
    ensures
        run_events(started(before), should_log, events).table.dom() == run_events(
            started(before),
            should_log,
            events,
        ).live,
    decreases events.len(),
{
    if events.len() == 0 {
        lemma_setup_effect();
        assert(started(before).table.dom() =~= started(before).live);
    } else {
        lemma_run_lists_live_clients(before, should_log, events.drop_last());
        let s = run_events(started(before), should_log, events.drop_last());
        lemma_table_lists_live_clients(s.table, s.live, should_log, events.last());
    }
}

} // verus!
