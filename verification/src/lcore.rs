//! Logical cores (lcores): their roles and states, the EAL's lcore table as
//! seen through a snapshot, iteration over enabled lcores, and the selection
//! of lcores to launch work on.

use vstd::prelude::*;
use crate::text::{decimal, push_decimal, push_signed_decimal, signed_decimal};

verus! {

/// Special value indicating "any lcore" or "not an lcore thread"
pub const LCORE_ID_ANY: u32 = 0xffff_ffffu32;

/// Role of an lcore.
#[derive(Debug, Clone, Copy, PartialEq, Eq, Structural)]
pub enum Role {
    /// Regular EAL thread (RTE role)
    Rte,
    /// Off - lcore is not used
    Off,
    /// Service core
    Service,
    /// Non-EAL thread (registered via rte_thread_register)
    NonEal,
}

impl Role {
    /// The role with DPDK's number `value` (`ROLE_RTE` = 0 through
    /// `ROLE_NON_EAL` = 3), if there is one.
    pub open spec fn from_code_spec(value: u32) -> Result<Role, ()> {
        if value == 0 {
            Ok(Role::Rte)
        } else if value == 1 {
            Ok(Role::Off)
        } else if value == 2 {
            Ok(Role::Service)
        } else if value == 3 {
            Ok(Role::NonEal)
        } else {
            Err(())
        }
    }

    /// DPDK's number for this role (`ROLE_RTE` = 0 through
    /// `ROLE_NON_EAL` = 3).
    pub open spec fn code_spec(self) -> u32 {
        match self {
            Role::Rte => 0,
            Role::Off => 1,
            Role::Service => 2,
            Role::NonEal => 3,
        }
    }

    /// DPDK's number for this role.
    pub fn code(&self) -> (r: u32)
        ensures
            r == self.code_spec(),
    {
        match self {
            Role::Rte => 0,
            Role::Off => 1,
            Role::Service => 2,
            Role::NonEal => 3,
        }
    }

    /// Reading a role's own number back gives the role, and the numbers a
    /// role is read from are exactly the numbers of roles.
    pub proof fn lemma_code_round_trip(r: Role, value: u32)
        ensures
            Role::from_code_spec(r.code_spec()) == Ok::<Role, ()>(r),
            Role::from_code_spec(value) matches Ok(back) ==> back.code_spec() == value,
            Role::from_code_spec(value) is Ok <==> value <= 3,
    {
    }

    /// The role with DPDK's number `value`, or `Err(())` for any other
    /// number.
    pub fn from_code(value: u32) -> (r: Result<Role, ()>)
        ensures
            r == Role::from_code_spec(value),
    {
        if value == 0 {
            Ok(Role::Rte)
        } else if value == 1 {
            Ok(Role::Off)
        } else if value == 2 {
            Ok(Role::Service)
        } else if value == 3 {
            Ok(Role::NonEal)
        } else {
            Err(())
        }
    }
}

impl TryFrom<u32> for Role {
    type Error = ();

    fn try_from(value: u32) -> (r: Result<Self, Self::Error>) {
        Role::from_code(value)
    }
}

impl vstd::std_specs::convert::TryFromSpecImpl<u32> for Role {
    open spec fn obeys_try_from_spec() -> bool {
        true
    }

    open spec fn try_from_spec(v: u32) -> Result<Self, Self::Error> {
        Role::from_code_spec(v)
    }
}

/// State of an lcore.
#[derive(Debug, Clone, Copy, PartialEq, Eq, Structural)]
pub enum State {
    /// Lcore is waiting for new command
    Wait,
    /// Lcore is running a function
    Running,
    /// Lcore has finished, waiting for ack
    Finished,
}

impl State {
    /// The state with DPDK's number `value` (`WAIT` = 0, `RUNNING` = 1,
    /// `FINISHED` = 2); any other number reads as `Wait`.
    pub open spec fn from_code_spec(value: i32) -> State {
        if value == 1 {
            State::Running
        } else if value == 2 {
            State::Finished
        } else {
            State::Wait
        }
    }
}

impl From<i32> for State {
    fn from(value: i32) -> (r: Self) {
        if value == 0 {
            State::Wait
        } else if value == 1 {
            State::Running
        } else if value == 2 {
            State::Finished
        } else {
            State::Wait
        }
    }
}

impl vstd::std_specs::convert::FromSpecImpl<i32> for State {
    open spec fn obeys_from_spec() -> bool {
        true
    }

    open spec fn from_spec(v: i32) -> State {
        State::from_code_spec(v)
    }
}

/// DPDK's lcore states are numbered `WAIT` = 0, `RUNNING` = 1 and
/// `FINISHED` = 2; any other number reads as waiting, and each state is
/// read back from its own number.
pub proof fn lemma_state_codes(value: i32)
    ensures
        State::from_code_spec(0) == State::Wait,
        State::from_code_spec(1) == State::Running,
        State::from_code_spec(2) == State::Finished,
        !(0 <= value <= 2) ==> State::from_code_spec(value) == State::Wait,
        State::from_code_spec(value) == State::Running <==> value == 1,
        State::from_code_spec(value) == State::Finished <==> value == 2,
{
}

/// Whether an lcore ID is not `main`.
pub open spec fn other_than(main: u32) -> spec_fn(u32) -> bool {
    |id: u32| id != main
}

/// A handle to a DPDK logical core (lcore): just its ID.
#[derive(Debug, Clone, Copy, PartialEq, Eq, Hash, Structural)]
pub struct Lcore {
    id: u32,
}

/// A snapshot of the EAL's lcore table: for each lcore ID below the table's
/// length, whether it is enabled, its NUMA socket, its role and its current
/// state, plus the ID of the main lcore.
pub struct LcoreTable {
    enabled: Vec<bool>,
    sockets: Vec<u32>,
    roles: Vec<Role>,
    states: Vec<State>,
    main: u32,
}

impl LcoreTable {
    pub closed spec fn size(&self) -> nat {
        self.enabled@.len()
    }

    pub closed spec fn is_enabled(&self, id: u32) -> bool {
        id < self.enabled@.len() && self.enabled@[id as int]
    }

    pub closed spec fn socket_of(&self, id: u32) -> u32 {
        self.sockets@[id as int]
    }

    pub closed spec fn role_of(&self, id: u32) -> Role {
        self.roles@[id as int]
    }

    pub closed spec fn state_of(&self, id: u32) -> State {
        self.states@[id as int]
    }

    pub closed spec fn main_id(&self) -> u32 {
        self.main
    }

    /// Every lcore ID fits in a `u32` and each column covers every ID.
    pub closed spec fn wf(&self) -> bool {
        &&& self.enabled@.len() < u32::MAX
        &&& self.sockets@.len() == self.enabled@.len()
        &&& self.roles@.len() == self.enabled@.len()
        &&& self.states@.len() == self.enabled@.len()
    }

    /// Build a snapshot from its columns (index = lcore ID) and the main
    /// lcore's ID; `None` when the columns differ in length or the table is
    /// too large for `u32` IDs.
    pub fn new(
        enabled: Vec<bool>,
        sockets: Vec<u32>,
        roles: Vec<Role>,
        states: Vec<State>,
        main: u32,
    ) -> (r: Option<LcoreTable>)
        ensures
            r is Some <==> (sockets@.len() == enabled@.len() && roles@.len() == enabled@.len()
                && states@.len() == enabled@.len() && enabled@.len() < u32::MAX),
            r matches Some(t) ==> t.wf() && t.size() == enabled@.len() && t.main_id() == main
                && (forall|id: u32|
                id < enabled@.len() ==> (#[trigger] t.is_enabled(id)) == enabled@[id as int]
                    && t.socket_of(id) == sockets@[id as int] && t.role_of(id) == roles@[id as int]
                    && t.state_of(id) == states@[id as int]),
    {
        if sockets.len() == enabled.len() && roles.len() == enabled.len() && states.len()
            == enabled.len() && enabled.len() < 0xffff_ffffusize {
            Some(LcoreTable { enabled, sockets, roles, states, main })
        } else {
            None
        }
    }

    /// The number of lcore IDs the table covers.
    pub fn num_ids(&self) -> (r: usize)
        ensures
            r == self.size(),
    {
        self.enabled.len()
    }

    /// The ID of the main lcore.
    pub fn main_lcore_id(&self) -> (r: u32)
        ensures
            r == self.main_id(),
    {
        self.main
    }

    /// The enabled lcore IDs below `n`, ascending, leaving out the main
    /// lcore when `skip_main` holds.
    pub closed spec fn ids_below(&self, n: nat, skip_main: bool) -> Seq<u32>
        decreases n,
    {
        if n == 0 {
            Seq::empty()
        } else {
            let id = (n - 1) as u32;
            let rest = self.ids_below((n - 1) as nat, skip_main);
            if self.is_enabled(id) && !(skip_main && id == self.main) {
                rest.push(id)
            } else {
                rest
            }
        }
    }

    /// The enabled lcore IDs in ascending order, leaving out the main lcore
    /// when `skip_main` holds: the order in which `rte_get_next_lcore`
    /// visits them.
    pub open spec fn listed(&self, skip_main: bool) -> Seq<u32> {
        self.ids_below(self.size(), skip_main)
    }

    /// The workers listing is the full listing without the main lcore:
    /// the same IDs in the same order, only the main lcore's left out.
    pub proof fn lemma_workers_are_all_but_main(&self)
        ensures
            self.listed(true) == self.listed(false).filter(other_than(self.main_id())),
    {
        self.lemma_ids_below_without_main(self.size());
    }

    proof fn lemma_ids_below_without_main(&self, n: nat)
        ensures
            self.ids_below(n, true) == self.ids_below(n, false).filter(other_than(self.main_id())),
        decreases n,
    {
        let p = other_than(self.main_id());
        reveal(Seq::filter);
        if n == 0 {
            assert(Seq::<u32>::empty().filter(p) =~= Seq::<u32>::empty());
        } else {
            self.lemma_ids_below_without_main((n - 1) as nat);
            let all = self.ids_below(n, false);
            let rest = self.ids_below((n - 1) as nat, false);
            let id = (n - 1) as u32;
            assert(p(id) == (id != self.main_id()));
            if self.is_enabled(id) {
                assert(all.drop_last() =~= rest);
            } else {
                assert(all == rest);
            }
        }
    }

    /// An ID is in the listing exactly when it is enabled (and not the
    /// skipped main lcore), and the listing is strictly ascending.
    pub proof fn lemma_ids_below(&self, n: nat, skip_main: bool)
        requires
            n <= self.size(),
            self.wf(),
        ensures
            forall|id: u32|
                #![trigger self.ids_below(n, skip_main).contains(id)]
                self.ids_below(n, skip_main).contains(id) <==> (id < n && self.is_enabled(id) && !(
                skip_main && id == self.main_id())),
            forall|i: int, j: int|
                0 <= i < j < self.ids_below(n, skip_main).len() ==> self.ids_below(n, skip_main)[i]
                    < self.ids_below(n, skip_main)[j],
            forall|i: int|
                0 <= i < self.ids_below(n, skip_main).len() ==> self.ids_below(n, skip_main)[i] < n,
        decreases n,
    {
        if n > 0 {
            self.lemma_ids_below((n - 1) as nat, skip_main);
            let rest = self.ids_below((n - 1) as nat, skip_main);
            let id = (n - 1) as u32;
            if self.is_enabled(id) && !(skip_main && id == self.main) {
                assert forall|x: u32| #![trigger rest.push(id).contains(x)] rest.push(id).contains(x) <==> (
                x < n && self.is_enabled(x) && !(skip_main && x == self.main_id())) by {
                    if rest.push(id).contains(x) && x != id {
                        let k = choose|k: int| 0 <= k < rest.push(id).len() && rest.push(id)[k] == x;
                        assert(rest[k] == x);
                        assert(rest.contains(x));
                    }
                    if x < n && self.is_enabled(x) && !(skip_main && x == self.main_id()) && x != id {
                        assert(rest.contains(x));
                        let k = choose|k: int| 0 <= k < rest.len() && rest[k] == x;
                        assert(rest.push(id)[k] == x);
                    }
                    if x == id {
                        assert(rest.push(id)[rest.len() as int] == x);
                    }
                }
            } else {
                assert forall|x: u32| #![trigger rest.contains(x)] rest.contains(x) <==> (x < n
                    && self.is_enabled(x) && !(skip_main && x == self.main_id())) by {
                    if x == id {
                        if rest.contains(x) {
                            let k = choose|k: int| 0 <= k < rest.len() && rest[k] == x;
                        }
                    }
                }
            }
        }
    }
}

impl Lcore {
    /// The lcore's ID.
    pub closed spec fn id_spec(&self) -> u32 {
        self.id
    }

    /// Create an Lcore handle from an ID: `Some` exactly when the ID is an
    /// enabled lcore of the table.
    pub fn from_id(id: u32, table: &LcoreTable) -> (r: Option<Lcore>)
        ensures
            r is Some <==> table.is_enabled(id),
            r matches Some(l) ==> l.id_spec() == id,
    {
        if (id as usize) < table.enabled.len() && table.enabled[id as usize] {
            Some(Lcore { id })
        } else {
            None
        }
    }
}

impl Lcore {
    /// Get the current thread's lcore from the ID `rte_lcore_id` reports:
    /// `None` for [`LCORE_ID_ANY`] (a thread that is not an lcore).
    pub fn current(raw_id: u32) -> (r: Option<Lcore>)
        ensures
            raw_id == LCORE_ID_ANY ==> r is None,
            raw_id != LCORE_ID_ANY ==> (r matches Some(l) && l.id_spec() == raw_id),
    {
        if raw_id == LCORE_ID_ANY {
            None
        } else {
            Some(Lcore { id: raw_id })
        }
    }

    /// Get the main (initial) lcore of the table.
    pub fn main(table: &LcoreTable) -> (r: Lcore)
        ensures
            r.id_spec() == table.main_id(),
    {
        Lcore { id: table.main }
    }

    /// Iterate over all enabled lcores (including main), by ascending ID.
    pub fn all(table: &LcoreTable) -> (r: LcoreIter)
        requires
            table.wf(),
        ensures
            r.wf(),
            r.remaining() == table.listed(false),
    {
        LcoreIter::over(table, false)
    }

    /// Iterate over worker lcores (excluding main), by ascending ID.
    pub fn workers(table: &LcoreTable) -> (r: LcoreIter)
        requires
            table.wf(),
        ensures
            r.wf(),
            r.remaining() == table.listed(true),
    {
        LcoreIter::over(table, true)
    }

    /// Get the total number of enabled lcores.
    pub fn count(table: &LcoreTable) -> (r: u32)
        requires
            table.wf(),
        ensures
            r == table.listed(false).len(),
    {
        let it = LcoreIter::over(table, false);
        it.ids.len() as u32
    }

    /// Get this lcore's ID.
    pub fn id(&self) -> (r: u32)
        ensures
            r == self.id_spec(),
    {
        self.id
    }

    /// Check if this is the main lcore.
    pub fn is_main(&self, table: &LcoreTable) -> (r: bool)
        ensures
            r == (self.id_spec() == table.main_id()),
    {
        self.id == table.main
    }

    /// Get the role of this lcore.
    pub fn role(&self, table: &LcoreTable) -> (r: Role)
        requires
            table.wf(),
            self.id_spec() < table.size(),
        ensures
            r == table.role_of(self.id_spec()),
    {
        table.roles[self.id as usize]
    }

    /// Get the NUMA socket ID for this lcore.
    pub fn socket_id(&self, table: &LcoreTable) -> (r: u32)
        requires
            table.wf(),
            self.id_spec() < table.size(),
        ensures
            r == table.socket_of(self.id_spec()),
    {
        table.sockets[self.id as usize]
    }

    /// Get the current state of this lcore.
    pub fn state(&self, table: &LcoreTable) -> (r: State)
        requires
            table.wf(),
            self.id_spec() < table.size(),
        ensures
            r == table.state_of(self.id_spec()),
    {
        table.states[self.id as usize]
    }

    /// Check if this lcore is currently available (in Wait state).
    pub fn is_available(&self, table: &LcoreTable) -> (r: bool)
        requires
            table.wf(),
            self.id_spec() < table.size(),
        ensures
            r == (table.state_of(self.id_spec()) == State::Wait),
    {
        self.state(table) == State::Wait
    }

    /// Launch work on this lcore with `launch_on` (returning the launch
    /// code, as `rte_eal_remote_launch` does) and, once it started, wait for
    /// it with `wait_lcore` (returning the function's value, as
    /// `rte_eal_wait_lcore` does).
    pub fn run<F: Fn(Lcore) -> i32, G: Fn(Lcore) -> i32>(&self, launch_on: F, wait_lcore: G) -> (r:
        Result<i32, LaunchError>)
        requires
            call_requires(launch_on, (*self,)),
            call_requires(wait_lcore, (*self,)),
        ensures
            match r {
                Ok(v) => call_ensures(launch_on, (*self,), 0i32) && call_ensures(wait_lcore, (*self,), v),
                Err(e) => e.lcore_id == self.id_spec() && e.code != 0 && call_ensures(
                    launch_on,
                    (*self,),
                    e.code,
                ),
            },
    {
        let ret = launch_on(*self);
        if ret != 0 {
            return Err(LaunchError { lcore_id: self.id, code: ret });
        }
        Ok(wait_lcore(*self))
    }

    /// Launch work on every worker lcore, by ascending ID, with
    /// `launch_on`; stops at the first worker whose launch fails.
    pub fn launch_on_workers<F: Fn(Lcore) -> i32>(table: &LcoreTable, launch_on: F) -> (r: Result<
        (),
        LaunchError,
    >)
        requires
            table.wf(),
            forall|l: Lcore| call_requires(launch_on, (l,)),
        ensures
            r is Ok ==> forall|l: Lcore|
                #[trigger] table.listed(true).contains(l.id_spec()) ==> call_ensures(
                    launch_on,
                    (l,),
                    0i32,
                ),
            r matches Err(e) ==> e.code != 0 && exists|k: int|
                0 <= k < table.listed(true).len() && table.listed(true)[k] == e.lcore_id && (forall|
                    l: Lcore,
                | l.id_spec() == e.lcore_id ==> call_ensures(launch_on, (l,), e.code)) && (forall|
                    i: int,
                    l: Lcore,
                |
                    #![trigger table.listed(true)[i], l.id_spec()]
                    0 <= i < k && table.listed(true)[i] == l.id_spec() ==> call_ensures(
                        launch_on,
                        (l,),
                        0i32,
                    )),
    {
        let b = LaunchBuilder::workers(table);
        let ghost targets = b.targets();
        match b.launch(launch_on) {
            Ok(_) => {
                assert forall|l: Lcore| #[trigger] table.listed(true).contains(l.id_spec()) implies call_ensures(
                    launch_on,
                    (l,),
                    0i32,
                ) by {
                    let i = choose|i: int| 0 <= i < ids_of(targets).len() && ids_of(targets)[i] == l.id_spec();
                    assert(ids_of(targets)[i] == targets[i].id_spec());
                    assert(targets[i] == l);
                    assert(call_ensures(launch_on, (targets[i],), 0i32));
                }
                Ok(())
            },
            Err(e) => {
                let ghost k = choose|k: int|
                    0 <= k < targets.len() && e.lcore_id == targets[k].id_spec() && e.code != 0
                        && call_ensures(launch_on, (targets[k],), e.code) && forall|i: int|
                        0 <= i < k ==> call_ensures(launch_on, (#[trigger] targets[i],), 0i32);
                assert(ids_of(targets)[k] == e.lcore_id);
                assert forall|l: Lcore| l.id_spec() == e.lcore_id implies call_ensures(
                    launch_on,
                    (l,),
                    e.code,
                ) by {
                    assert(targets[k] == l);
                }
                assert forall|i: int, l: Lcore|
                    #![trigger table.listed(true)[i], l.id_spec()]
                    0 <= i < k && table.listed(true)[i] == l.id_spec() implies call_ensures(
                    launch_on,
                    (l,),
                    0i32,
                ) by {
                    assert(ids_of(targets)[i] == targets[i].id_spec());
                    assert(targets[i] == l);
                    assert(call_ensures(launch_on, (targets[i],), 0i32));
                }
                Err(e)
            },
        }
    }

    /// Execute a closure for each worker lcore, by ascending ID.
    pub fn foreach_worker<F: Fn(Lcore)>(table: &LcoreTable, f: F)
        requires
            table.wf(),
            forall|l: Lcore| call_requires(f, (l,)),
        ensures
            forall|l: Lcore|
                #[trigger] table.listed(true).contains(l.id_spec()) ==> call_ensures(f, (l,), ()),
    {
        let mut it = LcoreIter::over(table, true);
        let ghost ids = it.ids@;
        while it.pos < it.ids.len()
            invariant
                forall|l: Lcore| call_requires(f, (l,)),
                it.ids@ == ids,
                ids == table.listed(true),
                it.pos <= ids.len(),
                forall|k: int| 0 <= k < it.pos ==> call_ensures(f, (Lcore { id: #[trigger] ids[k] },), ()),
            decreases it.ids.len() - it.pos,
        {
            let l = Lcore { id: it.ids[it.pos] };
            it.pos += 1;
            f(l);
        }
        assert forall|l: Lcore| #[trigger] table.listed(true).contains(l.id_spec()) implies call_ensures(
            f,
            (l,),
            (),
        ) by {
            let k = choose|k: int| 0 <= k < ids.len() && ids[k] == l.id_spec();
            assert(call_ensures(f, (Lcore { id: ids[k] },), ()));
            assert(Lcore { id: ids[k] } == l);
        }
    }
}

/// The IDs of the given lcores, in order.
pub open spec fn ids_of(s: Seq<Lcore>) -> Seq<u32> {
    s.map_values(|l: Lcore| l.id_spec())
}

/// Iterator over lcores (the IDs of a snapshot, in order).
pub struct LcoreIter {
    ids: Vec<u32>,
    pos: usize,
}

impl LcoreIter {
    /// The IDs still to be produced, in order.
    pub closed spec fn remaining(&self) -> Seq<u32> {
        self.ids@.subrange(self.pos as int, self.ids@.len() as int)
    }

    pub closed spec fn wf(&self) -> bool {
        self.pos <= self.ids@.len()
    }

    fn over(table: &LcoreTable, skip_main: bool) -> (r: LcoreIter)
        requires
            table.wf(),
        ensures
            r.wf(),
            r.remaining() == table.listed(skip_main),
            r.pos == 0,
            r.ids@ == table.listed(skip_main),
            r.ids@.len() <= table.size(),
    {
        let n = table.enabled.len();
        let mut ids: Vec<u32> = Vec::new();
        let mut i: usize = 0;
        while i < n
            invariant
                n == table.enabled@.len(),
                table.wf(),
                i <= n,
                ids@ == table.ids_below(i as nat, skip_main),
                ids@.len() <= i,
            decreases n - i,
        {
            let id = i as u32;
            if table.enabled[i] && !(skip_main && id == table.main) {
                ids.push(id);
            }
            i += 1;
        }
        let r = LcoreIter { ids, pos: 0 };
        assert(r.remaining() =~= r.ids@);
        r
    }

    /// The next lcore, if any.
    pub fn next(&mut self) -> (r: Option<Lcore>)
        requires
            old(self).wf(),
        ensures
            final(self).wf(),
            old(self).remaining().len() == 0 ==> r is None && final(self).remaining() == old(
                self,
            ).remaining(),
            old(self).remaining().len() > 0 ==> (r matches Some(l) && l.id_spec() == old(
                self,
            ).remaining()[0]) && final(self).remaining() == old(self).remaining().drop_first(),
    {
        if self.pos < self.ids.len() {
            let id = self.ids[self.pos];
            self.pos += 1;
            assert(self.remaining() =~= old(self).remaining().drop_first());
            Some(Lcore { id })
        } else {
            None
        }
    }

    /// Number of lcores still to be produced.
    pub fn len(&self) -> (r: usize)
        requires
            self.wf(),
        ensures
            r == self.remaining().len(),
    {
        self.ids.len() - self.pos
    }

    /// All the remaining lcores, in order.
    pub fn collect(self) -> (r: Vec<Lcore>)
        requires
            self.wf(),
        ensures
            ids_of(r@) == self.remaining(),
    {
        let mut out: Vec<Lcore> = Vec::new();
        let mut i = self.pos;
        while i < self.ids.len()
            invariant
                self.pos <= i <= self.ids@.len(),
                out@.len() == i - self.pos,
                ids_of(out@) == self.ids@.subrange(self.pos as int, i as int),
            decreases self.ids.len() - i,
        {
            let ghost old_out = out@;
            let l = Lcore { id: self.ids[i] };
            out.push(l);
            assert(out@ == old_out.push(l));
            assert forall|k: int| 0 <= k < out@.len() implies #[trigger] ids_of(out@)[k]
                == self.ids@.subrange(self.pos as int, i + 1)[k] by {
                if k < old_out.len() {
                    assert(ids_of(old_out)[k] == self.ids@.subrange(self.pos as int, i as int)[k]);
                }
            }
            assert(ids_of(out@) =~= self.ids@.subrange(self.pos as int, i + 1));
            i += 1;
        }
        out
    }
}

/// The elements of `s` whose flag in `keep` is set, in order.
pub open spec fn select<T>(s: Seq<T>, keep: Seq<bool>) -> Seq<T>
    decreases s.len(),
{
    if s.len() == 0 || keep.len() == 0 {
        Seq::empty()
    } else {
        let rest = select(s.drop_last(), keep.drop_last());
        if keep.last() {
            rest.push(s.last())
        } else {
            rest
        }
    }
}

/// The lcores of `s` that the table places on NUMA socket `socket_id`.
pub open spec fn on_socket_flags(s: Seq<Lcore>, table: LcoreTable, socket_id: u32) -> Seq<bool> {
    Seq::new(s.len(), |i: int| table.socket_of(s[i].id_spec()) == socket_id)
}

/// Every lcore of `s` has an entry in the table.
pub open spec fn all_in_table(s: Seq<Lcore>, table: LcoreTable) -> bool {
    forall|i: int| 0 <= i < s.len() ==> (#[trigger] s[i]).id_spec() < table.size()
}

/// A launch that an lcore refused: the lcore's ID and the nonzero code
/// `rte_eal_remote_launch` returned.
#[derive(Debug, Clone, Copy, PartialEq, Eq, Structural)]
pub struct LaunchError {
    pub lcore_id: u32,
    pub code: i32,
}

impl LaunchError {
    /// "Failed to launch on lcore <id>: error <code>"
    pub open spec fn message_spec(self) -> Seq<char> {
        "Failed to launch on lcore "@ + decimal(self.lcore_id as nat) + ": error "@ + signed_decimal(
            self.code as int,
        )
    }

    /// The error's message: "Failed to launch on lcore <id>: error <code>".
    pub fn message(&self) -> (r: String)
        ensures
            r@ == self.message_spec(),
    {
        let mut s = String::from_str("Failed to launch on lcore ");
        push_decimal(&mut s, self.lcore_id);
        s.append(": error ");
        push_signed_decimal(&mut s, self.code);
        s
    }
}

/// Builder for launching work on multiple lcores with filtering.
pub struct LaunchBuilder {
    lcores: Vec<Lcore>,
}

impl LaunchBuilder {
    /// The targeted lcores, in order.
    pub closed spec fn targets(&self) -> Seq<Lcore> {
        self.lcores@
    }

    /// Create a builder targeting all workers.
    pub fn workers(table: &LcoreTable) -> (r: Self)
        requires
            table.wf(),
        ensures
            ids_of(r.targets()) == table.listed(true),
    {
        LaunchBuilder { lcores: Lcore::workers(table).collect() }
    }

    /// Create a builder targeting all lcores (including main).
    pub fn all(table: &LcoreTable) -> (r: Self)
        requires
            table.wf(),
        ensures
            ids_of(r.targets()) == table.listed(false),
    {
        LaunchBuilder { lcores: Lcore::all(table).collect() }
    }

    /// Create a builder targeting specific lcores.
    pub fn with_lcores(lcores: Vec<Lcore>) -> (r: Self)
        ensures
            r.targets() == lcores@,
    {
        LaunchBuilder { lcores }
    }

    /// Keep only the lcores the table places on the given NUMA socket.
    pub fn on_socket(self, socket_id: u32, table: &LcoreTable) -> (r: Self)
        requires
            table.wf(),
            all_in_table(self.targets(), *table),
        ensures
            r.targets() == select(self.targets(), on_socket_flags(self.targets(), *table, socket_id)),
    {
        let n = self.lcores.len();
        let ghost flags = on_socket_flags(self.targets(), *table, socket_id);
        let mut kept: Vec<Lcore> = Vec::new();
        let mut i: usize = 0;
        while i < n
            invariant
                n == self.lcores@.len(),
                table.wf(),
                all_in_table(self.lcores@, *table),
                flags == on_socket_flags(self.lcores@, *table, socket_id),
                i <= n,
                kept@ == select(self.lcores@.take(i as int), flags.take(i as int)),
            decreases n - i,
        {
            let l = self.lcores[i];
            assert(self.lcores@.take(i + 1).drop_last() =~= self.lcores@.take(i as int));
            assert(flags.take(i + 1).drop_last() =~= flags.take(i as int));
            if l.socket_id(table) == socket_id {
                kept.push(l);
            }
            i += 1;
        }
        assert(self.lcores@.take(n as int) =~= self.lcores@);
        assert(flags.take(n as int) =~= flags);
        LaunchBuilder { lcores: kept }
    }

    /// Keep the lcores for which the predicate returns `true`, in order.
    pub fn filter<P: Fn(&Lcore) -> bool>(self, predicate: P) -> (r: Self)
        requires
            forall|l: Lcore| call_requires(predicate, (&l,)),
        ensures
            exists|keep: Seq<bool>|
                keep.len() == self.targets().len() && (forall|i: int|
                    0 <= i < keep.len() ==> call_ensures(
                        predicate,
                        (&self.targets()[i],),
                        #[trigger] keep[i],
                    )) && r.targets() == select(self.targets(), keep),
    {
        let n = self.lcores.len();
        let ghost mut keep: Seq<bool> = Seq::empty();
        let mut kept: Vec<Lcore> = Vec::new();
        let mut i: usize = 0;
        while i < n
            invariant
                n == self.lcores@.len(),
                forall|l: Lcore| call_requires(predicate, (&l,)),
                i <= n,
                keep.len() == i,
                forall|j: int|
                    0 <= j < i ==> call_ensures(predicate, (&self.lcores@[j],), #[trigger] keep[j]),
                kept@ == select(self.lcores@.take(i as int), keep),
            decreases n - i,
        {
            let l = self.lcores[i];
            let b = predicate(&l);
            assert(self.lcores@.take(i + 1).drop_last() =~= self.lcores@.take(i as int));
            let ghost old_keep = keep;
            proof {
                keep = keep.push(b);
            }
            assert(keep.drop_last() =~= old_keep);
            if b {
                kept.push(l);
            }
            i += 1;
        }
        assert(self.lcores@.take(n as int) =~= self.lcores@);
        let r = LaunchBuilder { lcores: kept };
        assert(keep.len() == self.targets().len() && (forall|i: int|
            0 <= i < keep.len() ==> call_ensures(predicate, (&self.targets()[i],), #[trigger] keep[i]))
            && r.targets() == select(self.targets(), keep));
        r
    }

    /// Keep only the first N lcores.
    pub fn take(self, n: usize) -> (r: Self)
        ensures
            n < self.targets().len() ==> r.targets() == self.targets().take(n as int),
            n >= self.targets().len() ==> r.targets() == self.targets(),
    {
        let mut lcores = self.lcores;
        lcores.truncate(n);
        LaunchBuilder { lcores }
    }

    /// Get the targeted lcores.
    pub fn lcores(&self) -> (r: &[Lcore])
        ensures
            r@ == self.targets(),
    {
        self.lcores.as_slice()
    }

    /// The handle tracking the targeted lcores once work was launched on
    /// every one of them.
    pub fn launched(self) -> (r: LaunchHandle)
        ensures
            r.tracked_lcores() == self.targets(),
    {
        LaunchHandle { lcores: self.lcores }
    }

    /// Launch on all targeted lcores, in order, with `launch_on` (which
    /// starts the work on one lcore, as `rte_eal_remote_launch` does, and
    /// returns its code). Stops at the first lcore whose launch fails and
    /// reports it; the lcores before it stay launched.
    pub fn launch<F: Fn(Lcore) -> i32>(self, launch_on: F) -> (r: Result<LaunchHandle, LaunchError>)
        requires
            forall|l: Lcore| call_requires(launch_on, (l,)),
        ensures
            match r {
                Ok(h) => h.tracked_lcores() == self.targets() && forall|i: int|
                    0 <= i < self.targets().len() ==> call_ensures(
                        launch_on,
                        (#[trigger] self.targets()[i],),
                        0i32,
                    ),
                Err(e) => exists|k: int|
                    0 <= k < self.targets().len() && e.lcore_id == self.targets()[k].id_spec()
                        && e.code != 0 && call_ensures(launch_on, (self.targets()[k],), e.code)
                        && forall|i: int|
                        0 <= i < k ==> call_ensures(launch_on, (#[trigger] self.targets()[i],), 0i32),
            },
    {
        let mut i: usize = 0;
        while i < self.lcores.len()
            invariant
                forall|l: Lcore| call_requires(launch_on, (l,)),
                i <= self.lcores@.len(),
                forall|j: int| 0 <= j < i ==> call_ensures(launch_on, (#[trigger] self.lcores@[j],), 0i32),
            decreases self.lcores.len() - i,
        {
            let l = self.lcores[i];
            let ret = launch_on(l);
            if ret != 0 {
                let e = LaunchError { lcore_id: l.id, code: ret };
                assert(0 <= i < self.targets().len() && e.lcore_id == self.targets()[i as int].id_spec()
                    && e.code != 0 && call_ensures(launch_on, (self.targets()[i as int],), e.code)
                    && forall|j: int|
                    0 <= j < i ==> call_ensures(launch_on, (#[trigger] self.targets()[j],), 0i32));
                return Err(e);
            }
            i += 1;
        }
        Ok(LaunchHandle { lcores: self.lcores })
    }

    /// Launch on all targeted lcores and wait for all of them; the
    /// (lcore, return value) pairs come in launch order.
    pub fn run<F: Fn(Lcore) -> i32, G: Fn(Lcore) -> i32>(self, launch_on: F, wait_lcore: G) -> (r:
        Result<Vec<(Lcore, i32)>, LaunchError>)
        requires
            forall|l: Lcore| call_requires(launch_on, (l,)),
            forall|l: Lcore| call_requires(wait_lcore, (l,)),
        ensures
            match r {
                Ok(pairs) => pairs@.len() == self.targets().len() && forall|i: int|
                    0 <= i < pairs@.len() ==> (#[trigger] pairs@[i]).0 == self.targets()[i]
                        && call_ensures(launch_on, (pairs@[i].0,), 0i32) && call_ensures(
                        wait_lcore,
                        (pairs@[i].0,),
                        pairs@[i].1,
                    ),
                Err(e) => exists|k: int|
                    0 <= k < self.targets().len() && e.lcore_id == self.targets()[k].id_spec()
                        && e.code != 0 && call_ensures(launch_on, (self.targets()[k],), e.code),
            },
    {
        let targets = Ghost(self.targets());
        match self.launch(launch_on) {
            Err(e) => Err(e),
            Ok(handle) => {
                let pairs = handle.wait(wait_lcore);
                assert forall|i: int| 0 <= i < pairs@.len() implies call_ensures(
                    launch_on,
                    (#[trigger] pairs@[i].0,),
                    0i32,
                ) by {
                    assert(pairs@[i].0 == targets@[i]);
                }
                Ok(pairs)
            },
        }
    }
}

/// Handle to a set of launched lcores.
pub struct LaunchHandle {
    lcores: Vec<Lcore>,
}

impl LaunchHandle {
    /// The lcores being tracked, in launch order.
    pub closed spec fn tracked_lcores(&self) -> Seq<Lcore> {
        self.lcores@
    }

    /// Wait for every launched lcore, in launch order, with `wait_lcore`
    /// (a call of `rte_eal_wait_lcore`), pairing each lcore with the value
    /// its function returned.
    pub fn wait<F: Fn(Lcore) -> i32>(self, wait_lcore: F) -> (r: Vec<(Lcore, i32)>)
        requires
            forall|l: Lcore| call_requires(wait_lcore, (l,)),
        ensures
            r@.len() == self.tracked_lcores().len(),
            forall|i: int|
                0 <= i < r@.len() ==> (#[trigger] r@[i]).0 == self.tracked_lcores()[i] && call_ensures(
                    wait_lcore,
                    (r@[i].0,),
                    r@[i].1,
                ),
    {
        let mut out: Vec<(Lcore, i32)> = Vec::new();
        let mut i: usize = 0;
        while i < self.lcores.len()
            invariant
                forall|l: Lcore| call_requires(wait_lcore, (l,)),
                i <= self.lcores@.len(),
                out@.len() == i,
                forall|j: int|
                    0 <= j < i ==> (#[trigger] out@[j]).0 == self.lcores@[j] && call_ensures(
                        wait_lcore,
                        (out@[j].0,),
                        out@[j].1,
                    ),
            decreases self.lcores.len() - i,
        {
            let l = self.lcores[i];
            let result = wait_lcore(l);
            out.push((l, result));
            i += 1;
        }
        out
    }

    /// Check if all lcores have finished (none is running).
    pub fn is_done(&self, table: &LcoreTable) -> (r: bool)
        requires
            table.wf(),
            all_in_table(self.tracked_lcores(), *table),
        ensures
            r == forall|i: int|
                0 <= i < self.tracked_lcores().len() ==> table.state_of(
                    (#[trigger] self.tracked_lcores()[i]).id_spec(),
                ) != State::Running,
    {
        let mut i: usize = 0;
        while i < self.lcores.len()
            invariant
                table.wf(),
                all_in_table(self.lcores@, *table),
                i <= self.lcores@.len(),
                forall|j: int|
                    0 <= j < i ==> table.state_of((#[trigger] self.lcores@[j]).id_spec()) != State::Running,
            decreases self.lcores.len() - i,
        {
            if self.lcores[i].state(table) == State::Running {
                return false;
            }
            i += 1;
        }
        true
    }

    /// Get the lcores being tracked.
    pub fn lcores(&self) -> (r: &[Lcore])
        ensures
            r@ == self.tracked_lcores(),
    {
        self.lcores.as_slice()
    }
}

} // verus!
