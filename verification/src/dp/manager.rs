//! The data-point manager: current values of all data points, validated
//! writes, and notification of listeners.

use std::collections::{HashMap, HashSet};
use vstd::prelude::*;
use super::types::{
    DpDefinition, DpError, DpValue, DpValueView, default_value, default_value_of, definition_wf,
    lemma_default_value_fits, validate_value, validation_error, value_fits,
};

verus! {

broadcast use vstd::std_specs::hash::group_hash_axioms;

/// Told of every accepted write: the data point, its value before (none on
/// the first write to it) and its new value.
pub trait DpChangeListener: Send + Sync {
    fn on_dp_change(&self, dp_id: u8, old_value: Option<&DpValue>, new_value: &DpValue);
}

/// The first definition in `defs` with identifier `id`.
pub open spec fn find_definition(defs: Seq<DpDefinition>, id: u8) -> Option<DpDefinition>
    decreases defs.len(),
{
    if defs.len() == 0 {
        None
    } else if defs[0].id == id {
        Some(defs[0])
    } else {
        find_definition(defs.drop_first(), id)
    }
}

/// The state right after start-up: each defined data point holds the default
/// of its type; where two definitions share an identifier, the later one wins.
pub open spec fn initial_state(defs: Seq<DpDefinition>) -> Map<u8, DpValueView>
    decreases defs.len(),
{
    if defs.len() == 0 {
        Map::empty()
    } else {
        initial_state(defs.drop_last()).insert(defs.last().id, default_value(defs.last().dp_type))
    }
}

/// What writing `value` to data point `id` does to `state`: the new state, or
/// why the write is refused.
pub open spec fn set_outcome(
    defs: Seq<DpDefinition>,
    state: Map<u8, DpValueView>,
    id: u8,
    value: DpValueView,
) -> Result<Map<u8, DpValueView>, DpError> {
    match find_definition(defs, id) {
        None => Err(DpError::NotFound { id }),
        Some(def) => if !def.writable {
            Err(DpError::NotWritable { id })
        } else {
            match validation_error(def, value) {
                Some(e) => Err(e),
                None => Ok(state.insert(id, value)),
            }
        },
    }
}

/// A notice to a listener: the listener's place in registration order, the
/// data point, the value it held before (if listeners are told one) and its
/// new value.
pub type DpNotice = (nat, u8, Option<DpValueView>, DpValueView);

/// The notices of one accepted write to data point `id`: one to each of the
/// `count` listeners, in registration order.
pub open spec fn notices_of_write(
    count: nat,
    id: u8,
    before: Option<DpValueView>,
    after: DpValueView,
) -> Seq<DpNotice> {
    Seq::new(count, |i: int| (i as nat, id, before, after))
}

/// The state of all data points of a device.
pub struct DpManager<'a> {
    definitions: &'a [DpDefinition],
    state: HashMap<u8, DpValue>,
    written: HashSet<u8>,
    callbacks: Vec<Box<dyn DpChangeListener>>,
    /// Every call made to a listener, in order.
    notified: Ghost<Seq<DpNotice>>,
}

impl<'a> View for DpManager<'a> {
    type V = Map<u8, DpValueView>;

    /// The current value of each data point.
    closed spec fn view(&self) -> Map<u8, DpValueView> {
        self.state@.map_values(|v: DpValue| v@)
    }
}

impl<'a> DpManager<'a> {
    /// Exactly the defined data points hold a value. A manager is made so by
    /// [`DpManager::new`], and stays so through every method.
    pub closed spec fn wf(&self) -> bool {
        self.state@.dom() == defined_ids(self.definitions@)
    }

    /// The definitions the manager was made with.
    pub closed spec fn defs(&self) -> Seq<DpDefinition> {
        self.definitions@
    }

    /// The data points written at least once since start-up.
    pub closed spec fn written_ids(&self) -> Set<u8> {
        self.written@
    }

    /// How many listeners are registered.
    pub closed spec fn listener_count(&self) -> nat {
        self.callbacks@.len()
    }

    /// Every call made to a listener since start-up, in the order made.
    pub closed spec fn notifications(&self) -> Seq<DpNotice> {
        self.notified@
    }

    /// What listeners are told data point `id` held before a write: its
    /// value once it has been written, nothing before that.
    pub open spec fn value_told_before(&self, id: u8) -> Option<DpValueView> {
        if self.written_ids().contains(id) && self@.contains_key(id) {
            Some(self@[id])
        } else {
            None
        }
    }

    /// A manager whose data points hold the defaults of their types.
    pub fn new(definitions: &'a [DpDefinition]) -> (res: Self)
        ensures
            res.defs() == definitions@,
            res@ == initial_state(definitions@),
            res.wf(),
            res.written_ids() == Set::<u8>::empty(),
            res.listener_count() == 0,
            res.notifications() == Seq::<DpNotice>::empty(),
    {
        let mut state: HashMap<u8, DpValue> = HashMap::new();
        let n = definitions.len();
        let mut i: usize = 0;
        while i < n
            invariant
                n == definitions@.len(),
                0 <= i <= n,
                state@.map_values(|v: DpValue| v@) == initial_state(definitions@.take(i as int)),
            decreases n - i,
        {
            let dp = &definitions[i];
            let default_val = default_value_of(&dp.dp_type);
            let ghost before = state@;
            state.insert(dp.id, default_val);
            proof {
                let taken = definitions@.take(i + 1);
                assert(taken.drop_last() =~= definitions@.take(i as int));
                assert(state@.map_values(|v: DpValue| v@) =~= before.map_values(|v: DpValue| v@).insert(
                    dp.id,
                    default_val@,
                ));
            }
            i = i + 1;
        }
        assert(definitions@.take(n as int) =~= definitions@);
        proof {
            lemma_initial_state_domain(definitions@);
            assert(state@.dom() =~= state@.map_values(|v: DpValue| v@).dom());
        }
        DpManager {
            definitions,
            state,
            written: HashSet::new(),
            callbacks: Vec::new(),
            notified: Ghost(Seq::empty()),
        }
    }

    /// Registers a listener, told of every accepted write from now on; it
    /// comes last in the order listeners are told, and is not called here.
    pub fn on_change(&mut self, cb: Box<dyn DpChangeListener>)
        ensures
            final(self)@ == old(self)@,
            final(self).notifications() == old(self).notifications(),
            final(self).defs() == old(self).defs(),
            final(self).written_ids() == old(self).written_ids(),
            old(self).wf() ==> final(self).wf(),
            final(self).listener_count() == old(self).listener_count() + 1,
    {
        let ghost before = self.callbacks@;
        self.callbacks.push(cb);
        proof {
            // The length rule of `push` must be named here: it is not applied
            // by itself to sequences of trait objects.
            vstd::seq::axiom_seq_push_len(before, cb);
        }
    }

    /// The first definition with identifier `dp_id`.
    fn find_definition(&self, dp_id: u8) -> (res: Option<&'a DpDefinition>)
        ensures
            match res {
                Some(d) => find_definition(self.defs(), dp_id) == Some(*d),
                None => find_definition(self.defs(), dp_id) is None,
            },
    {
        let defs = self.definitions;
        let n = defs.len();
        let mut i: usize = 0;
        assert(defs@.skip(0) =~= defs@);
        while i < n
            invariant
                n == defs@.len(),
                defs@ == self.defs(),
                0 <= i <= n,
                find_definition(defs@, dp_id) == find_definition(defs@.skip(i as int), dp_id),
            decreases n - i,
        {
            assert(defs@.skip(i as int)[0] == defs@[i as int]);
            if defs[i].id == dp_id {
                return Some(&defs[i]);
            }
            assert(defs@.skip(i as int).drop_first() =~= defs@.skip(i + 1));
            i = i + 1;
        }
        None
    }

    /// Writes `value` to data point `dp_id` after checking that the data
    /// point exists, is writable, and that the value fits its type and
    /// bounds; then tells every listener, in the order they registered, the
    /// value it held before (none on the first write to it) and the new one.
    /// A refused write changes nothing.
    pub fn set(&mut self, dp_id: u8, value: DpValue) -> (res: Result<(), DpError>)
        ensures
            final(self).defs() == old(self).defs(),
            old(self).wf() ==> final(self).wf(),
            final(self).listener_count() == old(self).listener_count(),
            match set_outcome(old(self).defs(), old(self)@, dp_id, value@) {
                Ok(new_state) => {
                    &&& res is Ok
                    &&& final(self)@ == new_state
                    &&& final(self).written_ids() == old(self).written_ids().insert(dp_id)
                    &&& final(self).notifications() == old(self).notifications() + notices_of_write(
                        old(self).listener_count(),
                        dp_id,
                        old(self).value_told_before(dp_id),
                        value@,
                    )
                },
                Err(e) => {
                    &&& res == Err::<(), DpError>(e)
                    &&& final(self)@ == old(self)@
                    &&& final(self).written_ids() == old(self).written_ids()
                    &&& final(self).notifications() == old(self).notifications()
                },
            },
    {
        let def = match self.find_definition(dp_id) {
            Some(d) => d,
            None => return Err(DpError::NotFound { id: dp_id }),
        };
        proof {
            lemma_find_definition_some(self.defs(), dp_id);
            assert(defined_ids(self.defs()).contains(dp_id));
        }
        if !def.writable {
            return Err(DpError::NotWritable { id: dp_id });
        }
        match validate_value(def, &value) {
            Ok(()) => {},
            Err(e) => return Err(e),
        }
        let previous = self.value_before_write(dp_id);
        let ghost told_before: Option<DpValueView> = match &previous {
            Some(v) => Some(v@),
            None => None,
        };
        let ghost log = self.notified@;
        let ghost before = self.state@;
        self.state.insert(dp_id, value.clone());
        assert(self.state@.dom() =~= before.dom().insert(dp_id));
        assert(defined_ids(self.defs()).insert(dp_id) =~= defined_ids(self.defs()));
        self.written.insert(dp_id);
        assert(self.state@.map_values(|v: DpValue| v@) =~= before.map_values(|v: DpValue| v@).insert(
            dp_id,
            value@,
        ));
        let ghost after_write = *self;
        let n = self.callbacks.len();
        let mut i: usize = 0;
        assert(notices_of_write(0, dp_id, told_before, value@) =~= Seq::<DpNotice>::empty());
        while i < n
            invariant
                n == self.callbacks@.len(),
                0 <= i <= n,
                self.definitions == after_write.definitions,
                self.state == after_write.state,
                self.written == after_write.written,
                self.callbacks == after_write.callbacks,
                self.notified@ == log + notices_of_write(i as nat, dp_id, told_before, value@),
                told_before == match &previous {
                    Some(v) => Some(v@),
                    None => None::<DpValueView>,
                },
            decreases n - i,
        {
            let told = previous.as_ref();
            self.callbacks[i].on_dp_change(dp_id, told, &value);
            proof {
                // The notice records the very arguments handed to the listener.
                let told_view: Option<DpValueView> = match told {
                    Some(v) => Some(v@),
                    None => None,
                };
                assert(told_view == told_before);
                assert(notices_of_write((i + 1) as nat, dp_id, told_before, value@) =~= notices_of_write(
                    i as nat,
                    dp_id,
                    told_before,
                    value@,
                ).push((i as nat, dp_id, told_before, value@)));
                self.notified@ = self.notified@.push((i as nat, dp_id, told_view, value@));
            }
            i = i + 1;
        }
        Ok(())
    }

    /// What listeners are told data point `dp_id` held before a write.
    fn value_before_write(&self, dp_id: u8) -> (res: Option<DpValue>)
        ensures
            match res {
                Some(v) => self.value_told_before(dp_id) == Some(v@),
                None => self.value_told_before(dp_id) is None,
            },
    {
        if self.written.contains(&dp_id) {
            self.get(dp_id)
        } else {
            None
        }
    }

    /// The current value of data point `dp_id`: every defined data point has
    /// one, and no other.
    pub fn get(&self, dp_id: u8) -> (res: Option<DpValue>)
        ensures
            self.wf() ==> (res is Some <==> defined_ids(self.defs()).contains(dp_id)),
            match res {
                Some(v) => self@.contains_key(dp_id) && v@ == self@[dp_id],
                None => !self@.contains_key(dp_id),
            },
    {
        match self.state.get(&dp_id) {
            Some(v) => Some(v.clone()),
            None => None,
        }
    }

    /// All data points with their values, in increasing order of identifier:
    /// one entry for each defined identifier.
    pub fn snapshot(&self) -> (res: Vec<(u8, DpValue)>)
        ensures
            self.wf() ==> res@.len() == defined_ids(self.defs()).len(),
            forall|i: int, j: int| 0 <= i < j < res@.len() ==> res@[i].0 < res@[j].0,
            forall|i: int|
                0 <= i < res@.len() ==> self@.contains_key(#[trigger] res@[i].0) && res@[i].1@
                    == self@[res@[i].0],
            forall|id: u8| self@.contains_key(id) ==> exists|i: int| 0 <= i < res@.len() && #[trigger] res@[i].0 == id,
    {
        let mut res: Vec<(u8, DpValue)> = Vec::new();
        let mut next: u16 = 0;
        while next < 256
            invariant
                0 <= next <= 256,
                forall|i: int| 0 <= i < res@.len() ==> (#[trigger] res@[i]).0 < next,
                forall|i: int, j: int| 0 <= i < j < res@.len() ==> res@[i].0 < res@[j].0,
                forall|i: int|
                    0 <= i < res@.len() ==> self@.contains_key(#[trigger] res@[i].0) && res@[i].1@
                        == self@[res@[i].0],
                forall|id: u8|
                    id < next && self@.contains_key(id) ==> exists|i: int|
                        0 <= i < res@.len() && #[trigger] res@[i].0 == id,
            decreases 256 - next,
        {
            let id = next as u8;
            match self.state.get(&id) {
                Some(v) => {
                    let ghost prev = res@;
                    res.push((id, v.clone()));
                    assert forall|k: u8| k < next + 1 && self@.contains_key(k) implies exists|i: int|
                        0 <= i < res@.len() && #[trigger] res@[i].0 == k by {
                        if k == id {
                            assert(res@[prev.len() as int].0 == k);
                        } else {
                            let w = choose|i: int| 0 <= i < prev.len() && #[trigger] prev[i].0 == k;
                            assert(res@[w].0 == k);
                        }
                    }
                },
                None => {},
            }
            next = next + 1;
        }
        proof {
            if self.wf() {
            let keys = res@.map_values(|p: (u8, DpValue)| p.0);
            assert(keys.no_duplicates()) by {
                assert forall|i: int, j: int|
                    0 <= i < keys.len() && 0 <= j < keys.len() && i != j implies keys[i] != keys[j] by {
                    if i < j {
                        assert(res@[i].0 < res@[j].0);
                    } else {
                        assert(res@[j].0 < res@[i].0);
                    }
                }
            }
            assert(keys.to_set() =~= defined_ids(self.defs())) by {
                assert forall|id: u8| keys.to_set().contains(id) implies defined_ids(self.defs()).contains(id) by {
                    assert(keys.contains(id));
                    let i = choose|i: int| 0 <= i < keys.len() && keys[i] == id;
                    assert(self@.contains_key(res@[i].0));
                    assert(self.state@.dom().contains(id));
                }
                assert forall|id: u8| defined_ids(self.defs()).contains(id) implies keys.to_set().contains(id) by {
                    assert(self.state@.dom().contains(id));
                    assert(self@.contains_key(id));
                    let i = choose|i: int| 0 <= i < res@.len() && #[trigger] res@[i].0 == id;
                    assert(keys[i] == id);
                    assert(keys.contains(id));
                }
            }
            keys.unique_seq_to_set();
            }
        }
        res
    }

    /// The definitions the manager was made with.
    pub fn definitions(&self) -> (res: &'a [DpDefinition])
        ensures
            res@ == self.defs(),
    {
        self.definitions
    }
}

/// Definitions that a device can be made with: no identifier twice, and
/// every type admits a value.
pub open spec fn definitions_wf(defs: Seq<DpDefinition>) -> bool {
    &&& forall|i: int| 0 <= i < defs.len() ==> #[trigger] defs[i].id >= 1
    &&& forall|i: int, j: int| 0 <= i < j < defs.len() ==> defs[i].id != defs[j].id
    &&& forall|i: int| 0 <= i < defs.len() ==> definition_wf(#[trigger] defs[i])
}

/// The identifiers that `defs` defines.
pub open spec fn defined_ids(defs: Seq<DpDefinition>) -> Set<u8> {
    Set::new(|id: u8| exists|i: int| 0 <= i < defs.len() && defs[i].id == id)
}

/// Every data point in `state` is defined and holds a value that fits its
/// definition.
pub open spec fn state_fits(defs: Seq<DpDefinition>, state: Map<u8, DpValueView>) -> bool {
    forall|id: u8|
        #[trigger] state.contains_key(id) ==> (find_definition(defs, id) matches Some(d) && value_fits(
            d,
            state[id],
        ))
}

proof fn lemma_find_definition_first(defs: Seq<DpDefinition>, id: u8, i: int)
    requires
        0 <= i < defs.len(),
        defs[i].id == id,
        forall|j: int| 0 <= j < i ==> defs[j].id != id,
    ensures
        find_definition(defs, id) == Some(defs[i]),
    decreases i,
{
    if i > 0 {
        lemma_find_definition_first(defs.drop_first(), id, i - 1);
    }
}

proof fn lemma_find_definition_some(defs: Seq<DpDefinition>, id: u8)
    requires
        find_definition(defs, id) is Some,
    ensures
        exists|i: int| 0 <= i < defs.len() && defs[i].id == id && find_definition(defs, id) == Some(defs[i]),
    decreases defs.len(),
{
    if defs[0].id != id {
        lemma_find_definition_some(defs.drop_first(), id);
        let i = choose|i: int|
            0 <= i < defs.drop_first().len() && defs.drop_first()[i].id == id && find_definition(
                defs.drop_first(),
                id,
            ) == Some(defs.drop_first()[i]);
        assert(defs[i + 1] == defs.drop_first()[i]);
    }
}

/// Right after start-up exactly the defined data points hold a value.
pub proof fn lemma_initial_state_domain(defs: Seq<DpDefinition>)
    ensures
        initial_state(defs).dom() == defined_ids(defs),
    decreases defs.len(),
{
    if defs.len() > 0 {
        let prefix = defs.drop_last();
        let last = defs.last();
        let n = defs.len() - 1;
        lemma_initial_state_domain(prefix);
        let m = initial_state(defs);
        assert forall|id: u8| defined_ids(defs).contains(id) implies m.dom().contains(id) by {
            let i = choose|i: int| 0 <= i < defs.len() && defs[i].id == id;
            if i < n {
                assert(prefix[i].id == id);
                assert(defined_ids(prefix).contains(id));
            }
        }
        assert forall|id: u8| m.dom().contains(id) implies defined_ids(defs).contains(id) by {
            if id != last.id {
                assert(defined_ids(prefix).contains(id));
                let i = choose|i: int| 0 <= i < prefix.len() && prefix[i].id == id;
                assert(defs[i].id == id);
            } else {
                assert(defs[n].id == id);
            }
        }
        assert(m.dom() =~= defined_ids(defs));
    }
}

/// Where no identifier is defined twice, each data point starts at the
/// default value of its type.
pub proof fn lemma_initial_state_defaults(defs: Seq<DpDefinition>)
    requires
        forall|i: int, j: int| 0 <= i < j < defs.len() ==> defs[i].id != defs[j].id,
    ensures
        forall|i: int|
            0 <= i < defs.len() ==> initial_state(defs)[#[trigger] defs[i].id] == default_value(
                defs[i].dp_type,
            ),
    decreases defs.len(),
{
    if defs.len() > 0 {
        let prefix = defs.drop_last();
        let last = defs.last();
        let n = defs.len() - 1;
        assert forall|i: int, j: int| 0 <= i < j < prefix.len() implies prefix[i].id != prefix[j].id by {
            assert(prefix[i] == defs[i] && prefix[j] == defs[j]);
        }
        lemma_initial_state_defaults(prefix);
        let m = initial_state(defs);
        assert forall|i: int| 0 <= i < defs.len() implies m[#[trigger] defs[i].id] == default_value(
            defs[i].dp_type,
        ) by {
            if i < n {
                assert(prefix[i] == defs[i]);
                assert(defs[i].id != last.id);
            }
        }
    }
}

/// For well-formed definitions, every data point starts at a value that
/// fits its definition.
pub proof fn lemma_initial_state_fits(defs: Seq<DpDefinition>)
    requires
        definitions_wf(defs),
    ensures
        state_fits(defs, initial_state(defs)),
    decreases defs.len(),
{
    if defs.len() > 0 {
        let prefix = defs.drop_last();
        let last = defs.last();
        let n = defs.len() - 1;
        assert(definitions_wf(prefix)) by {
            assert forall|i: int| 0 <= i < prefix.len() implies definition_wf(#[trigger] prefix[i]) by {
                assert(prefix[i] == defs[i]);
            }
        }
        lemma_initial_state_fits(prefix);
        let m = initial_state(defs);
        assert forall|id: u8| #[trigger] m.contains_key(id) implies (find_definition(defs, id) matches Some(
            d,
        ) && value_fits(d, m[id])) by {
            if id == last.id {
                lemma_find_definition_first(defs, id, n);
                lemma_default_value_fits(last);
            } else {
                assert(initial_state(prefix).contains_key(id));
                lemma_find_definition_some(prefix, id);
                let i = choose|i: int|
                    0 <= i < prefix.len() && prefix[i].id == id && find_definition(prefix, id) == Some(
                        prefix[i],
                    );
                lemma_find_definition_first(defs, id, i);
            }
        }
    }
}

/// A write that is not refused stores exactly the value written, and
/// changes no other data point.
pub proof fn lemma_read_after_write(
    defs: Seq<DpDefinition>,
    state: Map<u8, DpValueView>,
    id: u8,
    value: DpValueView,
)
    requires
        set_outcome(defs, state, id, value) is Ok,
    ensures
        ({
            let after = set_outcome(defs, state, id, value)->Ok_0;
            &&& after.contains_key(id) && after[id] == value
            &&& forall|other: u8| other != id ==> #[trigger] after.contains_key(other) == state.contains_key(other) && (
                state.contains_key(other) ==> after[other] == state[other])
        }),
{
}

/// A write is accepted exactly when the data point is defined, writable,
/// and the value fits its first definition.
pub proof fn lemma_write_accepted_iff(
    defs: Seq<DpDefinition>,
    state: Map<u8, DpValueView>,
    id: u8,
    value: DpValueView,
)
    ensures
        set_outcome(defs, state, id, value) is Ok <==> (find_definition(defs, id) matches Some(d)
            && d.writable && value_fits(d, value)),
{
}

/// Accepted writes keep every data point fitting its definition, and keep
/// the set of data points the same.
pub proof fn lemma_write_keeps_state_fit(
    defs: Seq<DpDefinition>,
    state: Map<u8, DpValueView>,
    id: u8,
    value: DpValueView,
)
    requires
        state_fits(defs, state),
        state.dom() == defined_ids(defs),
    ensures
        match set_outcome(defs, state, id, value) {
            Ok(after) => state_fits(defs, after) && after.dom() == defined_ids(defs),
            Err(_) => true,
        },
{
    if let Ok(after) = set_outcome(defs, state, id, value) {
        lemma_find_definition_some(defs, id);
        assert(defined_ids(defs).contains(id));
        assert(after.dom() =~= state.dom());
    }
}

} // verus!
