//! The dirty-set tracker for continuously-automatable parameters.
//!
//! One flag per tracked parameter records "changed since last drain" without
//! storing intermediate values: rapid writes between drains coalesce into a
//! single set flag and the latest value. Draining tests and clears the flag
//! and hands back the current value, so each change interval produces at most
//! one outgoing message per parameter.

use vstd::prelude::*;
use vstd::string::StringExecFns;

verus! {

/// Spec-level picture of one tracked parameter.
#[verifier::ext_equal]
pub ghost struct ParamModel {
    pub name: Seq<char>,
    pub value_bits: u32,
    pub dirty: bool,
}

/// The dirty-set tracker: parallel columns holding each tracked parameter's
/// stable name, current value (as a float bit pattern) and dirty flag.
pub struct DirtySet {
    pub names: Vec<String>,
    pub values: Vec<u32>,
    pub dirty: Vec<bool>,
}

impl View for DirtySet {
    type V = Seq<ParamModel>;

    open spec fn view(&self) -> Seq<ParamModel> {
        Seq::new(
            self.names@.len(),
            |i: int|
                ParamModel {
                    name: self.names@[i]@,
                    value_bits: self.values@[i],
                    dirty: self.dirty@[i],
                },
        )
    }
}

/// The state after one parameter is marked changed.
pub open spec fn spec_marked(s: Seq<ParamModel>, i: int) -> Seq<ParamModel> {
    s.update(i, ParamModel { dirty: true, ..s[i] })
}

/// The state after one parameter's value is written: the new bits are stored
/// and the flag is set, exactly as the value-change notification does.
pub open spec fn spec_written(s: Seq<ParamModel>, i: int, value_bits: u32) -> Seq<ParamModel> {
    s.update(i, ParamModel { name: s[i].name, value_bits: value_bits, dirty: true })
}

/// The state after one parameter is drained: its flag is clear.
pub open spec fn spec_drained(s: Seq<ParamModel>, i: int) -> Seq<ParamModel> {
    s.update(i, ParamModel { dirty: false, ..s[i] })
}

/// The state after every parameter is drained: all flags clear.
pub open spec fn spec_all_clean(s: Seq<ParamModel>) -> Seq<ParamModel> {
    Seq::new(s.len(), |i: int| ParamModel { dirty: false, ..s[i] })
}

/// No two tracked parameters share a name.
pub open spec fn spec_unique_names(s: Seq<ParamModel>) -> bool {
    forall|i: int, j: int| 0 <= i < j < s.len() ==> s[i].name != s[j].name
}

/// The state after a whole sequence of writes, applied in order.
pub open spec fn spec_apply_writes(s: Seq<ParamModel>, ws: Seq<(int, u32)>) -> Seq<ParamModel>
    decreases ws.len(),
{
    if ws.len() == 0 {
        s
    } else {
        spec_written(spec_apply_writes(s, ws.drop_last()), ws.last().0, ws.last().1)
    }
}

/// The value of the last write aimed at one parameter, if any.
pub open spec fn spec_last_write_to(ws: Seq<(int, u32)>, p: int) -> Option<u32>
    decreases ws.len(),
{
    if ws.len() == 0 {
        None::<u32>
    } else if ws.last().0 == p {
        Some(ws.last().1)
    } else {
        spec_last_write_to(ws.drop_last(), p)
    }
}

/// What a sequence of writes leaves at one parameter: the name survives, the
/// flag is set exactly when the parameter was already dirty or was written,
/// and the value is that of the latest write aimed at it — every intermediate
/// value is lost by design.
pub proof fn lemma_apply_writes_at(s: Seq<ParamModel>, ws: Seq<(int, u32)>, p: int)
    requires
        0 <= p < s.len(),
        forall|k: int| 0 <= k < ws.len() ==> 0 <= (#[trigger] ws[k]).0 < s.len(),
    ensures
        spec_apply_writes(s, ws).len() == s.len(),
        spec_apply_writes(s, ws)[p].name == s[p].name,
        spec_apply_writes(s, ws)[p].dirty == (s[p].dirty || spec_last_write_to(ws, p) is Some),
        spec_apply_writes(s, ws)[p].value_bits == (match spec_last_write_to(ws, p) {
            Some(v) => v,
            None => s[p].value_bits,
        }),
    decreases ws.len(),
{
    if ws.len() > 0 {
        assert(ws.last() == ws[ws.len() - 1]);
        assert(forall|k: int|
            0 <= k < ws.drop_last().len() ==> (#[trigger] ws.drop_last()[k]) == ws[k]);
        lemma_apply_writes_at(s, ws.drop_last(), p);
        let prev = spec_apply_writes(s, ws.drop_last());
        let q = ws.last().0;
        if q == p {
            lemma_apply_writes_at(s, ws.drop_last(), q);
        }
    }
}

impl DirtySet {
    /// All columns are the same height.
    pub open spec fn wf(&self) -> bool {
        self.values@.len() == self.names@.len() && self.dirty@.len() == self.names@.len()
    }

    /// A tracker for the given parameter names, every value zero and every
    /// flag clear.
    pub fn new(names: Vec<String>) -> (s: DirtySet)
        ensures
            s.wf(),
            s@.len() == names@.len(),
            forall|i: int|
                0 <= i < names@.len() ==> s@[i] == (ParamModel {
                    name: names@[i]@,
                    value_bits: 0u32,
                    dirty: false,
                }),
    {
        let n = names.len();
        let mut values: Vec<u32> = Vec::new();
        let mut dirty: Vec<bool> = Vec::new();
        let mut i: usize = 0;
        while i < n
            invariant
                i <= n,
                values@.len() == i,
                dirty@.len() == i,
                forall|j: int| 0 <= j < i ==> values@[j] == 0u32,
                forall|j: int| 0 <= j < i ==> dirty@[j] == false,
            decreases n - i,
        {
            values.push(0u32);
            dirty.push(false);
            i = i + 1;
        }
        DirtySet { names, values, dirty }
    }

    /// The tracker for the eight exposed parameters, named as the host sees
    /// them, every value zero and every flag clear.
    pub fn with_default_params() -> (s: DirtySet)
        ensures
            s.wf(),
            s@.len() == 8,
            forall|i: int| 0 <= i < 8 ==> !(#[trigger] s@[i]).dirty && s@[i].value_bits == 0u32,
            s@[0].name == "param1"@,
            s@[1].name == "param2"@,
            s@[2].name == "param3"@,
            s@[3].name == "param4"@,
            s@[4].name == "param5"@,
            s@[5].name == "param6"@,
            s@[6].name == "param7"@,
            s@[7].name == "param8"@,
            spec_unique_names(s@),
    {
        let mut names: Vec<String> = Vec::new();
        names.push(String::from_str("param1"));
        names.push(String::from_str("param2"));
        names.push(String::from_str("param3"));
        names.push(String::from_str("param4"));
        names.push(String::from_str("param5"));
        names.push(String::from_str("param6"));
        names.push(String::from_str("param7"));
        names.push(String::from_str("param8"));
        let s = DirtySet::new(names);
        proof {
            reveal_strlit("param1");
            reveal_strlit("param2");
            reveal_strlit("param3");
            reveal_strlit("param4");
            reveal_strlit("param5");
            reveal_strlit("param6");
            reveal_strlit("param7");
            reveal_strlit("param8");
            assert(s@[0].name[5] == '1');
            assert(s@[1].name[5] == '2');
            assert(s@[2].name[5] == '3');
            assert(s@[3].name[5] == '4');
            assert(s@[4].name[5] == '5');
            assert(s@[5].name[5] == '6');
            assert(s@[6].name[5] == '7');
            assert(s@[7].name[5] == '8');
            assert forall|i: int, j: int| 0 <= i < j < 8 implies s@[i].name != s@[j].name by {
                let a = s@[i].name[5];
                let b = s@[j].name[5];
                assert(a != b) by {
                    if i == 0 {
                        assert(a == '1');
                    } else if i == 1 {
                        assert(a == '2');
                    } else if i == 2 {
                        assert(a == '3');
                    } else if i == 3 {
                        assert(a == '4');
                    } else if i == 4 {
                        assert(a == '5');
                    } else if i == 5 {
                        assert(a == '6');
                    } else if i == 6 {
                        assert(a == '7');
                    } else {
                        assert(a == '8');
                    }
                    if j == 1 {
                        assert(b == '2');
                    } else if j == 2 {
                        assert(b == '3');
                    } else if j == 3 {
                        assert(b == '4');
                    } else if j == 4 {
                        assert(b == '5');
                    } else if j == 5 {
                        assert(b == '6');
                    } else if j == 6 {
                        assert(b == '7');
                    } else {
                        assert(b == '8');
                    }
                }
            }
            assert(spec_unique_names(s@));
        }
        s
    }

    /// How many parameters are tracked.
    pub fn len(&self) -> (r: usize)
        ensures
            r == self@.len(),
    {
        self.names.len()
    }

    /// Marks one parameter changed; called synchronously whenever its value
    /// is written. Marking an already-dirty parameter is idempotent: the flag
    /// just stays set, and no change count is retained.
    pub fn mark(&mut self, i: usize)
        requires
            old(self).wf(),
            i < old(self)@.len(),
        ensures
            final(self).wf(),
            final(self)@ == spec_marked(old(self)@, i as int),
    {
        self.dirty.set(i, true);
        proof {
            assert(self@ =~= spec_marked(old(self)@, i as int));
        }
    }

    /// Writes one parameter's value and marks it changed, as the value-change
    /// notification does. Writes between two drains coalesce: only the flag
    /// and the latest value survive.
    pub fn set_value(&mut self, i: usize, value_bits: u32)
        requires
            old(self).wf(),
            i < old(self)@.len(),
        ensures
            final(self).wf(),
            final(self)@ == spec_written(old(self)@, i as int, value_bits),
    {
        self.values.set(i, value_bits);
        self.dirty.set(i, true);
        proof {
            assert(self@ =~= spec_written(old(self)@, i as int, value_bits));
        }
    }

    /// Tests and clears one parameter's flag; if it was set, hands back the
    /// current value. Never blocks and never allocates.
    pub fn drain(&mut self, i: usize) -> (r: Option<u32>)
        requires
            old(self).wf(),
            i < old(self)@.len(),
        ensures
            final(self).wf(),
            final(self)@ == spec_drained(old(self)@, i as int),
            r == (if old(self)@[i as int].dirty {
                Some(old(self)@[i as int].value_bits)
            } else {
                None::<u32>
            }),
    {
        let was_dirty = self.dirty[i];
        let r = if was_dirty {
            self.dirty.set(i, false);
            Some(self.values[i])
        } else {
            None
        };
        proof {
            assert(self@ =~= spec_drained(old(self)@, i as int));
        }
        r
    }
}

} // verus!
