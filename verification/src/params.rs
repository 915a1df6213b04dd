//! The parameter map: resolved parameter values by name.

use crate::assoc::{
    key_absent, keys_distinct, lemma_absent_is_unmapped, lemma_map_size, lemma_pair_is_mapped,
    lemma_push_inserts, lemma_update_inserts, pairs_map,
};
use vstd::prelude::*;

verus! {

/// A resolved parameter value.
#[derive(Debug, PartialEq, Eq)]
pub enum ParamValue {
    Text(String),
    Number(i64),
    Flag(bool),
}

/// The mathematical value of a [`ParamValue`].
pub ghost enum ParamValueView {
    Text(Seq<char>),
    Number(i64),
    Flag(bool),
}

impl View for ParamValue {
    type V = ParamValueView;

    open spec fn view(&self) -> ParamValueView {
        match self {
            ParamValue::Text(text) => ParamValueView::Text(text@),
            ParamValue::Number(number) => ParamValueView::Number(*number),
            ParamValue::Flag(flag) => ParamValueView::Flag(*flag),
        }
    }
}

impl Clone for ParamValue {
    fn clone(&self) -> (out: Self)
        ensures
            out@ == self@,
    {
        match self {
            ParamValue::Text(text) => ParamValue::Text(text.clone()),
            ParamValue::Number(number) => ParamValue::Number(*number),
            ParamValue::Flag(flag) => ParamValue::Flag(*flag),
        }
    }
}

#[derive(Debug, PartialEq, Eq)]
struct Param {
    name: String,
    value: ParamValue,
}

/// A mapping from parameter name to value, in which no name occurs twice.
#[derive(Debug, PartialEq, Eq)]
pub struct ParamMap {
    entries: Vec<Param>,
}

/// The entries as pairs of name and value.
spec fn param_pairs(entries: Seq<Param>) -> Seq<(Seq<char>, ParamValueView)> {
    entries.map_values(|param: Param| (param.name@, param.value@))
}

impl View for ParamMap {
    type V = Map<Seq<char>, ParamValueView>;

    closed spec fn view(&self) -> Map<Seq<char>, ParamValueView> {
        pairs_map(param_pairs(self.entries@))
    }
}

impl ParamMap {
    #[verifier::type_invariant]
    spec fn well_formed(&self) -> bool {
        keys_distinct(param_pairs(self.entries@))
    }

    /// The map without any parameter.
    pub fn new() -> (out: Self)
        ensures
            out@ == Map::<Seq<char>, ParamValueView>::empty(),
    {
        let out = ParamMap { entries: Vec::new() };
        assert(out@ =~= Map::<Seq<char>, ParamValueView>::empty()) by {
            assert forall|name: Seq<char>| !out@.dom().contains(name) by {
                lemma_absent_is_unmapped(param_pairs(out.entries@), name);
            }
        }
        out
    }

    /// How many parameters the map holds.
    pub fn len(&self) -> (out: usize)
        ensures
            self@.dom().finite(),
            out == self@.dom().len(),
    {
        proof {
            use_type_invariant(self);
            lemma_map_size(param_pairs(self.entries@));
        }
        self.entries.len()
    }

    /// The place of `name` among the entries, if it has one.
    fn position(&self, name: &String) -> (out: Option<usize>)
        ensures
            match out {
                Some(i) => i < self.entries.len() && self.entries[i as int].name@ == name@,
                None => key_absent(param_pairs(self.entries@), name@),
            },
    {
        let mut i: usize = 0;
        while i < self.entries.len()
            invariant
                i <= self.entries.len(),
                forall|j: int| 0 <= j < i ==> self.entries[j].name@ != name@,
            decreases self.entries.len() - i,
        {
            if self.entries[i].name == *name {
                return Some(i);
            }
            i = i + 1;
        }
        None
    }

    /// The value of the parameter `name`, if the map holds one.
    pub fn get(&self, name: &String) -> (out: Option<&ParamValue>)
        ensures
            match out {
                Some(value) => self@.dom().contains(name@) && self@[name@] == value@,
                None => !self@.dom().contains(name@),
            },
    {
        proof {
            use_type_invariant(self);
        }
        match self.position(name) {
            Some(i) => {
                proof {
                    lemma_pair_is_mapped(param_pairs(self.entries@), i as int);
                }
                Some(&self.entries[i].value)
            },
            None => {
                proof {
                    lemma_absent_is_unmapped(param_pairs(self.entries@), name@);
                }
                None
            },
        }
    }

    /// Sets the parameter `name` to `value`, in place of any value it had.
    pub fn insert(&mut self, name: String, value: ParamValue)
        ensures
            final(self)@ == old(self)@.insert(name@, value@),
    {
        proof {
            use_type_invariant(&*self);
        }
        let place = self.position(&name);
        let param = Param { name, value };
        let mut entries: Vec<Param> = Vec::new();
        std::mem::swap(&mut self.entries, &mut entries);
        let ghost before = param_pairs(entries@);
        let ghost pair = (param.name@, param.value@);
        match place {
            Some(i) => {
                proof {
                    lemma_update_inserts(before, i as int, pair);
                }
                entries.set(i, param);
                assert(param_pairs(entries@) =~= before.update(i as int, pair));
            },
            None => {
                proof {
                    lemma_push_inserts(before, pair);
                }
                entries.push(param);
                assert(param_pairs(entries@) =~= before.push(pair));
            },
        }
        self.entries = entries;
    }
}

impl Clone for ParamMap {
    fn clone(&self) -> (out: Self)
        ensures
            out@ == self@,
    {
        proof {
            use_type_invariant(self);
        }
        let mut entries: Vec<Param> = Vec::new();
        let mut i: usize = 0;
        while i < self.entries.len()
            invariant
                i <= self.entries.len(),
                entries.len() == i,
                forall|j: int|
                    0 <= j < i ==> entries[j].name@ == self.entries[j].name@ && entries[j].value@
                        == self.entries[j].value@,
            decreases self.entries.len() - i,
        {
            entries.push(
                Param { name: self.entries[i].name.clone(), value: self.entries[i].value.clone() },
            );
            i = i + 1;
        }
        assert(param_pairs(entries@) =~= param_pairs(self.entries@));
        ParamMap { entries }
    }
}

} // verus!
