//! The parameters of a table: a key and its value.

use crate::sfo::data::{SFOParamData, SfoValue};
use vstd::prelude::*;

verus! {

/// One parameter of a table.
#[derive(Debug, Clone, PartialEq, Eq)]
pub struct SFOParam {
    pub key: String,
    pub data: SFOParamData,
}

/// A parameter as mathematical data.
pub ghost struct ParamView {
    pub key: Seq<char>,
    pub data: SfoValue,
}

impl View for SFOParam {
    type V = ParamView;

    open spec fn view(&self) -> ParamView {
        ParamView { key: self.key@, data: self.data@ }
    }
}

/// The views of a list of parameters, in their order.
pub open spec fn params_view(params: Seq<SFOParam>) -> Seq<ParamView> {
    params.map_values(|param: SFOParam| param@)
}

/// Tells whether one of `params` carries `key`.
pub open spec fn has_key(params: Seq<ParamView>, key: Seq<char>) -> bool {
    exists|i: int| 0 <= i < params.len() && #[trigger] params[i].key == key
}

/// Tells whether no key occurs twice in `params`.
pub open spec fn unique_keys(params: Seq<ParamView>) -> bool {
    forall|i: int, j: int|
        0 <= i < j < params.len() ==> #[trigger] params[i].key != #[trigger] params[j].key
}

/// The value of the first of `params` that carries `key`.
pub open spec fn lookup(params: Seq<ParamView>, key: Seq<char>) -> Option<SfoValue>
    decreases params.len(),
{
    if params.len() == 0 {
        None
    } else if params[0].key == key {
        Some(params[0].data)
    } else {
        lookup(params.drop_first(), key)
    }
}

/// A key that none of `params` carries is looked up in vain.
pub proof fn lemma_lookup_absent(params: Seq<ParamView>, key: Seq<char>)
    requires
        forall|j: int| 0 <= j < params.len() ==> params[j].key != key,
    ensures
        lookup(params, key) is None,
    decreases params.len(),
{
    if params.len() != 0 {
        let rest = params.drop_first();
        assert forall|j: int| 0 <= j < rest.len() implies rest[j].key != key by {
            assert(rest[j] == params[j + 1]);
        }
        lemma_lookup_absent(rest, key);
    }
}

/// The lookup of a key gives the value at the first index that carries it.
pub proof fn lemma_lookup_first(params: Seq<ParamView>, key: Seq<char>, index: int)
    requires
        0 <= index < params.len(),
        params[index].key == key,
        forall|j: int| 0 <= j < index ==> params[j].key != key,
    ensures
        lookup(params, key) == Some(params[index].data),
    decreases index,
{
    if index > 0 {
        let rest = params.drop_first();
        assert(rest[index - 1] == params[index]);
        assert forall|j: int| 0 <= j < index - 1 implies rest[j].key != key by {
            assert(rest[j] == params[j + 1]);
        }
        lemma_lookup_first(rest, key, index - 1);
    }
}

} // verus!
