use vstd::prelude::*;

verus! {

/// The projection of one registry document that a lookup depends on: the
/// unique chain identifier (the lookup key), the short machine name, and the
/// human-readable display name. Every other field of a registry document is
/// ignored.
#[derive(Debug, Clone)]
pub struct ChainInfo {
    pub chain_name: String,
    pub chain_id: String,
    pub pretty_name: String,
}

/// The mathematical value of a [`ChainInfo`]: its three fields as character
/// sequences.
pub struct ChainInfoView {
    pub chain_name: Seq<char>,
    pub chain_id: Seq<char>,
    pub pretty_name: Seq<char>,
}

impl View for ChainInfo {
    type V = ChainInfoView;

    open spec fn view(&self) -> ChainInfoView {
        ChainInfoView {
            chain_name: self.chain_name@,
            chain_id: self.chain_id@,
            pretty_name: self.pretty_name@,
        }
    }
}

} // verus!
