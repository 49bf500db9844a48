use vstd::prelude::*;
use crate::chain::ChainInfo;
use crate::chain::ChainInfoView;
use crate::sync::SyncFlow;
use crate::text::str_equal;

verus! {

/// How a lookup against a synchronized mirror can fail.
#[derive(Debug, Clone, Copy, PartialEq, Eq, Structural)]
pub enum LookupError {
    /// A candidate document exists but does not parse into the expected
    /// shape: invalid JSON, or a required field missing or not a string.
    /// Fatal for the whole lookup; later candidates are not consulted.
    Malformed,
    /// The key is absent after an exhaustive scan: a routine outcome, not a
    /// fault.
    NotFound,
}

/// What one candidate document means: `None` when it is not a JSON object
/// carrying string fields `chain_name`, `chain_id` and `pretty_name`, and
/// otherwise the projection onto those three fields.
pub uninterp spec fn parse_chain_json(text: Seq<char>) -> Option<ChainInfoView>;

/// Relies on serde_json: `from_str` decides whether the text is valid JSON,
/// and the `Value` accessors `get` and `as_str` project the `chain_name`,
/// `chain_id` and `pretty_name` string fields, ignoring every other field.
/// Both depend on the text alone, so the outcome is named by
/// [`parse_chain_json`]; a missing or non-string required field is a parse
/// failure.
#[verifier::external_body]
fn parse_chain_document(text: &str) -> (r: Option<ChainInfo>)
    ensures
        r is Some <==> parse_chain_json(text@) is Some,
        r matches Some(info) ==> parse_chain_json(text@) == Some(info@),
{
    let value: serde_json::Value = match serde_json::from_str(text) {
        Ok(v) => v,
        Err(_) => return None,
    };
    let chain_name = value.get("chain_name")?.as_str()?;
    let chain_id = value.get("chain_id")?.as_str()?;
    let pretty_name = value.get("pretty_name")?.as_str()?;
    Some(ChainInfo {
        chain_name: chain_name.to_string(),
        chain_id: chain_id.to_string(),
        pretty_name: pretty_name.to_string(),
    })
}

/// The views of a sequence of documents.
pub open spec fn views_of(docs: Seq<String>) -> Seq<Seq<char>> {
    docs.map_values(|d: String| d@)
}

/// The lookup outcome over a sequence of candidate documents, scanned in
/// order: the first document that fails to parse halts the scan with
/// `Malformed`; the first parsed record whose `chain_id` equals the key is
/// returned; an exhausted scan is `NotFound`.
pub open spec fn lookup_spec(docs: Seq<Seq<char>>, key: Seq<char>) -> Result<
    ChainInfoView,
    LookupError,
>
    decreases docs.len(),
{
    if docs.len() == 0 {
        Err(LookupError::NotFound)
    } else {
        match parse_chain_json(docs[0]) {
            None => Err(LookupError::Malformed),
            Some(info) => if info.chain_id == key {
                Ok(info)
            } else {
                lookup_spec(docs.drop_first(), key)
            },
        }
    }
}

/// The live binding between a mirror location known to be synchronized and
/// the lookups that may be performed against it. A handle exists only for a
/// completed synchronization: [`ChainRegistry::bind`] is the sole
/// constructor and refuses every unfinished or failed flow.
pub struct ChainRegistry {
    path: String,
}

impl ChainRegistry {
    /// The mirror location this handle is bound to.
    pub closed spec fn location(&self) -> Seq<char> {
        self.path@
    }

    /// Binds a handle to the mirror at `path`, but only once `sync` reports a
    /// completed synchronization; an unfinished or failed flow yields no
    /// handle.
    pub fn bind(path: String, sync: &SyncFlow) -> (r: Option<ChainRegistry>)
        ensures
            r is Some <==> sync.state() is Complete,
            r matches Some(reg) ==> reg.location() == path@,
    {
        if sync.is_complete() {
            Some(ChainRegistry { path })
        } else {
            None
        }
    }

    /// The mirror location, for a driver that enumerates its documents.
    pub fn path(&self) -> (r: &String)
        ensures
            r@ == self.location(),
    {
        &self.path
    }

    /// Scans the candidate documents of the mirror, in the order given, for
    /// the record whose `chain_id` equals `chain_id`: exactly the outcome of
    /// [`lookup_spec`]. The first unparsable document is fatal (`Malformed`),
    /// and an exhausted scan is `NotFound`.
    pub fn get_by_chain_id(&self, chain_id: &str, documents: &Vec<String>) -> (r: Result<
        ChainInfo,
        LookupError,
    >)
        ensures
            (match r {
                Ok(info) => lookup_spec(views_of(documents@), chain_id@) == Ok::<
                    ChainInfoView,
                    LookupError,
                >(info@),
                Err(e) => lookup_spec(views_of(documents@), chain_id@) == Err::<
                    ChainInfoView,
                    LookupError,
                >(e),
            }),
    {
        let ghost all = views_of(documents@);
        let n = documents.len();
        let mut i: usize = 0;
        proof {
            assert(all.skip(0) =~= all);
        }
        while i < n
            invariant
                n == documents@.len(),
                i <= n,
                all == views_of(documents@),
                all.len() == n,
                lookup_spec(all, chain_id@) == lookup_spec(all.skip(i as int), chain_id@),
            decreases n - i,
        {
            proof {
                assert(all.skip(i as int)[0] == documents@[i as int]@);
                assert(all.skip(i as int).drop_first() =~= all.skip(i as int + 1));
            }
            match parse_chain_document(documents[i].as_str()) {
                None => {
                    return Err(LookupError::Malformed);
                },
                Some(info) => {
                    if str_equal(info.chain_id.as_str(), chain_id) {
                        return Ok(info);
                    }
                },
            }
            i = i + 1;
        }
        proof {
            assert(all.skip(n as int) =~= Seq::<Seq<char>>::empty());
        }
        Err(LookupError::NotFound)
    }
}

/// A hit is exact and whole: whatever record a lookup returns carries
/// precisely the requested key and is the parse of one of the scanned
/// documents — never a partial or synthesized record.
pub proof fn lemma_hit_matches_key(docs: Seq<Seq<char>>, key: Seq<char>)
    ensures
        lookup_spec(docs, key) matches Ok(info) ==> info.chain_id == key && (exists|i: int|
            0 <= i < docs.len() && parse_chain_json(#[trigger] docs[i]) == Some(info)),
    decreases docs.len(),
{
    if docs.len() > 0 && lookup_spec(docs, key) is Ok {
        let info = lookup_spec(docs, key)->Ok_0;
        match parse_chain_json(docs[0]) {
            Some(info0) => {
                if info0.chain_id == key {
                    assert(parse_chain_json(docs[0]) == Some(info));
                } else {
                    lemma_hit_matches_key(docs.drop_first(), key);
                    let rest = docs.drop_first();
                    let j = choose|j: int|
                        0 <= j < rest.len() && parse_chain_json(#[trigger] rest[j]) == Some(info);
                    assert(docs[j + 1] == rest[j]);
                }
            },
            None => {},
        }
    }
}

/// A miss is routine: over documents that all parse and none of which carries
/// the key, the lookup is exactly `NotFound` — never a parse error.
pub proof fn lemma_miss_is_not_found(docs: Seq<Seq<char>>, key: Seq<char>)
    requires
        forall|i: int|
            0 <= i < docs.len() ==> parse_chain_json(#[trigger] docs[i]) is Some && parse_chain_json(
                docs[i],
            )->Some_0.chain_id != key,
    ensures
        lookup_spec(docs, key) == Err::<ChainInfoView, LookupError>(LookupError::NotFound),
    decreases docs.len(),
{
    if docs.len() > 0 {
        assert(parse_chain_json(docs[0]) is Some);
        let rest = docs.drop_first();
        assert forall|i: int|
            0 <= i < rest.len() implies parse_chain_json(#[trigger] rest[i]) is Some
            && parse_chain_json(rest[i])->Some_0.chain_id != key by {
            assert(rest[i] == docs[i + 1]);
        }
        lemma_miss_is_not_found(rest, key);
    }
}

/// One malformed document halts the scan: when the documents ahead of it all
/// parse and none of them carries the key, the lookup is `Malformed`, and no
/// later match is silently found instead.
pub proof fn lemma_malformed_halts(docs: Seq<Seq<char>>, key: Seq<char>, bad: int)
    requires
        0 <= bad < docs.len(),
        parse_chain_json(docs[bad]) is None,
        forall|j: int|
            0 <= j < bad ==> parse_chain_json(#[trigger] docs[j]) is Some && parse_chain_json(
                docs[j],
            )->Some_0.chain_id != key,
    ensures
        lookup_spec(docs, key) == Err::<ChainInfoView, LookupError>(LookupError::Malformed),
    decreases bad,
{
    if bad > 0 {
        assert(parse_chain_json(docs[0]) is Some);
        let rest = docs.drop_first();
        assert(rest[bad - 1] == docs[bad]);
        assert forall|j: int|
            0 <= j < bad - 1 implies parse_chain_json(#[trigger] rest[j]) is Some
            && parse_chain_json(rest[j])->Some_0.chain_id != key by {
            assert(rest[j] == docs[j + 1]);
        }
        lemma_malformed_halts(rest, key, bad - 1);
    }
}

} // verus!
