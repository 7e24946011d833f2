use vstd::prelude::*;
use simsearch::SimSearch;

verus! {

#[verifier::external_type_specification]
#[verifier::external_body]
#[verifier::reject_recursive_types(Id)]
pub struct ExSimSearch<Id: Eq + PartialEq + Clone + std::hash::Hash + Ord>(SimSearch<Id>);

/// The entries that a search engine holds: the text each identifier was inserted with.
pub uninterp spec fn engine_texts(engine: SimSearch<usize>) -> Map<usize, Seq<char>>;

/// Whether `SimSearch::search`, with the default options, finds an entry with this text for
/// this pattern: after both are lowercased and split at whitespace, some word of the text
/// and some word of the pattern have a Jaro-Winkler similarity above 0.8.
pub uninterp spec fn words_match(text: Seq<char>, pattern: Seq<char>) -> bool;

/// Calls `SimSearch::new`: an engine with the default options and no entries.
#[verifier::external_body]
fn engine_new() -> (engine: SimSearch<usize>)
    ensures
        engine_texts(engine).dom() == Set::<usize>::empty(),
{
    SimSearch::new()
}

/// Calls `SimSearch::insert`, which adds an entry searchable by the words of `content`,
/// replacing the entry that had that identifier, if any.
#[verifier::external_body]
fn engine_insert(engine: &mut SimSearch<usize>, id: usize, content: &str)
    ensures
        engine_texts(*final(engine)) == engine_texts(*old(engine)).insert(id, content@),
{
    engine.insert(id, content)
}

/// Calls `SimSearch::search`, which returns the identifiers of the entries whose words are
/// similar to those of the pattern, the most relevant first. The contract states what the
/// source shows of every outcome: the results are exactly the entries whose text matches the
/// pattern (`words_match`), and no entry comes twice. Their order rests on floating point
/// scores summed in the order of a hash map, which each process seeds, and is not stated.
#[verifier::external_body]
fn engine_search(engine: &SimSearch<usize>, pattern: &str) -> (ids: Vec<usize>)
    ensures
        forall|id: usize| #[trigger] ids@.contains(id) <==> (engine_texts(*engine).dom().contains(id)
            && words_match(engine_texts(*engine)[id], pattern@)),
        ids@.no_duplicates(),
{
    engine.search(pattern)
}

/// The entries of an engine over a list of keys: each key under its position.
pub open spec fn key_texts(keys: Seq<String>) -> Map<usize, Seq<char>> {
    Map::new(|i: usize| i < keys.len(), |i: usize| keys[i as int]@)
}

/// A search engine that holds each key under its position.
fn engine_over(keys: &Vec<String>) -> (engine: SimSearch<usize>)
    ensures
        engine_texts(engine) == key_texts(keys@),
{
    let mut engine = engine_new();
    proof {
        assert(engine_texts(engine) =~= Map::new(|x: usize| x < 0, |x: usize| keys@[x as int]@));
    }
    let mut i: usize = 0;
    while i < keys.len()
        invariant
            0 <= i <= keys@.len(),
            engine_texts(engine) == Map::new(|x: usize| x < i, |x: usize| keys@[x as int]@),
        decreases keys@.len() - i,
    {
        engine_insert(&mut engine, i, keys[i].as_str());
        proof {
            assert(engine_texts(engine) =~= Map::new(|x: usize| x < i + 1, |x: usize| keys@[x as int]@));
        }
        i = i + 1;
    }
    proof {
        assert(engine_texts(engine) =~= key_texts(keys@));
    }
    engine
}

/// Searches the keys for `pattern`: the positions of exactly the keys that match it, the
/// most relevant first, none of them twice.
pub fn search_keys(keys: &Vec<String>, pattern: &str) -> (ids: Vec<usize>)
    ensures
        ids@.no_duplicates(),
        forall|j: int| 0 <= j < ids@.len() ==> #[trigger] ids@[j] < keys@.len(),
        forall|i: usize| i < keys@.len() ==> (#[trigger] ids@.contains(i) <==> words_match(keys@[i as int]@, pattern@)),
{
    let engine = engine_over(keys);
    let ids = engine_search(&engine, pattern);
    proof {
        assert forall|j: int| 0 <= j < ids@.len() implies #[trigger] ids@[j] < keys@.len() by {
            assert(ids@.contains(ids@[j]));
        }
    }
    ids
}

/// The keys at the positions `ids`, in that order.
pub fn keys_at(keys: &Vec<String>, ids: &Vec<usize>) -> (found: Vec<String>)
    requires
        forall|j: int| 0 <= j < ids@.len() ==> #[trigger] ids@[j] < keys@.len(),
    ensures
        found@ == ids@.map_values(|i: usize| keys@[i as int]),
{
    let mut found: Vec<String> = Vec::new();
    let mut j: usize = 0;
    while j < ids.len()
        invariant
            0 <= j <= ids@.len(),
            forall|k: int| 0 <= k < ids@.len() ==> #[trigger] ids@[k] < keys@.len(),
            found@ =~= ids@.take(j as int).map_values(|i: usize| keys@[i as int]),
        decreases ids@.len() - j,
    {
        found.push(keys[ids[j]].clone());
        proof {
            assert(ids@.take(j + 1) =~= ids@.take(j as int).push(ids@[j as int]));
        }
        j = j + 1;
    }
    proof {
        assert(ids@.take(ids@.len() as int) =~= ids@);
    }
    found
}

} // verus!
