use vstd::prelude::*;

use crate::decode::{chars_of, split_chars, split_on, string_of_range};

verus! {

/// Why a response body is not a list of `key=value` pairs.
#[derive(Debug, Clone, Copy, PartialEq, Eq, Structural)]
pub enum ProtocolError {
    /// An entry between two commas holds no `=`.
    MissingEquals,
}

/// `k` is the position of the first `=` in `e`.
pub open spec fn first_equals_at(e: Seq<char>, k: int) -> bool {
    0 <= k < e.len() && e[k] == '=' && forall|j: int| 0 <= j < k ==> e[j] != '='
}

/// An entry cut at its first `=` into key and value.
pub open spec fn entry_of(e: Seq<char>) -> Option<(Seq<char>, Seq<char>)> {
    if exists|k: int| first_equals_at(e, k) {
        let k = choose|k: int| first_equals_at(e, k);
        Some((e.take(k), e.skip(k + 1)))
    } else {
        None
    }
}

/// The mapping that a list of pairs writes: a later pair wins over an earlier one.
pub open spec fn pairs_map(p: Seq<(Seq<char>, Seq<char>)>) -> Map<Seq<char>, Seq<char>>
    decreases p.len(),
{
    if p.len() == 0 {
        Map::empty()
    } else {
        pairs_map(p.drop_last()).insert(p.last().0, p.last().1)
    }
}

/// The mapping a response body holds, or `None` when an entry has no `=`.
pub open spec fn body_map(body: Seq<char>) -> Option<Map<Seq<char>, Seq<char>>> {
    let entries = split_on(body, ',');
    if forall|i: int| 0 <= i < entries.len() ==> (#[trigger] entry_of(entries[i])) is Some {
        Some(pairs_map(entries.map_values(|e: Seq<char>| entry_of(e)->0)))
    } else {
        None
    }
}

/// The fields of one response body, key to raw value.
pub struct Info {
    entries: Vec<(String, String)>,
}

pub open spec fn pair_view(p: (String, String)) -> (Seq<char>, Seq<char>) {
    (p.0@, p.1@)
}

impl View for Info {
    type V = Map<Seq<char>, Seq<char>>;

    closed spec fn view(&self) -> Map<Seq<char>, Seq<char>> {
        pairs_map(self.entries@.map_values(|p: (String, String)| pair_view(p)))
    }
}

proof fn lemma_pairs_map_last(p: Seq<(Seq<char>, Seq<char>)>, k: Seq<char>, i: int)
    requires
        0 <= i < p.len(),
        p[i].0 == k,
        forall|j: int| i < j < p.len() ==> p[j].0 != k,
    ensures
        pairs_map(p).contains_key(k),
        pairs_map(p)[k] == p[i].1,
    decreases p.len(),
{
    if i < p.len() - 1 {
        lemma_pairs_map_last(p.drop_last(), k, i);
    }
}

proof fn lemma_pairs_map_absent(p: Seq<(Seq<char>, Seq<char>)>, k: Seq<char>)
    requires
        forall|j: int| 0 <= j < p.len() ==> p[j].0 != k,
    ensures
        !pairs_map(p).contains_key(k),
    decreases p.len(),
{
    if p.len() > 0 {
        lemma_pairs_map_absent(p.drop_last(), k);
    }
}

impl Info {
    /// An empty set of fields.
    pub fn new() -> (r: Info)
        ensures
            r@ == Map::<Seq<char>, Seq<char>>::empty(),
    {
        Info { entries: Vec::new() }
    }

    /// Sets `key` to `value`, replacing an earlier value of `key`.
    pub fn insert(&mut self, key: String, value: String)
        ensures
            final(self)@ == old(self)@.insert(key@, value@),
    {
        let ghost before = self.entries@.map_values(|p: (String, String)| pair_view(p));
        self.entries.push((key, value));
        assert(self.entries@.map_values(|p: (String, String)| pair_view(p)).drop_last() =~= before);
    }

    /// The raw value of `key`, if the body held it.
    pub fn get(&self, key: &str) -> (r: Option<&String>)
        ensures
            r is Some <==> self@.contains_key(key@),
            r matches Some(v) ==> v@ == self@[key@],
    {
        let ghost views = self.entries@.map_values(|p: (String, String)| pair_view(p));
        let wanted = key.to_owned();
        let mut i: usize = self.entries.len();
        while i > 0
            invariant
                i <= self.entries@.len(),
                wanted@ == key@,
                views == self.entries@.map_values(|p: (String, String)| pair_view(p)),
                forall|j: int| i <= j < views.len() ==> #[trigger] views[j].0 != key@,
            decreases i,
        {
            i -= 1;
            if self.entries[i].0 == wanted {
                proof {
                    lemma_pairs_map_last(views, key@, i as int);
                }
                return Some(&self.entries[i].1);
            }
        }
        proof {
            lemma_pairs_map_absent(views, key@);
        }
        None
    }
}

/// Parses a body of comma-separated `key=value` entries; each entry is cut at its first `=`,
/// and a later entry for a key wins over an earlier one.
pub fn parse_pairs(body: &str) -> (r: Result<Info, ProtocolError>)
    ensures
        r matches Ok(info) ==> body_map(body@) == Some(info@),
        r is Err <==> body_map(body@) is None,
{
    let chars = chars_of(body);
    let pieces = split_chars(&chars, ',');
    let ghost entries = split_on(body@, ',');
    let ghost pairs = entries.map_values(|e: Seq<char>| entry_of(e)->0);
    let mut info = Info::new();
    let mut i: usize = 0;
    while i < pieces.len()
        invariant
            i <= pieces@.len(),
            entries == split_on(body@, ','),
            pairs == entries.map_values(|e: Seq<char>| entry_of(e)->0),
            pieces@.len() == entries.len(),
            forall|j: int| 0 <= j < pieces@.len() ==> #[trigger] pieces@[j]@ == entries[j],
            forall|j: int| 0 <= j < i ==> (#[trigger] entry_of(entries[j])) is Some,
            info@ == pairs_map(pairs.take(i as int)),
        decreases pieces@.len() - i,
    {
        let piece = &pieces[i];
        assert(piece@ == entries[i as int]);
        let mut k: usize = 0;
        while k < piece.len() && piece[k] != '='
            invariant
                k <= piece@.len(),
                forall|j: int| 0 <= j < k ==> piece@[j] != '=',
            decreases piece@.len() - k,
        {
            k += 1;
        }
        if k == piece.len() {
            assert forall|m: int| !first_equals_at(piece@, m) by {
                if first_equals_at(piece@, m) {
                    assert(piece@[m] == '=');
                }
            }
            assert(entry_of(entries[i as int]) is None);
            return Err(ProtocolError::MissingEquals);
        }
        assert(first_equals_at(piece@, k as int));
        proof {
            let c = choose|m: int| first_equals_at(piece@, m);
            if c < k {
                assert(piece@[c] == '=');
            } else if c > k {
                assert(piece@[k as int] == '=');
            }
        }
        let key = string_of_range(piece, 0, k);
        let value = string_of_range(piece, k + 1, piece.len());
        assert(key@ == piece@.take(k as int));
        assert(value@ == piece@.skip(k + 1));
        info.insert(key, value);
        assert(pairs.take(i + 1).drop_last() == pairs.take(i as int));
        i += 1;
    }
    assert(pairs.take(pieces@.len() as int) == pairs);
    Ok(info)
}

} // verus!
