//! The cursor position table: which row each subscribed symbol pair is shown
//! on, counted upward from the row on which the cursor rests.

use vstd::prelude::*;
use crate::casing::{to_upper, uppercase_text};

verus! {

/// The row of one symbol pair.
#[derive(Debug, Clone, PartialEq, Eq)]
pub struct CursorPosition {
    /// The symbol pair in the uppercase form in which the feed reports it.
    pub symbol_pair: String,
    /// The number of rows from the cursor's rest position up to the pair's row.
    pub relative: u16,
}

/// Why no table can be built from a subscription set.
#[derive(Debug, Clone, Copy, PartialEq, Eq)]
pub enum TableError {
    /// The set holds more symbol pairs than a row offset can count.
    TooManySymbols,
    /// The symbol pair at `index` has the uppercase form of an earlier one.
    DuplicateSymbol { index: usize },
}

/// The rows of a subscription set, fixed when the table is built.
#[derive(Debug, Clone, PartialEq, Eq)]
pub struct CursorTable {
    entries: Vec<CursorPosition>,
}

/// The uppercase forms of the strings of `items`, in order.
pub open spec fn uppercase_texts(items: Seq<String>) -> Seq<Seq<char>> {
    Seq::new(items.len(), |i: int| uppercase_text(items[i]@))
}

/// The first index of `keys` whose entry equals an earlier one.
pub open spec fn first_repeat(keys: Seq<Seq<char>>, index: int) -> bool {
    &&& 0 <= index < keys.len()
    &&& keys.take(index).no_duplicates()
    &&& keys.take(index).contains(keys[index])
}

impl CursorTable {
    /// The keys of the table, from the top row down.
    pub closed spec fn keys(&self) -> Seq<Seq<char>> {
        Seq::new(self.entries@.len(), |i: int| self.entries@[i].symbol_pair@)
    }

    /// The row offsets of the table, from the top row down.
    pub closed spec fn offsets(&self) -> Seq<int> {
        Seq::new(self.entries@.len(), |i: int| self.entries@[i].relative as int)
    }

    /// A table is well formed when no key occurs twice and the entry at
    /// index `i` of `n` entries lies `n - i` rows up.
    pub open spec fn wf(&self) -> bool {
        &&& self.keys().len() == self.offsets().len()
        &&& self.keys().len() <= u16::MAX
        &&& self.keys().no_duplicates()
        &&& forall|i: int|
            0 <= i < self.offsets().len() ==> #[trigger] self.offsets()[i] == self.offsets().len()
                - i
    }

    /// The row offset of `symbol`, where the table has it as a key.
    pub open spec fn offset_of(&self, symbol: Seq<char>) -> Option<int> {
        if self.keys().contains(symbol) {
            Some(self.keys().len() - self.keys().index_of(symbol))
        } else {
            None
        }
    }

    /// Builds the table of a subscription set.
    ///
    /// The key of each symbol pair is its uppercase form, and the pair at
    /// index `i` of `n` lies `n - i` rows up. A set that is too long to
    /// count, or in which two pairs share an uppercase form, has no table.
    pub fn build(symbols: &Vec<String>) -> (r: Result<CursorTable, TableError>)
        ensures
            match r {
                Ok(table) => {
                    &&& table.wf()
                    &&& table.keys() == uppercase_texts(symbols@)
                    &&& symbols.len() <= u16::MAX
                },
                Err(TableError::TooManySymbols) => symbols.len() > u16::MAX,
                Err(TableError::DuplicateSymbol { index }) => {
                    &&& symbols.len() <= u16::MAX
                    &&& first_repeat(uppercase_texts(symbols@), index as int)
                },
            },
            r.is_ok() <==> symbols.len() <= u16::MAX && uppercase_texts(symbols@).no_duplicates(),
    {
        let n = symbols.len();
        if n > 65535 {
            return Err(TableError::TooManySymbols);
        }
        let ghost all = uppercase_texts(symbols@);
        let mut entries: Vec<CursorPosition> = Vec::new();
        let mut i: usize = 0;
        while i < n
            invariant
                n == symbols.len(),
                n <= 65535,
                i <= n,
                all == uppercase_texts(symbols@),
                entries.len() == i,
                all.take(i as int).no_duplicates(),
                forall|k: int|
                    0 <= k < i ==> (#[trigger] entries[k]).symbol_pair@ == all[k]
                        && entries[k].relative == n - k,
            decreases n - i,
        {
            let upper = to_upper(symbols[i].as_str());
            let mut j: usize = 0;
            while j < i
                invariant
                    j <= i,
                    i < n,
                    n == symbols.len(),
                    n <= 65535,
                    all == uppercase_texts(symbols@),
                    all.take(i as int).no_duplicates(),
                    entries.len() == i,
                    upper@ == all[i as int],
                    forall|k: int| 0 <= k < i ==> (#[trigger] entries[k]).symbol_pair@ == all[k],
                    forall|k: int| 0 <= k < j ==> all[k] != upper@,
                decreases i - j,
            {
                if entries[j].symbol_pair == upper {
                    proof {
                        let before = all.take(i as int);
                        assert(before[j as int] == all[i as int]);
                        assert(before.contains(all[i as int]));
                        assert(all[j as int] == all[i as int]);
                    }
                    return Err(TableError::DuplicateSymbol { index: i });
                }
                j += 1;
            }
            proof {
                let before = all.take(i as int);
                let after = all.take(i + 1);
                assert forall|a: int, b: int| 0 <= a < after.len() && 0 <= b < after.len() && a != b
                    implies after[a] != after[b] by {
                    if a < i && b < i {
                        assert(before[a] != before[b]);
                    }
                }
            }
            entries.push(CursorPosition { symbol_pair: upper, relative: (n - i) as u16 });
            i += 1;
        }
        let table = CursorTable { entries };
        proof {
            assert(all.take(n as int) =~= all);
            assert(table.keys() =~= all);
        }
        Ok(table)
    }

    /// The number of entries.
    pub fn len(&self) -> (r: usize)
        ensures
            r == self.keys().len(),
    {
        self.entries.len()
    }

    /// Looks a symbol up by its key, the uppercase form.
    ///
    /// Nothing is allocated. A symbol that the table does not hold gives
    /// `None`.
    pub fn lookup(&self, symbol: &String) -> (r: Option<u16>)
        requires
            self.wf(),
        ensures
            match r {
                Some(relative) => self.offset_of(symbol@) == Some(relative as int),
                None => self.offset_of(symbol@).is_none(),
            },
    {
        let mut i: usize = 0;
        while i < self.entries.len()
            invariant
                i <= self.entries.len(),
                self.wf(),
                forall|k: int| 0 <= k < i ==> self.keys()[k] != symbol@,
            decreases self.entries.len() - i,
        {
            if self.entries[i].symbol_pair == *symbol {
                proof {
                    let keys = self.keys();
                    assert(keys[i as int] == symbol@);
                    assert(keys.contains(symbol@));
                    let found = keys.index_of(symbol@);
                    assert(0 <= found < keys.len() && keys[found] == symbol@);
                    assert(found == i);
                    assert(self.offsets()[i as int] == self.offsets().len() - i);
                }
                return Some(self.entries[i].relative);
            }
            i += 1;
        }
        None
    }

    /// The entries, from the top row down.
    pub fn positions(&self) -> (r: &Vec<CursorPosition>)
        ensures
            r@.len() == self.keys().len(),
            forall|i: int|
                0 <= i < r@.len() ==> (#[trigger] r@[i]).symbol_pair@ == self.keys()[i]
                    && r@[i].relative == self.offsets()[i],
    {
        &self.entries
    }
}

/// Every well-formed table of `n` entries has `n` distinct keys, and its
/// offsets are exactly the numbers from 1 to `n`, each once.
pub proof fn lemma_offsets_cover_rows(table: CursorTable)
    requires
        table.wf(),
    ensures
        table.keys().no_duplicates(),
        table.offsets().len() == table.keys().len(),
        table.offsets().no_duplicates(),
        table.offsets().to_set() =~= Set::new(|k: int| 1 <= k <= table.keys().len()),
{
    let offsets = table.offsets();
    let n = offsets.len() as int;
    assert forall|k: int| 1 <= k <= n implies offsets.to_set().contains(k) by {
        assert(offsets[n - k] == k);
        assert(offsets.contains(k));
    }
    assert forall|k: int| offsets.to_set().contains(k) implies 1 <= k <= n by {
        let i = choose|i: int| 0 <= i < offsets.len() && offsets[i] == k;
        assert(offsets[i] == n - i);
    }
    assert forall|a: int, b: int| 0 <= a < n && 0 <= b < n && a != b implies offsets[a]
        != offsets[b] by {
        assert(offsets[a] == n - a);
        assert(offsets[b] == n - b);
    }
}

/// In a well-formed table of `n` entries, the key at index `i` is found
/// `n - i` rows up.
pub proof fn lemma_offset_of_key(table: CursorTable, i: int)
    requires
        table.wf(),
        0 <= i < table.keys().len(),
    ensures
        table.offset_of(table.keys()[i]) == Some(table.keys().len() - i),
{
    let keys = table.keys();
    assert(keys.contains(keys[i]));
    let found = keys.index_of(keys[i]);
    assert(0 <= found < keys.len() && keys[found] == keys[i]);
    assert(found == i);
}

} // verus!
