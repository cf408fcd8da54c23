use vstd::prelude::*;
use crate::card::RawCard;
use crate::chip::RawChip;
use crate::names::{NameMap, entry_of, filed};

verus! {

/// Why the library could not hand out a card or a chip.
#[derive(Debug)]
pub enum Error {
    /// Nothing is filed under the name.
    DontExist(String),
    /// The entry under the name (its JSON text first) does not describe
    /// one; the message says why.
    WrongValue(String, String),
}

/// What the library holds under a name: the JSON text of the entry, and
/// what reading it gave, the thing or the message of the reader.
#[derive(Debug)]
pub struct Entry<T> {
    pub json: String,
    pub read: Result<T, String>,
}

/// The cards and the chips a game can take, each by name.
pub struct Library {
    pub cards: NameMap<Entry<RawCard>>,
    pub chips: NameMap<Entry<RawChip>>,
}

/// What looking up a raw card gives for a library entry (`None` for a
/// name that is not filed).
pub open spec fn card_lookup(entry: Option<Entry<RawCard>>, name: Seq<char>, r: Result<RawCard, Error>) -> bool {
    match entry {
        None => r matches Err(Error::DontExist(n)) && n@ == name,
        Some(e) => match e.read {
            Ok(c) => r matches Ok(rc) && rc.same_as(c),
            Err(m) => r matches Err(Error::WrongValue(j, m2)) && j == e.json && m2 == m,
        },
    }
}

/// What looking up a raw chip gives for a library entry (`None` for a
/// name that is not filed).
pub open spec fn chip_lookup(entry: Option<Entry<RawChip>>, name: Seq<char>, r: Result<RawChip, Error>) -> bool {
    match entry {
        None => r matches Err(Error::DontExist(n)) && n@ == name,
        Some(e) => match e.read {
            Ok(c) => r matches Ok(rc) && rc.same_as(c),
            Err(m) => r matches Err(Error::WrongValue(j, m2)) && j == e.json && m2 == m,
        },
    }
}

/// What is filed under a name is what a later look-up finds there, and
/// filing under one name leaves every other name as it was.
pub proof fn lemma_filed_entry_found<T>(m: Map<Seq<char>, T>, name: Seq<char>, e: T, other: Seq<char>)
    ensures
        entry_of(m.insert(name, e), name) == Some(e),
        other != name ==> entry_of(m.insert(name, e), other) == entry_of(m, other),
{
}

/// Looking up a card answers with the filed raw card where its entry was
/// read, with the entry's text and the reader's message where it was not,
/// and that nothing is filed under the name otherwise.
pub proof fn lemma_card_lookup_answers(entry: Option<Entry<RawCard>>, name: Seq<char>, r: Result<RawCard, Error>)
    requires
        card_lookup(entry, name, r),
    ensures
        entry is None ==> (r matches Err(Error::DontExist(n)) && n@ == name),
        entry matches Some(e) ==> (e.read matches Ok(c) ==> (r matches Ok(rc) && rc.same_as(c))),
        entry matches Some(e) ==> (e.read matches Err(m) ==> (r matches Err(Error::WrongValue(j, m2)) && j == e.json && m2 == m)),
{
}

/// Looking up a chip answers as looking up a card does.
pub proof fn lemma_chip_lookup_answers(entry: Option<Entry<RawChip>>, name: Seq<char>, r: Result<RawChip, Error>)
    requires
        chip_lookup(entry, name, r),
    ensures
        entry is None ==> (r matches Err(Error::DontExist(n)) && n@ == name),
        entry matches Some(e) ==> (e.read matches Ok(c) ==> (r matches Ok(rc) && rc.same_as(c))),
        entry matches Some(e) ==> (e.read matches Err(m) ==> (r matches Err(Error::WrongValue(j, m2)) && j == e.json && m2 == m)),
{
}

impl Library {
    /// Both parts of the library name each thing at most once.
    pub open spec fn wf(&self) -> bool {
        self.cards.wf() && self.chips.wf()
    }

    /// A library with nothing in it.
    pub fn empty() -> (r: Library)
        ensures
            r.wf(),
            r.cards@ == Map::<Seq<char>, Entry<RawCard>>::empty(),
            r.chips@ == Map::<Seq<char>, Entry<RawChip>>::empty(),
            r.cards.keys() == Seq::<Seq<char>>::empty(),
            r.chips.keys() == Seq::<Seq<char>>::empty(),
    {
        Library { cards: NameMap::new(), chips: NameMap::new() }
    }

    /// The library of a file's cards and chips, filed in order; a later
    /// entry replaces an earlier one of the same name.
    pub fn from_sections(cards: Vec<(String, Entry<RawCard>)>, chips: Vec<(String, Entry<RawChip>)>) -> (r: Library)
        ensures
            r.wf(),
            r.cards@ == filed(cards@),
            r.chips@ == filed(chips@),
    {
        Library { cards: NameMap::from_entries(cards), chips: NameMap::from_entries(chips) }
    }

    /// Files `entry` as the card `name`, replacing what was filed there.
    pub fn add_card(&mut self, name: String, entry: Entry<RawCard>)
        requires
            old(self).wf(),
        ensures
            final(self).wf(),
            final(self).cards@ == old(self).cards@.insert(name@, entry),
            final(self).chips@ == old(self).chips@,
            old(self).cards@.contains_key(name@) ==> final(self).cards.keys() == old(self).cards.keys(),
            !old(self).cards@.contains_key(name@) ==> final(self).cards.keys() == old(self).cards.keys().push(name@),
    {
        self.cards.insert(name, entry);
    }

    /// Files `entry` as the chip `name`, replacing what was filed there.
    pub fn add_chip(&mut self, name: String, entry: Entry<RawChip>)
        requires
            old(self).wf(),
        ensures
            final(self).wf(),
            final(self).chips@ == old(self).chips@.insert(name@, entry),
            final(self).cards@ == old(self).cards@,
            old(self).chips@.contains_key(name@) ==> final(self).chips.keys() == old(self).chips.keys(),
            !old(self).chips@.contains_key(name@) ==> final(self).chips.keys() == old(self).chips.keys().push(name@),
    {
        self.chips.insert(name, entry);
    }

    /// Moves every card and chip of `other` into this library; what both
    /// file under one name, `other`'s entry replaces.
    pub fn append(&mut self, other: Library)
        requires
            old(self).wf(),
            other.wf(),
        ensures
            final(self).wf(),
            final(self).cards@ == old(self).cards@.union_prefer_right(other.cards@),
            final(self).chips@ == old(self).chips@.union_prefer_right(other.chips@),
            final(self).cards.keys() == old(self).cards.keys() + other.cards.keys().filter(
                |k: Seq<char>| !old(self).cards@.contains_key(k),
            ),
            final(self).chips.keys() == old(self).chips.keys() + other.chips.keys().filter(
                |k: Seq<char>| !old(self).chips@.contains_key(k),
            ),
    {
        let Library { cards, chips } = other;
        self.cards.append(cards);
        self.chips.append(chips);
    }

    /// The raw card filed under `name`.
    pub fn get_raw_card_by_name(&self, name: &str) -> (r: Result<RawCard, Error>)
        requires
            self.wf(),
        ensures
            card_lookup(entry_of(self.cards@, name@), name@, r),
    {
        let key = String::from_str(name);
        match self.cards.get(&key) {
            None => Err(Error::DontExist(key)),
            Some(entry) => match &entry.read {
                Ok(card) => Ok(card.clone()),
                Err(message) => Err(Error::WrongValue(entry.json.clone(), message.clone())),
            },
        }
    }

    /// The raw chip filed under `name`.
    pub fn get_raw_chip_by_name(&self, name: &str) -> (r: Result<RawChip, Error>)
        requires
            self.wf(),
        ensures
            chip_lookup(entry_of(self.chips@, name@), name@, r),
    {
        let key = String::from_str(name);
        match self.chips.get(&key) {
            None => Err(Error::DontExist(key)),
            Some(entry) => match &entry.read {
                Ok(chip) => Ok(chip.clone()),
                Err(message) => Err(Error::WrongValue(entry.json.clone(), message.clone())),
            },
        }
    }

    /// The names and JSON texts of all cards, in the order they were filed.
    pub fn cards_json(&self) -> (r: Vec<(String, String)>)
        requires
            self.wf(),
        ensures
            r@.len() == self.cards.keys().len(),
            forall|i: int| 0 <= i < r@.len() ==> {
                &&& (#[trigger] r@[i]).0@ == self.cards.keys()[i]
                &&& r@[i].1 == self.cards@[self.cards.keys()[i]].json
            },
    {
        let mut r: Vec<(String, String)> = Vec::new();
        proof {
            self.cards.lemma_keys_values();
        }
        let n = self.cards.len();
        for i in 0..n
            invariant
                n == self.cards.keys().len(),
                self.wf(),
                r@.len() == i,
                self.cards.keys().len() == self.cards.values().len(),
                forall|j: int| 0 <= j < self.cards.keys().len() ==> self.cards@[self.cards.keys()[j]] == #[trigger] self.cards.values()[j],
                forall|j: int| 0 <= j < i ==> {
                    &&& (#[trigger] r@[j]).0@ == self.cards.keys()[j]
                    &&& r@[j].1 == self.cards@[self.cards.keys()[j]].json
                },
        {
            let name = self.cards.key_at(i).clone();
            let json = self.cards.value_at(i).json.clone();
            r.push((name, json));
        }
        r
    }
}

} // verus!
