//! The description of the current track: a mapping from names to values.

use vstd::prelude::*;

verus! {

/// One value of a track's description: a text, a whole number, or a list of
/// texts.
#[derive(Debug)]
pub enum MetadataValue {
    Text(String),
    Integer(i64),
    List(Vec<String>),
}

/// A value as the contracts see it.
pub enum ValueView {
    Text(Seq<char>),
    Integer(i64),
    List(Seq<Seq<char>>),
}

/// The texts of a list of strings, in order.
pub open spec fn string_views(list: Seq<String>) -> Seq<Seq<char>> {
    list.map_values(|item: String| item@)
}

impl View for MetadataValue {
    type V = ValueView;

    open spec fn view(&self) -> ValueView {
        match self {
            MetadataValue::Text(text) => ValueView::Text(text@),
            MetadataValue::Integer(number) => ValueView::Integer(*number),
            MetadataValue::List(items) => ValueView::List(string_views(items@)),
        }
    }
}

/// A copy of a list of strings: as long, with the same text at each place.
fn copy_strings(list: &Vec<String>) -> (copy: Vec<String>)
    ensures
        string_views(copy@) == string_views(list@),
{
    let mut copy: Vec<String> = Vec::new();
    let mut at: usize = 0;
    while at < list.len()
        invariant
            at <= list.len(),
            copy.len() == at,
            forall|i: int| 0 <= i < at ==> copy@[i]@ == list@[i]@,
        decreases list.len() - at,
    {
        copy.push(list[at].clone());
        at += 1;
    }
    copy
}

impl Clone for MetadataValue {
    /// A copy is a value of the same kind with the same content.
    fn clone(&self) -> (copy: Self)
        ensures
            copy@ == self@,
    {
        match self {
            MetadataValue::Text(text) => MetadataValue::Text(text.clone()),
            MetadataValue::Integer(number) => MetadataValue::Integer(*number),
            MetadataValue::List(items) => MetadataValue::List(copy_strings(items)),
        }
    }
}

/// One entry of a track's description: a name and the value under it.
#[derive(Debug)]
pub struct MetadataEntry {
    pub key: String,
    pub value: MetadataValue,
}

impl View for MetadataEntry {
    type V = (Seq<char>, ValueView);

    open spec fn view(&self) -> (Seq<char>, ValueView) {
        (self.key@, self.value@)
    }
}

/// The entries of a list as the contracts see them, in order.
pub open spec fn entry_views(list: Seq<MetadataEntry>) -> Seq<(Seq<char>, ValueView)> {
    list.map_values(|entry: MetadataEntry| entry@)
}

/// No name stands at two places of the list.
pub open spec fn distinct_keys(list: Seq<(Seq<char>, ValueView)>) -> bool {
    forall|i: int, j: int| 0 <= i < j < list.len() ==> list[i].0 != list[j].0
}

/// The mapping that a list of entries spells out: each name leads to the value
/// of its last entry.
pub open spec fn mapping_of(list: Seq<(Seq<char>, ValueView)>) -> Map<Seq<char>, ValueView>
    decreases list.len(),
{
    if list.len() == 0 {
        Map::empty()
    } else {
        mapping_of(list.drop_last()).insert(list.last().0, list.last().1)
    }
}

/// A list without its last entry repeats no name if the list repeats none.
proof fn lemma_front_distinct(list: Seq<(Seq<char>, ValueView)>)
    requires
        distinct_keys(list),
        list.len() > 0,
    ensures
        distinct_keys(list.drop_last()),
{
    let front = list.drop_last();
    assert forall|i: int, j: int| 0 <= i < j < front.len() implies front[i].0 != front[j].0 by {
        assert(list[i].0 != list[j].0);
    }
}

/// A name is in the mapping exactly where some entry of the list has it.
pub proof fn lemma_mapping_names(list: Seq<(Seq<char>, ValueView)>, key: Seq<char>)
    ensures
        mapping_of(list).contains_key(key) <==> exists|i: int|
            0 <= i < list.len() && #[trigger] list[i].0 == key,
    decreases list.len(),
{
    if list.len() > 0 {
        let front = list.drop_last();
        lemma_mapping_names(front, key);
        if mapping_of(list).contains_key(key) && list.last().0 != key {
            let i = choose|i: int| 0 <= i < front.len() && #[trigger] front[i].0 == key;
            assert(list[i].0 == key);
        }
        if exists|i: int| 0 <= i < list.len() && #[trigger] list[i].0 == key {
            let i = choose|i: int| 0 <= i < list.len() && #[trigger] list[i].0 == key;
            if i < list.len() - 1 {
                assert(front[i].0 == key);
            }
        }
    }
}

/// Where no name stands twice, each entry's name leads to that entry's value.
pub proof fn lemma_mapping_values(list: Seq<(Seq<char>, ValueView)>, at: int)
    requires
        distinct_keys(list),
        0 <= at < list.len(),
    ensures
        mapping_of(list).contains_key(list[at].0),
        mapping_of(list)[list[at].0] == list[at].1,
    decreases list.len(),
{
    if at < list.len() - 1 {
        lemma_front_distinct(list);
        lemma_mapping_values(list.drop_last(), at);
        assert(list[at].0 != list.last().0);
    }
}

/// Where no name stands twice, the mapping has as many names as the list has
/// entries.
pub proof fn lemma_mapping_len(list: Seq<(Seq<char>, ValueView)>)
    requires
        distinct_keys(list),
    ensures
        mapping_of(list).dom().finite(),
        mapping_of(list).len() == list.len(),
    decreases list.len(),
{
    if list.len() > 0 {
        let front = list.drop_last();
        lemma_front_distinct(list);
        lemma_mapping_len(front);
        lemma_mapping_names(front, list.last().0);
        if mapping_of(front).contains_key(list.last().0) {
            let i = choose|i: int| 0 <= i < front.len() && #[trigger] front[i].0 == list.last().0;
            assert(list[i].0 != list[list.len() - 1].0);
        }
    }
}

/// Putting a new value at the place of an entry, under the same name, is the
/// mapping's insertion of that name with the new value.
proof fn lemma_mapping_update(list: Seq<(Seq<char>, ValueView)>, at: int, value: ValueView)
    requires
        distinct_keys(list),
        0 <= at < list.len(),
    ensures
        distinct_keys(list.update(at, (list[at].0, value))),
        mapping_of(list.update(at, (list[at].0, value))) == mapping_of(list).insert(
            list[at].0,
            value,
        ),
    decreases list.len(),
{
    let key = list[at].0;
    let changed = list.update(at, (key, value));
    assert forall|i: int, j: int| 0 <= i < j < changed.len() implies changed[i].0
        != changed[j].0 by {
        assert(list[i].0 != list[j].0);
    }
    let front = list.drop_last();
    if at == list.len() - 1 {
        assert(changed.drop_last() =~= front);
    } else {
        lemma_front_distinct(list);
        lemma_mapping_update(front, at, value);
        assert(changed.drop_last() =~= front.update(at, (key, value)));
        assert(list[at].0 != list.last().0);
    }
    assert(mapping_of(changed) =~= mapping_of(list).insert(key, value));
}

/// The description of the current track: a mapping from names to values, in
/// which every name occurs once. It keeps its entries in the order in which
/// their names first came.
///
/// It is a list and not a `HashMap<String, _>`: vstd specifies a hash map only
/// for keys whose hashing it models, and strings are not among them, so
/// nothing could be proved of such a map or of its copy. The values are the
/// library's own for a like reason: a value of the bus may hold a file
/// descriptor, and its copy can fail.
#[derive(Debug)]
pub struct Metadata {
    entries: Vec<MetadataEntry>,
}

impl View for Metadata {
    type V = Map<Seq<char>, ValueView>;

    /// The mapping that the entries spell out.
    open spec fn view(&self) -> Map<Seq<char>, ValueView> {
        mapping_of(self.listing())
    }
}

impl Metadata {
    /// The entries, in the order in which their names first came.
    pub closed spec fn listing(&self) -> Seq<(Seq<char>, ValueView)> {
        entry_views(self.entries@)
    }

    #[verifier::type_invariant]
    spec fn well_formed(&self) -> bool {
        distinct_keys(self.listing())
    }

    /// A description without entries.
    pub fn new() -> (empty: Self)
        ensures
            empty.listing() == Seq::<(Seq<char>, ValueView)>::empty(),
            empty@ == Map::<Seq<char>, ValueView>::empty(),
    {
        Metadata { entries: Vec::new() }
    }

    /// The number of names.
    pub fn len(&self) -> (count: usize)
        ensures
            count == self.listing().len(),
            count == self@.len(),
    {
        proof {
            use_type_invariant(self);
            lemma_mapping_len(self.listing());
        }
        self.entries.len()
    }

    /// The place of `key` among the entries, if it is there.
    fn position(&self, key: &String) -> (place: Option<usize>)
        ensures
            match place {
                Some(at) => at < self.listing().len() && self.listing()[at as int].0 == key@,
                None => forall|i: int| 0 <= i < self.listing().len() ==> self.listing()[i].0 != key@,
            },
    {
        let mut at: usize = 0;
        while at < self.entries.len()
            invariant
                at <= self.entries.len(),
                forall|i: int| 0 <= i < at ==> self.listing()[i].0 != key@,
            decreases self.entries.len() - at,
        {
            if self.entries[at].key == *key {
                return Some(at);
            }
            at += 1;
        }
        None
    }

    /// The value under `key`: `Some` exactly where the name is there.
    pub fn get(&self, key: &str) -> (found: Option<&MetadataValue>)
        ensures
            match found {
                Some(value) => self@.contains_key(key@) && self@[key@] == value@,
                None => !self@.contains_key(key@),
            },
    {
        proof {
            use_type_invariant(self);
            lemma_mapping_names(self.listing(), key@);
        }
        let name = key.to_owned();
        match self.position(&name) {
            Some(at) => {
                proof {
                    lemma_mapping_values(self.listing(), at as int);
                }
                Some(&self.entries[at].value)
            },
            None => None,
        }
    }

    /// Puts `value` under `key`. A name that was there keeps its place and
    /// gets the new value; a new name goes to the end.
    pub fn insert(&mut self, key: String, value: MetadataValue)
        ensures
            final(self)@ == old(self)@.insert(key@, value@),
            final(self).listing() == match old(self).position_of(key@) {
                Some(at) => old(self).listing().update(at, (key@, value@)),
                None => old(self).listing().push((key@, value@)),
            },
    {
        proof {
            use_type_invariant(&*self);
        }
        let ghost before = self.listing();
        let place = self.position(&key);
        let mut entries: Vec<MetadataEntry> = Vec::new();
        std::mem::swap(&mut self.entries, &mut entries);
        match place {
            Some(at) => {
                proof {
                    lemma_mapping_update(before, at as int, value@);
                    assert(before[at as int].0 == key@);
                    assert(old(self).position_of(key@) == Some(at as int));
                }
                entries.set(at, MetadataEntry { key, value });
                assert(entry_views(entries@) =~= before.update(at as int, (key@, value@)));
            },
            None => {
                entries.push(MetadataEntry { key, value });
                assert(entry_views(entries@) =~= before.push((key@, value@)));
                assert(entry_views(entries@).drop_last() =~= before);
            },
        }
        self.entries = entries;
    }

    /// The place of the entry with this name, if one has it.
    pub open spec fn position_of(&self, key: Seq<char>) -> Option<int> {
        if exists|i: int| 0 <= i < self.listing().len() && #[trigger] self.listing()[i].0 == key {
            Some(
                choose|i: int|
                    0 <= i < self.listing().len() && #[trigger] self.listing()[i].0 == key,
            )
        } else {
            None
        }
    }

    /// The entries, each name once, in the order in which the names first
    /// came.
    pub fn entries(&self) -> (list: &Vec<MetadataEntry>)
        ensures
            entry_views(list@) == self.listing(),
            distinct_keys(self.listing()),
    {
        proof {
            use_type_invariant(self);
        }
        &self.entries
    }
}

impl Clone for Metadata {
    /// A copy has the same entries in the same order.
    fn clone(&self) -> (copy: Self)
        ensures
            copy.listing() == self.listing(),
            copy@ == self@,
    {
        proof {
            use_type_invariant(self);
        }
        let mut entries: Vec<MetadataEntry> = Vec::new();
        let mut at: usize = 0;
        while at < self.entries.len()
            invariant
                at <= self.entries.len(),
                entries.len() == at,
                forall|i: int| 0 <= i < at ==> entries@[i]@ == self.entries@[i]@,
            decreases self.entries.len() - at,
        {
            let entry = &self.entries[at];
            entries.push(MetadataEntry { key: entry.key.clone(), value: entry.value.clone() });
            at += 1;
        }
        assert(entry_views(entries@) =~= self.listing());
        Metadata { entries }
    }
}

impl Default for Metadata {
    /// A description without entries.
    fn default() -> (empty: Self)
        ensures
            empty.listing() == Seq::<(Seq<char>, ValueView)>::empty(),
            empty@ == Map::<Seq<char>, ValueView>::empty(),
    {
        Metadata::new()
    }
}

} // verus!
