//! A map from text keys to values kept as the log of its writes: each insert
//! or removal is appended, and the latest write for a key decides its value.

use vstd::prelude::*;

verus! {

/// The map a log of writes stands for.
pub open spec fn log_map<T>(log: Seq<(String, Option<T>)>) -> Map<Seq<char>, T>
    decreases log.len(),
{
    if log.len() == 0 {
        Map::empty()
    } else {
        let previous = log_map(log.drop_last());
        match log.last().1 {
            Some(value) => previous.insert(log.last().0@, value),
            None => previous.remove(log.last().0@),
        }
    }
}

/// The position of the latest write for `key`, or -1.
pub open spec fn latest_write<T>(log: Seq<(String, Option<T>)>, key: Seq<char>) -> int
    decreases log.len(),
{
    if log.len() == 0 {
        -1
    } else if log.last().0@ == key {
        log.len() - 1
    } else {
        latest_write(log.drop_last(), key)
    }
}

proof fn lemma_log_lookup<T>(log: Seq<(String, Option<T>)>, key: Seq<char>)
    ensures
        -1 <= latest_write(log, key) < log.len(),
        latest_write(log, key) >= 0 ==> log[latest_write(log, key)].0@ == key,
        log_map(log).contains_key(key) <==> (latest_write(log, key) >= 0 && log[latest_write(
            log,
            key,
        )].1 is Some),
        log_map(log).contains_key(key) ==> log_map(log)[key] == log[latest_write(log, key)].1->Some_0,
    decreases log.len(),
{
    if log.len() > 0 && log.last().0@ != key {
        lemma_log_lookup(log.drop_last(), key);
    }
}

/// A text-keyed map kept as its log of writes.
#[derive(Debug)]
pub struct KeyedLog<T> {
    writes: Vec<(String, Option<T>)>,
}

impl<T> View for KeyedLog<T> {
    type V = Map<Seq<char>, T>;

    closed spec fn view(&self) -> Map<Seq<char>, T> {
        log_map(self.writes@)
    }
}

impl<T> KeyedLog<T> {
    pub fn new() -> (r: Self)
        ensures
            r@ == Map::<Seq<char>, T>::empty(),
    {
        KeyedLog { writes: Vec::new() }
    }

    /// Sets the value of `key`.
    pub fn insert(&mut self, key: &str, value: T)
        ensures
            final(self)@ == old(self)@.insert(key@, value),
    {
        let ghost before = self.writes@;
        self.writes.push((key.to_owned(), Some(value)));
        assert(self.writes@.drop_last() =~= before);
    }

    /// Removes `key` and its value.
    pub fn remove(&mut self, key: &str)
        ensures
            final(self)@ == old(self)@.remove(key@),
    {
        let ghost before = self.writes@;
        self.writes.push((key.to_owned(), None));
        assert(self.writes@.drop_last() =~= before);
    }

    /// The value of `key`, if any.
    pub fn get(&self, key: &str) -> (r: Option<&T>)
        ensures
            match r {
                Some(value) => self@.contains_key(key@) && *value == self@[key@],
                None => !self@.contains_key(key@),
            },
    {
        proof {
            lemma_log_lookup(self.writes@, key@);
        }
        let mut j: usize = self.writes.len();
        assert(self.writes@.take(j as int) =~= self.writes@);
        while j > 0
            invariant
                j <= self.writes@.len(),
                latest_write(self.writes@, key@) == latest_write(self.writes@.take(j as int), key@),
            decreases j,
        {
            assert(self.writes@.take(j as int).drop_last() =~= self.writes@.take(j as int - 1));
            let entry = &self.writes[j - 1];
            if crate::text::text_eq(entry.0.as_str(), key) {
                proof {
                    lemma_log_lookup(self.writes@, key@);
                    assert(latest_write(self.writes@, key@) == j - 1);
                }
                return match &entry.1 {
                    Some(value) => Some(value),
                    None => None,
                };
            }
            j = j - 1;
        }
        proof {
            lemma_log_lookup(self.writes@, key@);
        }
        None
    }

    /// Whether `key` has a value.
    pub fn contains_key(&self, key: &str) -> (r: bool)
        ensures
            r == self@.contains_key(key@),
    {
        self.get(key).is_some()
    }
}

} // verus!
