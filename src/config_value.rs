use vstd::prelude::*;

use crate::text::text_eq;

verus! {

/// A number as it appears in a settings document.
#[derive(Clone, Debug)]
pub enum Num {
    /// A non-negative integer.
    UInt(u64),
    /// A negative integer.
    Int(i64),
    /// Any other number, in its decimal text form.
    Decimal(String),
}

/// A settings document: the plain values that the factories read.
#[derive(Debug)]
pub enum ConfigValue {
    Null,
    Bool(bool),
    Number(Num),
    Str(String),
    List(Vec<ConfigValue>),
    Table(Vec<(String, ConfigValue)>),
}

/// The value stored under `key` among `entries`, the first one if several share it.
pub open spec fn entry_lookup(entries: Seq<(String, ConfigValue)>, key: Seq<char>) -> Option<
    ConfigValue,
>
    decreases entries.len(),
{
    if entries.len() == 0 {
        None
    } else if entries[0].0@ == key {
        Some(entries[0].1)
    } else {
        entry_lookup(entries.drop_first(), key)
    }
}

impl ConfigValue {
    /// The member `key` of a table; nothing for any other kind of value.
    pub open spec fn spec_get(self, key: Seq<char>) -> Option<ConfigValue> {
        match self {
            ConfigValue::Table(entries) => entry_lookup(entries@, key),
            _ => None,
        }
    }

    /// The text of a string value.
    pub open spec fn spec_as_str(self) -> Option<Seq<char>> {
        match self {
            ConfigValue::Str(s) => Some(s@),
            _ => None,
        }
    }

    /// The text stored under `key`, if it is a string.
    pub open spec fn spec_str_at(self, key: Seq<char>) -> Option<Seq<char>> {
        match self.spec_get(key) {
            Some(v) => v.spec_as_str(),
            None => None,
        }
    }

    /// The flag stored under `key`, if it is a boolean.
    pub open spec fn spec_bool_at(self, key: Seq<char>) -> Option<bool> {
        match self.spec_get(key) {
            Some(ConfigValue::Bool(b)) => Some(b),
            _ => None,
        }
    }

    /// The integer stored under `key`, if it is a non-negative integer.
    pub open spec fn spec_u64_at(self, key: Seq<char>) -> Option<u64> {
        match self.spec_get(key) {
            Some(ConfigValue::Number(Num::UInt(n))) => Some(n),
            _ => None,
        }
    }

    /// The number stored under `key`, if it is a number.
    pub open spec fn spec_num_at(self, key: Seq<char>) -> Option<Num> {
        match self.spec_get(key) {
            Some(ConfigValue::Number(n)) => Some(n),
            _ => None,
        }
    }

    /// Looks up the member `key` of a table.
    pub fn get<'a>(&'a self, key: &str) -> (r: Option<&'a ConfigValue>)
        ensures
            match r {
                Some(v) => self.spec_get(key@) == Some(*v),
                None => self.spec_get(key@) is None,
            },
    {
        match self {
            ConfigValue::Table(entries) => {
                let mut i: usize = 0;
                assert(entries@.skip(0) =~= entries@);
                while i < entries.len()
                    invariant
                        i <= entries@.len(),
                        self.spec_get(key@) == entry_lookup(entries@, key@),
                        entry_lookup(entries@, key@) == entry_lookup(entries@.skip(i as int), key@),
                    decreases entries@.len() - i,
                {
                    assert(entries@.skip(i as int).drop_first() =~= entries@.skip(i + 1));
                    assert(entries@.skip(i as int)[0] == entries@[i as int]);
                    if text_eq(entries[i].0.as_str(), key) {
                        return Some(&entries[i].1);
                    }
                    i += 1;
                }
                None
            },
            _ => None,
        }
    }

    /// The text stored under `key`, if it is a string.
    pub fn str_at<'a>(&'a self, key: &str) -> (r: Option<&'a str>)
        ensures
            match r {
                Some(s) => self.spec_str_at(key@) == Some(s@),
                None => self.spec_str_at(key@) is None,
            },
    {
        match self.get(key) {
            Some(ConfigValue::Str(s)) => Some(s.as_str()),
            _ => None,
        }
    }

    /// The flag stored under `key`, if it is a boolean.
    pub fn bool_at(&self, key: &str) -> (r: Option<bool>)
        ensures
            r == self.spec_bool_at(key@),
    {
        match self.get(key) {
            Some(ConfigValue::Bool(b)) => Some(*b),
            _ => None,
        }
    }

    /// The integer stored under `key`, if it is a non-negative integer.
    pub fn u64_at(&self, key: &str) -> (r: Option<u64>)
        ensures
            r == self.spec_u64_at(key@),
    {
        match self.get(key) {
            Some(ConfigValue::Number(Num::UInt(n))) => Some(*n),
            _ => None,
        }
    }

    /// The number stored under `key`, if it is a number.
    pub fn num_at(&self, key: &str) -> (r: Option<Num>)
        ensures
            r == self.spec_num_at(key@),
    {
        match self.get(key) {
            Some(ConfigValue::Number(n)) => Some(n.copy()),
            _ => None,
        }
    }

    /// Whether `key` is present at all.
    pub fn has(&self, key: &str) -> (r: bool)
        ensures
            r == self.spec_get(key@) is Some,
    {
        self.get(key).is_some()
    }
}

impl Num {
    /// An equal copy.
    pub fn copy(&self) -> (r: Num)
        ensures
            r == *self,
    {
        match self {
            Num::UInt(n) => Num::UInt(*n),
            Num::Int(n) => Num::Int(*n),
            Num::Decimal(s) => Num::Decimal(s.clone()),
        }
    }
}

} // verus!
