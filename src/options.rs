//! The typed option store: named options, each bound to one value type,
//! kept as stored text in a table of (name, value) rows.
use vstd::prelude::*;
use core::marker::PhantomData;
use crate::codec::{
    decode_int, decode_roster, encode_int, encode_roster, ids_parsed, int_parsed, int_text,
    roster_json, CodecError,
};

verus! {

/// One row of the options table.
pub struct ConfigOption {
    pub name: String,
    pub value: String,
}

impl ConfigOption {
    /// A copy of this row.
    pub fn duplicate(&self) -> (r: ConfigOption)
        ensures
            r == *self,
    {
        ConfigOption { name: self.name.clone(), value: self.value.clone() }
    }
}

/// The value stored under `name`: that of the last row with this name.
pub open spec fn lookup(rows: Seq<ConfigOption>, name: Seq<char>) -> Option<Seq<char>>
    decreases rows.len(),
{
    if rows.len() == 0 {
        None
    } else if rows.last().name@ == name {
        Some(rows.last().value@)
    } else {
        lookup(rows.drop_last(), name)
    }
}

/// The options table.
pub struct OptionTable {
    rows: Vec<ConfigOption>,
}

impl View for OptionTable {
    type V = Map<Seq<char>, Seq<char>>;

    closed spec fn view(&self) -> Map<Seq<char>, Seq<char>> {
        Map::new(|k: Seq<char>| lookup(self.rows@, k) is Some, |k: Seq<char>| lookup(self.rows@, k)->Some_0)
    }
}

impl OptionTable {
    /// A table with no options set.
    pub fn new() -> (r: OptionTable)
        ensures
            r@ == Map::<Seq<char>, Seq<char>>::empty(),
    {
        let r = OptionTable { rows: Vec::new() };
        assert(r@ =~= Map::<Seq<char>, Seq<char>>::empty());
        r
    }

    /// The stored text of an option, if it is set.
    pub fn stored(&self, name: &String) -> (r: Option<String>)
        ensures
            r is None <==> !self@.contains_key(name@),
            r is Some ==> r->Some_0@ == self@[name@],
    {
        let mut i: usize = self.rows.len();
        assert(self.rows@.subrange(0, i as int) =~= self.rows@);
        while i > 0
            invariant
                i <= self.rows@.len(),
                lookup(self.rows@, name@) == lookup(self.rows@.subrange(0, i as int), name@),
            decreases i,
        {
            assert(self.rows@.subrange(0, i as int).drop_last() =~= self.rows@.subrange(
                0,
                i - 1,
            ));
            if self.rows[i - 1].name == *name {
                return Some(self.rows[i - 1].value.clone());
            }
            i = i - 1;
        }
        None
    }

    /// Deletes an option's row, if there is one.
    pub fn remove(&mut self, name: &String)
        ensures
            final(self)@ == old(self)@.remove(name@),
    {
        let mut out: Vec<ConfigOption> = Vec::new();
        let mut i: usize = 0;
        while i < self.rows.len()
            invariant
                0 <= i <= self.rows@.len(),
                forall|k: Seq<char>|
                    #![trigger lookup(out@, k)]
                    lookup(out@, k) == if k == name@ {
                        None
                    } else {
                        lookup(self.rows@.subrange(0, i as int), k)
                    },
            decreases self.rows.len() - i,
        {
            assert(self.rows@.subrange(0, i + 1).drop_last() =~= self.rows@.subrange(0, i as int));
            let ghost prev = out@;
            let ghost sub0 = self.rows@.subrange(0, i as int);
            let ghost sub1 = self.rows@.subrange(0, i + 1);
            let ghost row_now = self.rows@[i as int];
            assert(sub1.last() == row_now);
            if self.rows[i].name != *name {
                let row = self.rows[i].duplicate();
                out.push(row);
                assert(out@.drop_last() == prev);
                assert forall|k: Seq<char>| #[trigger]
                    lookup(out@, k) == if k == name@ {
                        None
                    } else {
                        lookup(sub1, k)
                    } by {
                    assert(lookup(prev, k) == if k == name@ {
                        None
                    } else {
                        lookup(sub0, k)
                    });
                }
            } else {
                assert forall|k: Seq<char>| #[trigger]
                    lookup(out@, k) == if k == name@ {
                        None
                    } else {
                        lookup(sub1, k)
                    } by {
                    assert(lookup(prev, k) == if k == name@ {
                        None
                    } else {
                        lookup(sub0, k)
                    });
                }
            }
            i = i + 1;
        }
        assert(self.rows@.subrange(0, self.rows.len() as int) =~= self.rows@);
        let ghost before = *self;
        self.rows = out;
        assert(self@ =~= before@.remove(name@));
    }

    /// Sets an option's stored text, replacing what was there.
    pub fn upsert(&mut self, name: String, value: String)
        ensures
            final(self)@ == old(self)@.insert(name@, value@),
    {
        let ghost before = *self;
        self.remove(&name);
        let ghost removed = self.rows@;
        let ghost mid = self@;
        let ghost key = name@;
        let ghost text = value@;
        self.rows.push(ConfigOption { name, value });
        assert(self.rows@.drop_last() == removed);
        assert forall|k: Seq<char>| #[trigger]
            lookup(self.rows@, k) == if k == key {
                Some(text)
            } else {
                lookup(removed, k)
            } by {}
        assert forall|k: Seq<char>| #[trigger] self@.contains_key(k) == (k == key || mid.contains_key(k))
            && (self@.contains_key(k) ==> self@[k] == if k == key {
            text
        } else {
            mid[k]
        }) by {
            assert(lookup(self.rows@, k) == if k == key {
                Some(text)
            } else {
                lookup(removed, k)
            });
        }
        assert(self@ =~= mid.insert(key, text));
        assert(mid =~= before@.remove(key));
        assert(self@ =~= before@.insert(key, text));
    }
}

/// A value type that options can hold, with its stored text.
pub trait OptionValue: Sized {
    /// What a value stands for in contracts.
    type Model;

    spec fn model(&self) -> Self::Model;

    /// Whether the value can be written as text.
    spec fn encodable(&self) -> bool;

    /// The stored text of the value.
    spec fn text_of(&self) -> Seq<char>;

    /// What a stored text reads as, if it is a value of this type.
    spec fn parsed(text: Seq<char>) -> Option<Self::Model>;

    fn to_text(&self) -> (r: Result<String, CodecError>)
        ensures
            r is Ok <==> self.encodable(),
            r is Ok ==> r->Ok_0@ == self.text_of(),
            r is Err ==> r->Err_0 == CodecError::Encode,
    ;

    /// Reads a stored text; the text written for a value reads back as a
    /// value with the same model.
    fn from_text(text: &str) -> (r: Option<Self>)
        ensures
            r is None <==> Self::parsed(text@) is None,
            r is Some ==> Self::parsed(text@) == Some(r->Some_0.model()),
            forall|v: Self|
                #![trigger v.text_of()]
                v.encodable() && v.text_of() == text@ ==> (r is Some && r->Some_0.model()
                    == v.model()),
    ;
}

impl OptionValue for i64 {
    type Model = i64;

    open spec fn model(&self) -> i64 {
        *self
    }

    open spec fn encodable(&self) -> bool {
        true
    }

    open spec fn text_of(&self) -> Seq<char> {
        int_text(*self as int)
    }

    open spec fn parsed(text: Seq<char>) -> Option<i64> {
        int_parsed(text)
    }

    fn to_text(&self) -> (r: Result<String, CodecError>) {
        encode_int(*self)
    }

    fn from_text(text: &str) -> (r: Option<i64>) {
        match decode_int(text) {
            Ok(v) => Some(v),
            Err(_) => None,
        }
    }
}

impl OptionValue for Vec<i64> {
    type Model = Seq<i64>;

    open spec fn model(&self) -> Seq<i64> {
        self@
    }

    open spec fn encodable(&self) -> bool {
        true
    }

    open spec fn text_of(&self) -> Seq<char> {
        roster_json(self@)
    }

    open spec fn parsed(text: Seq<char>) -> Option<Seq<i64>> {
        ids_parsed(text)
    }

    fn to_text(&self) -> (r: Result<String, CodecError>) {
        encode_roster(self.as_slice())
    }

    fn from_text(text: &str) -> (r: Option<Vec<i64>>) {
        match decode_roster(text) {
            Ok(v) => Some(v),
            Err(_) => None,
        }
    }
}

/// A named option bound to the value type `T`: it reads and writes only
/// values of that type under its name.
pub struct ConfigOptionDef<T: OptionValue> {
    key_name: String,
    phantom: PhantomData<T>,
}

impl<T: OptionValue> ConfigOptionDef<T> {
    /// The option's name.
    pub closed spec fn key(&self) -> Seq<char> {
        self.key_name@
    }

    /// Declares the option with this name.
    pub fn new(key_name: &str) -> (r: Self)
        ensures
            r.key() == key_name@,
    {
        ConfigOptionDef { key_name: key_name.to_owned(), phantom: PhantomData }
    }

    /// The option's value: `None` when it is not set, and also when its
    /// stored text does not read as a `T`; a bad stored value is never an
    /// error here.
    pub fn get(&self, table: &OptionTable) -> (r: Option<T>)
        ensures
            !table@.contains_key(self.key()) ==> r is None,
            table@.contains_key(self.key()) ==> match T::parsed(table@[self.key()]) {
                None => r is None,
                Some(m) => r is Some && r->Some_0.model() == m,
            },
            forall|v: T|
                #![trigger v.text_of()]
                table@.contains_key(self.key()) && v.encodable() && v.text_of() == table@[self.key()]
                    ==> (r is Some && r->Some_0.model() == v.model()),
    {
        match table.stored(&self.key_name) {
            Some(text) => T::from_text(text.as_str()),
            None => None,
        }
    }

    /// Stores a value under the option's name, replacing any earlier one.
    /// When the value cannot be written as text, nothing changes.
    pub fn set(&self, table: &mut OptionTable, value: &T) -> (r: Result<(), CodecError>)
        ensures
            r is Ok <==> value.encodable(),
            r is Ok ==> final(table)@ == old(table)@.insert(self.key(), value.text_of()),
            r is Err ==> r == Err::<(), CodecError>(CodecError::Encode) && final(table)@ == old(
                table,
            )@,
    {
        let text = match value.to_text() {
            Ok(t) => t,
            Err(e) => return Err(e),
        };
        table.upsert(self.key_name.clone(), text);
        Ok(())
    }

    /// Removes the option's value; nothing happens when it is not set.
    pub fn unset(&self, table: &mut OptionTable) -> (r: Result<(), CodecError>)
        ensures
            r is Ok,
            final(table)@ == old(table)@.remove(self.key()),
    {
        table.remove(&self.key_name);
        Ok(())
    }
}

} // verus!
