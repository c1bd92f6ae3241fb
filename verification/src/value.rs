//! The generic values that filters are read from and written to.

use vstd::prelude::*;

verus! {

/// A value as it stands under a key of an object. Binary data, a list and a
/// nested object are told apart from the other values, but what they hold is
/// not read by any filter.
#[derive(Debug, Clone, PartialEq, Eq)]
pub enum Value {
    Null,
    Boolean(bool),
    /// A number, by its decimal text.
    Number(String),
    String(String),
    Enum(String),
    Binary,
    List,
    Object,
}

/// The mathematical content of a [`Value`].
pub ghost enum ValueView {
    Null,
    Boolean(bool),
    Number(Seq<char>),
    String(Seq<char>),
    Enum(Seq<char>),
    Binary,
    List,
    Object,
}

impl View for Value {
    type V = ValueView;

    open spec fn view(&self) -> ValueView {
        match self {
            Value::Null => ValueView::Null,
            Value::Boolean(b) => ValueView::Boolean(*b),
            Value::Number(s) => ValueView::Number(s@),
            Value::String(s) => ValueView::String(s@),
            Value::Enum(s) => ValueView::Enum(s@),
            Value::Binary => ValueView::Binary,
            Value::List => ValueView::List,
            Value::Object => ValueView::Object,
        }
    }
}

impl Value {
    /// A copy with the same content.
    pub fn duplicate(&self) -> (r: Value)
        ensures
            r@ == self@,
    {
        match self {
            Value::Null => Value::Null,
            Value::Boolean(b) => Value::Boolean(*b),
            Value::Number(s) => Value::Number(s.clone()),
            Value::String(s) => Value::String(s.clone()),
            Value::Enum(s) => Value::Enum(s.clone()),
            Value::Binary => Value::Binary,
            Value::List => Value::List,
            Value::Object => Value::Object,
        }
    }
}

/// The map that a sequence of keyed entries stands for: a later entry
/// replaces an earlier one under the same key.
pub open spec fn table_map<T: View>(s: Seq<(String, T)>) -> Map<Seq<char>, T::V>
    decreases s.len(),
{
    if s.len() == 0 {
        Map::empty()
    } else {
        table_map(s.drop_last()).insert(s.last().0@, s.last().1@)
    }
}

/// A finite map from text keys to items.
#[derive(Debug, Clone)]
pub struct Table<T> {
    entries: Vec<(String, T)>,
}

impl<T: View> View for Table<T> {
    type V = Map<Seq<char>, T::V>;

    closed spec fn view(&self) -> Map<Seq<char>, T::V> {
        table_map(self.entries@)
    }
}

impl<T: View> Table<T> {
    /// The empty table.
    pub fn new() -> (r: Self)
        ensures
            r@ == Map::<Seq<char>, T::V>::empty(),
    {
        Table { entries: Vec::new() }
    }

    /// Whether the table holds no key.
    pub fn is_empty(&self) -> (r: bool)
        ensures
            r == (self@ =~= Map::<Seq<char>, T::V>::empty()),
    {
        let r = self.entries.len() == 0;
        proof {
            if !r {
                assert(self@.contains_key(self.entries@.last().0@));
            }
        }
        r
    }

    /// Puts `item` under `key`, in place of what stood there.
    pub fn insert(&mut self, key: String, item: T)
        ensures
            final(self)@ == old(self)@.insert(key@, item@),
    {
        let ghost before = self.entries@;
        self.entries.push((key, item));
        proof {
            assert(self.entries@.drop_last() =~= before);
        }
    }

    /// The item under `key`, if there is one.
    pub fn get(&self, key: &str) -> (r: Option<&T>)
        ensures
            match r {
                Some(item) => self@.contains_key(key@) && self@[key@] == item@,
                None => !self@.contains_key(key@),
            },
    {
        let wanted = key.to_owned();
        let mut i: usize = self.entries.len();
        proof {
            assert(self.entries@.take(i as int) =~= self.entries@);
        }
        while i > 0
            invariant
                i <= self.entries.len(),
                wanted@ == key@,
                table_map(self.entries@.take(i as int)).contains_key(key@) == self@.contains_key(
                    key@,
                ),
                self@.contains_key(key@) ==> table_map(self.entries@.take(i as int))[key@]
                    == self@[key@],
            decreases i,
        {
            let ghost prefix = self.entries@.take(i as int);
            proof {
                assert(prefix.drop_last() =~= self.entries@.take(i - 1));
                assert(prefix.last() == self.entries@[i - 1]);
            }
            i = i - 1;
            let entry = &self.entries[i];
            if entry.0.eq(&wanted) {
                return Some(&entry.1);
            }
        }
        None
    }

    /// The entries as they were put in, the latest last; the table is the
    /// map that they stand for.
    pub fn entries(&self) -> (r: &Vec<(String, T)>)
        ensures
            table_map(r@) == self@,
    {
        &self.entries
    }

    /// Whether there is an item under `key`.
    pub fn contains_key(&self, key: &str) -> (r: bool)
        ensures
            r == self@.contains_key(key@),
    {
        self.get(key).is_some()
    }
}

/// An object: the values under its keys.
pub type Object = Table<Value>;

/// What a filter is read from and written to.
#[derive(Debug, Clone)]
pub enum Input {
    /// Anything that is no object at the top.
    Leaf(Value),
    Object(Object),
}

/// The mathematical content of an [`Input`].
pub ghost enum InputView {
    Leaf(ValueView),
    Object(Map<Seq<char>, ValueView>),
}

impl View for Input {
    type V = InputView;

    open spec fn view(&self) -> InputView {
        match self {
            Input::Leaf(v) => InputView::Leaf(v@),
            Input::Object(o) => InputView::Object(o@),
        }
    }
}

/// Why a value could not be read as the type that was asked for.
#[derive(Clone, Copy, Debug, PartialEq, Eq, Structural)]
pub enum ErrorKind {
    /// The value has another shape than the type takes.
    TypeMismatch,
    /// The value has the right shape, but its text is not one of the type.
    Malformed,
}

/// A failure to read a filter.
#[derive(Debug, Clone, PartialEq, Eq)]
pub struct FieldError {
    pub kind: ErrorKind,
    /// The schema type that was being built.
    pub target: String,
    /// The operator whose value was refused; `None` where the input itself
    /// was refused.
    pub field: Option<String>,
    /// The schema type that the refused value was to be read as.
    pub expected: String,
    /// The refused value.
    pub found: Value,
}

/// The mathematical content of a [`FieldError`].
pub ghost struct FieldErrorView {
    pub kind: ErrorKind,
    pub target: Seq<char>,
    pub field: Option<Seq<char>>,
    pub expected: Seq<char>,
    pub found: ValueView,
}

impl View for FieldError {
    type V = FieldErrorView;

    open spec fn view(&self) -> FieldErrorView {
        FieldErrorView {
            kind: self.kind,
            target: self.target@,
            field: match self.field {
                Some(f) => Some(f@),
                None => None,
            },
            expected: self.expected@,
            found: self.found@,
        }
    }
}

} // verus!
