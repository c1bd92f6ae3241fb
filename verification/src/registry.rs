//! The schema registry as far as filters need it: the types registered so
//! far, by name, and the fields of each input object among them.

use vstd::prelude::*;
use async_graphql::indexmap::IndexMap;
use crate::value::Table;

verus! {

/// The metadata of one field of an input object.
#[derive(Debug, Clone, PartialEq, Eq)]
pub struct MetaInputValue {
    pub name: String,
    /// The name of the field's type in the schema.
    pub ty: String,
    /// What the field holds where the input leaves it out; a filter's
    /// operators have no default.
    pub default_value: Option<String>,
    pub visible: bool,
    pub is_secret: bool,
}

/// The mathematical content of a [`MetaInputValue`].
pub ghost struct MetaInputValueView {
    pub name: Seq<char>,
    pub ty: Seq<char>,
    pub default_value: Option<Seq<char>>,
    pub visible: bool,
    pub is_secret: bool,
}

impl View for MetaInputValue {
    type V = MetaInputValueView;

    open spec fn view(&self) -> MetaInputValueView {
        MetaInputValueView {
            name: self.name@,
            ty: self.ty@,
            default_value: match self.default_value {
                Some(d) => Some(d@),
                None => None,
            },
            visible: self.visible,
            is_secret: self.is_secret,
        }
    }
}

/// The insertion-ordered hash map of the `indexmap` crate, as
/// `async_graphql` hands it on.
#[verifier::external_type_specification]
#[verifier::external_body]
#[verifier::reject_recursive_types(K)]
#[verifier::reject_recursive_types(V)]
#[verifier::reject_recursive_types(S)]
pub struct ExIndexMap<K, V, S>(IndexMap<K, V, S>);

/// The fields of an input object, by name and in the order in which the
/// names came in.
pub type InputFields = IndexMap<String, MetaInputValue>;

/// What a map of fields holds: its keys with their fields, in order.
pub uninterp spec fn field_entries(fields: InputFields) -> Seq<(Seq<char>, MetaInputValueView)>;

/// The entries after `entry` was put under `key`: in place of the entry
/// that has the key, or behind all where none has it.
pub open spec fn put_spec(
    s: Seq<(Seq<char>, MetaInputValueView)>,
    key: Seq<char>,
    entry: MetaInputValueView,
) -> Seq<(Seq<char>, MetaInputValueView)> {
    if exists|i: int| 0 <= i < s.len() && s[i].0 == key {
        let i = choose|i: int| 0 <= i < s.len() && s[i].0 == key;
        s.update(i, (key, entry))
    } else {
        s.push((key, entry))
    }
}

/// The entries after each of the fields was put under its name, the first
/// field first.
pub open spec fn put_all(
    s: Seq<(Seq<char>, MetaInputValueView)>,
    fields: Seq<MetaInputValueView>,
) -> Seq<(Seq<char>, MetaInputValueView)>
    decreases fields.len(),
{
    if fields.len() == 0 {
        s
    } else {
        put_spec(put_all(s, fields.drop_last()), fields.last().name, fields.last())
    }
}

/// The fields, each under its name.
pub open spec fn keyed(fields: Seq<MetaInputValueView>) -> Seq<(Seq<char>, MetaInputValueView)> {
    Seq::new(fields.len(), |i: int| (fields[i].name, fields[i]))
}

/// Fields of which no two share a name, put into a map without fields, stand
/// there as they are, in their order.
pub proof fn lemma_put_all_fresh(fields: Seq<MetaInputValueView>)
    requires
        names_of(fields).no_duplicates(),
    ensures
        put_all(Seq::empty(), fields) == keyed(fields),
    decreases fields.len(),
{
    if fields.len() == 0 {
        assert(keyed(fields) =~= Seq::empty());
    } else {
        let rest = fields.drop_last();
        let last = fields.last();
        assert(names_of(rest).no_duplicates()) by {
            assert forall|i: int, j: int|
                0 <= i < rest.len() && 0 <= j < rest.len() && i != j implies names_of(rest)[i]
                != names_of(rest)[j] by {
                assert(names_of(fields)[i] == names_of(rest)[i]);
                assert(names_of(fields)[j] == names_of(rest)[j]);
            }
        }
        lemma_put_all_fresh(rest);
        assert forall|i: int| 0 <= i < rest.len() implies keyed(rest)[i].0 != last.name by {
            assert(names_of(fields)[i] == keyed(rest)[i].0);
            assert(names_of(fields)[fields.len() - 1] == last.name);
        }
        assert(keyed(fields) =~= keyed(rest).push((last.name, last)));
    }
}

/// Calls `IndexMap::new`: a map without entries.
#[verifier::external_body]
pub(crate) fn new_fields() -> (r: InputFields)
    ensures
        field_entries(r) == Seq::<(Seq<char>, MetaInputValueView)>::empty(),
{
    IndexMap::new()
}

/// Calls `IndexMap::insert`: where the key is in the map, the entry takes
/// the place of the old one and the order stays; else the entry comes last.
#[verifier::external_body]
fn put_field(fields: &mut InputFields, key: String, entry: MetaInputValue)
    ensures
        field_entries(*final(fields)) == put_spec(field_entries(*old(fields)), key@, entry@),
{
    fields.insert(key, entry);
}

/// Puts a field into the map under its name.
pub fn insert_field(fields: &mut InputFields, entry: MetaInputValue)
    ensures
        field_entries(*final(fields)) == put_spec(
            field_entries(*old(fields)),
            entry@.name,
            entry@,
        ),
{
    let key = entry.name.clone();
    put_field(fields, key, entry);
}

/// The names of a list of fields, in order.
pub open spec fn names_of(s: Seq<MetaInputValueView>) -> Seq<Seq<char>> {
    Seq::new(s.len(), |i: int| s[i].name)
}

/// The content of a list of texts, in order.
pub open spec fn texts(s: Seq<String>) -> Seq<Seq<char>> {
    Seq::new(s.len(), |i: int| s[i]@)
}

/// A type of the schema.
#[derive(Debug)]
pub enum MetaType {
    Scalar { name: String },
    InputObject { name: String, input_fields: InputFields },
}

/// The mathematical content of a [`MetaType`].
pub ghost enum MetaTypeView {
    Scalar { name: Seq<char> },
    InputObject { name: Seq<char>, input_fields: Seq<(Seq<char>, MetaInputValueView)> },
}

impl View for MetaType {
    type V = MetaTypeView;

    open spec fn view(&self) -> MetaTypeView {
        match self {
            MetaType::Scalar { name } => MetaTypeView::Scalar { name: name@ },
            MetaType::InputObject { name, input_fields } => MetaTypeView::InputObject {
                name: name@,
                input_fields: field_entries(*input_fields),
            },
        }
    }
}

/// The name is free, or holds the scalar of that name already.
pub open spec fn scalar_fits(types: Map<Seq<char>, MetaTypeView>, name: Seq<char>) -> bool {
    types.contains_key(name) ==> types[name] == (MetaTypeView::Scalar { name })
}

/// The registry after a scalar was registered: unchanged where a type of
/// that name is there.
pub open spec fn with_scalar(
    types: Map<Seq<char>, MetaTypeView>,
    name: Seq<char>,
) -> Map<Seq<char>, MetaTypeView> {
    if types.contains_key(name) {
        types
    } else {
        types.insert(name, MetaTypeView::Scalar { name })
    }
}

/// The types of a schema, by name.
#[derive(Debug)]
pub struct Registry {
    pub types: Table<MetaType>,
}

impl View for Registry {
    type V = Map<Seq<char>, MetaTypeView>;

    open spec fn view(&self) -> Map<Seq<char>, MetaTypeView> {
        self.types@
    }
}

impl Registry {
    /// A registry without types.
    pub fn new() -> (r: Self)
        ensures
            r@ == Map::<Seq<char>, MetaTypeView>::empty(),
    {
        Registry { types: Table::new() }
    }

    /// Whether a type of this name is registered.
    pub fn contains(&self, name: &str) -> (r: bool)
        ensures
            r == self@.contains_key(name@),
    {
        self.types.contains_key(name)
    }

    /// The type registered under this name.
    pub fn get(&self, name: &str) -> (r: Option<&MetaType>)
        ensures
            match r {
                Some(ty) => self@.contains_key(name@) && self@[name@] == ty@,
                None => !self@.contains_key(name@),
            },
    {
        self.types.get(name)
    }

    /// Registers a scalar under its name; where the scalar is there already,
    /// nothing changes. To register it under the name of another type is a
    /// fault of the caller.
    pub fn create_scalar(&mut self, name: String)
        requires
            scalar_fits(old(self)@, name@),
        ensures
            final(self)@ == with_scalar(old(self)@, name@),
            scalar_fits(final(self)@, name@),
    {
        if !self.types.contains_key(name.as_str()) {
            let key = name.clone();
            self.types.insert(key, MetaType::Scalar { name });
        }
    }
}

} // verus!
