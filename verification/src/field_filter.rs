//! The filter on one scalar kind, as the schema sees it: a named input
//! object that holds the kind's operator set.

use vstd::prelude::*;
use vstd::string::StringExecFns;
use crate::filter_ops::{lemma_names_push, lemma_operator_names, operator_entry, BaseFilterOps, FilterOps, OptionFilterOps, StringFilterOps};
use crate::registry::{keyed, lemma_put_all_fresh, names_of, new_fields, texts, MetaType, MetaTypeView, Registry};
use crate::scalar::{Date, Uuid};
use crate::value::{ErrorKind, FieldError, FieldErrorView, Input, InputView, Object, Value, ValueView};

verus! {

/// A scalar kind that has a filter: its operator set and the name of its
/// filter type in the schema.
pub trait WithFilterOps {
    type Ops: FilterOps;

    spec fn filter_name_spec() -> Seq<char>;

    fn filter_name() -> (r: String)
        ensures
            r@ == Self::filter_name_spec(),
    ;

    /// No two operators of the kind's set share a name.
    proof fn lemma_distinct_names()
        ensures
            names_of(Self::Ops::fields_spec()).no_duplicates(),
    ;
}

impl WithFilterOps for String {
    type Ops = StringFilterOps;

    open spec fn filter_name_spec() -> Seq<char> {
        "StringFieldFilter"@
    }

    fn filter_name() -> (r: String) {
        "StringFieldFilter".to_owned()
    }

    proof fn lemma_distinct_names() {
        lemma_operator_names();
        StringFilterOps::lemma_names("isNull"@);
    }
}

impl WithFilterOps for Option<String> {
    type Ops = OptionFilterOps<StringFilterOps>;

    open spec fn filter_name_spec() -> Seq<char> {
        "OptionalStringFieldFilter"@
    }

    fn filter_name() -> (r: String) {
        "OptionalStringFieldFilter".to_owned()
    }

    proof fn lemma_distinct_names() {
        lemma_operator_names();
        StringFilterOps::lemma_names("isNull"@);
        lemma_names_push(StringFilterOps::fields_spec(), operator_entry::<bool>("isNull"@), "isNull"@);
    }
}

impl WithFilterOps for Uuid {
    type Ops = BaseFilterOps<Uuid>;

    open spec fn filter_name_spec() -> Seq<char> {
        "UuidFieldFilter"@
    }

    fn filter_name() -> (r: String) {
        "UuidFieldFilter".to_owned()
    }

    proof fn lemma_distinct_names() {
        lemma_operator_names();
        BaseFilterOps::<Uuid>::lemma_names("isNull"@);
    }
}

impl WithFilterOps for Option<Uuid> {
    type Ops = OptionFilterOps<BaseFilterOps<Uuid>>;

    open spec fn filter_name_spec() -> Seq<char> {
        "OptionalUuidFieldFilter"@
    }

    fn filter_name() -> (r: String) {
        "OptionalUuidFieldFilter".to_owned()
    }

    proof fn lemma_distinct_names() {
        lemma_operator_names();
        BaseFilterOps::<Uuid>::lemma_names("isNull"@);
        lemma_names_push(BaseFilterOps::<Uuid>::fields_spec(), operator_entry::<bool>("isNull"@), "isNull"@);
    }
}

impl WithFilterOps for Date {
    type Ops = BaseFilterOps<Date>;

    open spec fn filter_name_spec() -> Seq<char> {
        "DateFieldFilter"@
    }

    fn filter_name() -> (r: String) {
        "DateFieldFilter".to_owned()
    }

    proof fn lemma_distinct_names() {
        lemma_operator_names();
        BaseFilterOps::<Date>::lemma_names("isNull"@);
    }
}

impl WithFilterOps for Option<Date> {
    type Ops = OptionFilterOps<BaseFilterOps<Date>>;

    open spec fn filter_name_spec() -> Seq<char> {
        "OptionalDateFieldFilter"@
    }

    fn filter_name() -> (r: String) {
        "OptionalDateFieldFilter".to_owned()
    }

    proof fn lemma_distinct_names() {
        lemma_operator_names();
        BaseFilterOps::<Date>::lemma_names("isNull"@);
        lemma_names_push(BaseFilterOps::<Date>::fields_spec(), operator_entry::<bool>("isNull"@), "isNull"@);
    }
}

/// The names, each two of them parted by `sep`.
pub open spec fn joined(names: Seq<Seq<char>>, sep: Seq<char>) -> Seq<char>
    decreases names.len(),
{
    if names.len() == 0 {
        Seq::empty()
    } else if names.len() == 1 {
        names[0]
    } else {
        joined(names.drop_last(), sep) + sep + names.last()
    }
}

/// Joins the names, each two of them parted by `sep`.
pub fn join_names(names: &Vec<String>, sep: &str) -> (r: String)
    ensures
        r@ == joined(texts(names@), sep@),
{
    let mut res = String::new();
    let mut i: usize = 0;
    proof {
        assert(texts(names@).take(0).len() == 0);
    }
    while i < names.len()
        invariant
            i <= names.len(),
            res@ == joined(texts(names@).take(i as int), sep@),
        decreases names.len() - i,
    {
        let ghost before = texts(names@).take(i as int);
        let ghost after = texts(names@).take(i + 1);
        proof {
            assert(after.drop_last() =~= before);
            assert(after.last() == names@[i as int]@);
        }
        if i > 0 {
            res.append(sep);
        }
        res.append(names[i].as_str());
        proof {
            if i == 0 {
                assert(res@ =~= after[0]);
            } else {
                assert(res@ =~= joined(before, sep@) + sep@ + after.last());
            }
        }
        i = i + 1;
    }
    proof {
        assert(texts(names@).take(i as int) =~= texts(names@));
    }
    res
}

/// The filter on the scalar kind `T`.
#[derive(Debug, Clone)]
pub struct FieldFilter<T: WithFilterOps> {
    pub ops: T::Ops,
}

impl<T: WithFilterOps> View for FieldFilter<T> {
    type V = <T::Ops as View>::V;

    open spec fn view(&self) -> <T::Ops as View>::V {
        self.ops@
    }
}

impl<T: WithFilterOps> FieldFilter<T> {
    /// The registry after the filter type was registered under `name`:
    /// unchanged where a type of that name is there; else with the operators'
    /// scalar kinds and, under `name`, the input object of the operators.
    pub open spec fn created_spec(types: Map<Seq<char>, MetaTypeView>, name: Seq<char>) -> Map<
        Seq<char>,
        MetaTypeView,
    > {
        if types.contains_key(name) {
            types
        } else {
            T::Ops::registered_spec(types).insert(name, Self::described_spec(name))
        }
    }

    /// The filter type as the registry holds it: an input object of the
    /// operators' fields, each under its name, and of no other field.
    pub open spec fn described_spec(name: Seq<char>) -> MetaTypeView {
        MetaTypeView::InputObject { name, input_fields: keyed(T::Ops::fields_spec()) }
    }

    /// The name holds this filter type already; or it is free, and no name
    /// of the operators' scalar kinds is taken by another type.
    pub open spec fn registrable(types: Map<Seq<char>, MetaTypeView>, name: Seq<char>) -> bool {
        if types.contains_key(name) {
            types[name] == Self::described_spec(name)
        } else {
            T::Ops::scalars_fit(types)
        }
    }

    /// The reference to a type of the schema: its name, marked as required.
    pub open spec fn reference_spec(name: Seq<char>) -> Seq<char> {
        name + "!"@
    }

    /// What `parse` makes of an input: the object's operators, or a type
    /// mismatch that carries what stood in the object's place (null where
    /// nothing was given).
    pub open spec fn parse_spec(value: Option<InputView>) -> Result<
        <T::Ops as View>::V,
        FieldErrorView,
    > {
        match value {
            Some(InputView::Object(m)) => T::Ops::parse_spec(m, T::filter_name_spec()),
            Some(InputView::Leaf(v)) => Err(Self::mismatch_spec(v)),
            None => Err(Self::mismatch_spec(ValueView::Null)),
        }
    }

    /// The refusal of an input that is no object.
    pub open spec fn mismatch_spec(found: ValueView) -> FieldErrorView {
        FieldErrorView {
            kind: ErrorKind::TypeMismatch,
            target: T::filter_name_spec(),
            field: None,
            expected: T::filter_name_spec(),
            found,
        }
    }

    /// The object that `to_value` writes.
    pub open spec fn value_spec(x: <T::Ops as View>::V) -> InputView {
        InputView::Object(T::Ops::write_spec(x, Map::empty()))
    }

    /// The field list of the filter for a federated schema.
    pub open spec fn federation_spec() -> Seq<char> {
        "{ "@ + joined(names_of(T::Ops::fields_spec()), " "@) + " }"@
    }

    /// The name of the filter type in the schema.
    pub fn schema_name() -> (r: String)
        ensures
            r@ == T::filter_name_spec(),
    {
        T::filter_name()
    }

    /// Registers the filter type under the name of its kind.
    pub fn create_type_info(registry: &mut Registry) -> (r: String)
        requires
            Self::registrable(old(registry)@, T::filter_name_spec()),
        ensures
            final(registry)@ == Self::created_spec(old(registry)@, T::filter_name_spec()),
            r@ == Self::reference_spec(T::filter_name_spec()),
    {
        let name = T::filter_name();
        Self::generic_create_type_info(registry, name.as_str())
    }

    /// Registers the filter type under `name`, once: where the type is
    /// there already, the registry stays as it is. Gives the reference to the
    /// type. To register it under the name of another type is a fault of the
    /// caller.
    pub fn generic_create_type_info(registry: &mut Registry, name: &str) -> (r: String)
        requires
            Self::registrable(old(registry)@, name@),
        ensures
            final(registry)@ == Self::created_spec(old(registry)@, name@),
            r@ == Self::reference_spec(name@),
            Self::registrable(final(registry)@, name@),
    {
        if !registry.contains(name) {
            let mut fields = new_fields();
            T::Ops::creat_fields_info(registry, &mut fields);
            proof {
                T::lemma_distinct_names();
                lemma_put_all_fresh(T::Ops::fields_spec());
            }
            registry.types.insert(
                name.to_owned(),
                MetaType::InputObject { name: name.to_owned(), input_fields: fields },
            );
        }
        name.to_owned().concat("!")
    }

    /// Reads the filter from an input, which has to be an object.
    pub fn parse(value: Option<Input>) -> (r: Result<Self, FieldError>)
        ensures
            match r {
                Ok(x) => Self::parse_spec(present_input(value)) == Ok::<
                    <T::Ops as View>::V,
                    FieldErrorView,
                >(x@),
                Err(e) => Self::parse_spec(present_input(value)) == Err::<
                    <T::Ops as View>::V,
                    FieldErrorView,
                >(e@),
            },
    {
        let name = T::filter_name();
        match value {
            Some(Input::Object(obj)) => match T::Ops::parse(&obj, name.as_str()) {
                Ok(ops) => Ok(FieldFilter { ops }),
                Err(e) => Err(e),
            },
            Some(Input::Leaf(found)) => Err(Self::mismatch(found)),
            None => Err(Self::mismatch(Value::Null)),
        }
    }

    /// The refusal of an input that is no object.
    pub fn mismatch(found: Value) -> (e: FieldError)
        ensures
            e@ == Self::mismatch_spec(found@),
    {
        FieldError {
            kind: ErrorKind::TypeMismatch,
            target: T::filter_name(),
            field: None,
            expected: T::filter_name(),
            found,
        }
    }

    /// Writes the filter as an object of its present operators, which parses
    /// as the same filter.
    pub fn to_value(&self) -> (r: Input)
        ensures
            r@ == Self::value_spec(self@),
            T::Ops::reads_back(self@),
            Self::parse_spec(Some(r@)) == Ok::<
                <T::Ops as View>::V,
                FieldErrorView,
            >(self@),
    {
        let mut map: Object = Object::new();
        self.ops.to_value(&mut map);
        proof {
            T::lemma_distinct_names();
            T::Ops::lemma_round_trip(self@, Map::empty(), T::filter_name_spec());
        }
        Input::Object(map)
    }

    /// The operators' names between braces, parted by blanks.
    pub fn federation_fields() -> (r: Option<String>)
        ensures
            match r {
                Some(s) => s@ == Self::federation_spec(),
                None => false,
            },
    {
        let mut names: Vec<String> = Vec::new();
        T::Ops::add_federation_fields(&mut names);
        proof {
            assert(texts(names@) =~= names_of(T::Ops::fields_spec()));
        }
        let mut res = "{ ".to_owned();
        let list = join_names(&names, " ");
        res.append(list.as_str());
        res.append(" }");
        Some(res)
    }
}

/// The content of an input, if one is given.
pub open spec fn present_input(value: Option<Input>) -> Option<InputView> {
    match value {
        Some(v) => Some(v@),
        None => None,
    }
}

} // verus!
